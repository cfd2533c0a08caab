use vstd::prelude::*;

use crate::control::{ImgFileFormat, PIXEL_BYTES};
use crate::pixel::Pixel;

verus! {

/// The file extensions of each export format, the preferred one first.
pub open spec fn format_extensions(fmt: ImgFileFormat) -> Seq<Seq<char>> {
    match fmt {
        ImgFileFormat::Jpeg => seq!["jpeg"@, "jpg"@],
        ImgFileFormat::Png => seq!["png"@],
    }
}

/// The file extensions offered when saving in the given format.
pub fn file_extensions(fmt: ImgFileFormat) -> (exts: Vec<&'static str>)
    ensures
        exts@.len() == format_extensions(fmt).len(),
        forall|i: int| 0 <= i < exts@.len() ==> #[trigger] exts@[i]@ == format_extensions(fmt)[i],
{
    match fmt {
        ImgFileFormat::Jpeg => vec!["jpeg", "jpg"],
        ImgFileFormat::Png => vec!["png"],
    }
}

fn same_text(a: &str, b: &str) -> (r: bool)
    ensures
        r == (a@ == b@),
{
    let sa = a.to_owned();
    let sb = b.to_owned();
    sa == sb
}

/// The extension the exported file gets: the one the user typed when the
/// format accepts it, the preferred one of the format otherwise.
pub fn output_extension(fmt: ImgFileFormat, given: Option<&str>) -> (ext: &'static str)
    ensures
        given is Some && format_extensions(fmt).contains(given->0@) ==> ext@ == given->0@,
        !(given is Some && format_extensions(fmt).contains(given->0@)) ==> ext@ == format_extensions(fmt)[0],
        format_extensions(fmt).contains(ext@),
{
    let exts = file_extensions(fmt);
    let preferred = exts[0];
    proof {
        assert(exts@[0]@ == format_extensions(fmt)[0]);
        assert(format_extensions(fmt).contains(preferred@));
    }
    match given {
        Some(g) => {
            let mut i: usize = 0;
            while i < exts.len()
                invariant
                    given == Some(g),
                    0 <= i <= exts@.len(),
                    exts@.len() == format_extensions(fmt).len(),
                    forall|j: int| 0 <= j < exts@.len() ==> #[trigger] exts@[j]@ == format_extensions(fmt)[j],
                    forall|j: int| 0 <= j < i ==> format_extensions(fmt)[j] != g@,
                decreases exts@.len() - i,
            {
                let candidate = exts[i];
                if same_text(candidate, g) {
                    proof {
                        assert(format_extensions(fmt)[i as int] == g@);
                        assert(format_extensions(fmt).contains(g@));
                    }
                    return candidate;
                }
                i = i + 1;
            }
            proof {
                if format_extensions(fmt).contains(g@) {
                    let j = choose|j: int| 0 <= j < format_extensions(fmt).len() && format_extensions(fmt)[j] == g@;
                    assert(format_extensions(fmt)[j] != g@);
                }
            }
            preferred
        },
        None => preferred,
    }
}

/// The frame with the first and third byte of every pixel exchanged, which
/// turns the canvas's blue-green-red order into red-green-blue.
pub open spec fn swapped_red_blue(s: Seq<u8>) -> Seq<u8> {
    Seq::new(
        s.len(),
        |i: int|
            if i % 4 == 0 {
                s[i + 2]
            } else if i % 4 == 2 {
                s[i - 2]
            } else {
                s[i]
            },
    )
}

/// Whether every pixel of the frame, the last one included, reaches its
/// third byte.
pub open spec fn whole_pixels(len: int) -> bool {
    len % 4 == 0 || len % 4 == 3
}

/// Exchanges the red and blue bytes of every pixel of the frame.
pub fn swap_red_blue(frame: &mut Vec<u8>)
    requires
        whole_pixels(old(frame)@.len() as int),
    ensures
        final(frame)@ == swapped_red_blue(old(frame)@),
{
    let n = frame.len();
    let pixels = n / PIXEL_BYTES;
    let mut p: usize = 0;
    while p < pixels
        invariant
            n == frame@.len(),
            n == old(frame)@.len(),
            pixels == n / 4,
            p <= pixels,
            forall|i: int| 0 <= i < 4 * p ==> #[trigger] frame@[i] == swapped_red_blue(old(frame)@)[i],
            forall|i: int| 4 * p <= i < n ==> #[trigger] frame@[i] == old(frame)@[i],
        decreases pixels - p,
    {
        let base = p * PIXEL_BYTES;
        swap_first_third(frame, base);
        proof {
            assert forall|i: int| 0 <= i < 4 * (p + 1) implies #[trigger] frame@[i]
                == swapped_red_blue(old(frame)@)[i] by {
                if i >= 4 * p {
                    assert(i % 4 == i - 4 * p);
                }
            }
        }
        p = p + 1;
    }
    if n % PIXEL_BYTES == 3 {
        let base = pixels * PIXEL_BYTES;
        swap_first_third(frame, base);
        proof {
            assert forall|i: int| 0 <= i < n implies #[trigger] frame@[i]
                == swapped_red_blue(old(frame)@)[i] by {
                if i >= 4 * p {
                    assert(i % 4 == i - 4 * p);
                }
            }
        }
    }
    proof {
        assert(frame@ =~= swapped_red_blue(old(frame)@));
    }
}

/// Exchanges the bytes at `base` and `base + 2`.
fn swap_first_third(frame: &mut Vec<u8>, base: usize)
    requires
        base + 2 < old(frame).len(),
    ensures
        final(frame)@ == old(frame)@.update(base as int, old(frame)@[base + 2]).update(
            base + 2,
            old(frame)@[base as int],
        ),
{
    let r = frame[base];
    let b = frame[base + 2];
    frame.set(base, b);
    frame.set(base + 2, r);
}

/// Exchanging the red and blue bytes twice gives the frame back.
pub proof fn law_swap_red_blue_involution(s: Seq<u8>)
    requires
        whole_pixels(s.len() as int),
    ensures
        swapped_red_blue(swapped_red_blue(s)) == s,
{
    let t = swapped_red_blue(s);
    assert forall|i: int| 0 <= i < s.len() implies #[trigger] swapped_red_blue(t)[i] == s[i] by {
        if i % 4 == 0 {
            assert((i + 2) % 4 == 2);
        } else if i % 4 == 2 {
            assert((i - 2) % 4 == 0);
        }
    }
    assert(swapped_red_blue(t) =~= s);
}

/// The bytes of a frame laid out as the canvas lays out its pixels (blue,
/// green, red, padding) come out of the exchange in red, green, blue order,
/// the order image files expect.
pub proof fn law_exported_frame_is_rgb(bytes: Seq<u8>, pixels: Seq<Pixel>)
    requires
        bytes.len() == 4 * pixels.len(),
        forall|i: int|
            0 <= i < pixels.len() ==> {
                &&& #[trigger] bytes[4 * i] == pixels[i].b
                &&& bytes[4 * i + 1] == pixels[i].g
                &&& bytes[4 * i + 2] == pixels[i].r
                &&& bytes[4 * i + 3] == pixels[i].padd
            },
    ensures
        forall|i: int|
            0 <= i < pixels.len() ==> {
                &&& #[trigger] swapped_red_blue(bytes)[4 * i] == pixels[i].r
                &&& swapped_red_blue(bytes)[4 * i + 1] == pixels[i].g
                &&& swapped_red_blue(bytes)[4 * i + 2] == pixels[i].b
                &&& swapped_red_blue(bytes)[4 * i + 3] == pixels[i].padd
            },
{
    assert forall|i: int| 0 <= i < pixels.len() implies {
        &&& #[trigger] swapped_red_blue(bytes)[4 * i] == pixels[i].r
        &&& swapped_red_blue(bytes)[4 * i + 1] == pixels[i].g
        &&& swapped_red_blue(bytes)[4 * i + 2] == pixels[i].b
        &&& swapped_red_blue(bytes)[4 * i + 3] == pixels[i].padd
    } by {
        assert(bytes[4 * i] == pixels[i].b);
        assert((4 * i) % 4 == 0);
        assert((4 * i + 1) % 4 == 1);
        assert((4 * i + 2) % 4 == 2);
        assert((4 * i + 3) % 4 == 3);
    }
}

/// Offset that centres `size` pixels inside `screen` pixels.
pub fn centered_offset(screen: usize, size: usize) -> (o: usize)
    requires
        size <= screen,
    ensures
        o == (screen - size) / 2,
{
    (screen - size) / 2
}

/// The pixel at the centre of a window, where a free camera keeps the
/// pointer.
pub fn window_center(width: usize, height: usize) -> (c: (i32, i32))
    ensures
        c == ((width / 2) as i32, (height / 2) as i32),
{
    (#[verifier::truncate] ((width / 2) as i32), #[verifier::truncate] ((height / 2) as i32))
}

} // verus!
