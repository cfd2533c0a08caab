use vstd::prelude::*;

verus! {

/// An image used as a texture: `width * height` texels of `components`
/// bytes each, stored row by row from the top row.
pub struct TextureMap {
    img: Vec<u8>,
    width: usize,
    height: usize,
    components: usize,
}

/// Byte offset of the texel in column `col` whose row, counted from the
/// bottom of the image, is `row_from_bottom`.
pub open spec fn texel_offset(width: int, height: int, components: int, col: int, row_from_bottom: int) -> int {
    ((height - 1 - row_from_bottom) * width + col) * components
}

impl TextureMap {
    /// The texels hold exactly `width * height * components` bytes.
    pub closed spec fn wf(&self) -> bool {
        &&& self.components > 0
        &&& self.img@.len() == self.width * self.height * self.components
    }

    pub closed spec fn bytes(&self) -> Seq<u8> {
        self.img@
    }

    pub closed spec fn spec_width(&self) -> nat {
        self.width as nat
    }

    pub closed spec fn spec_height(&self) -> nat {
        self.height as nat
    }

    pub closed spec fn spec_components(&self) -> nat {
        self.components as nat
    }

    /// What well-formedness says of the size of the image.
    pub proof fn lemma_wf(&self)
        requires
            self.wf(),
        ensures
            self.spec_components() > 0,
            self.bytes().len() == self.spec_width() * self.spec_height() * self.spec_components(),
    {
    }

    /// A texture over the given image; the image must hold a whole number of
    /// texels, `width * height` of them.
    pub fn new(img: Vec<u8>, width: usize, height: usize, components: usize) -> (t: TextureMap)
        requires
            components > 0,
            (img@.len() as int) % (components as int) == 0,
            (img@.len() as int) / (components as int) == width * height,
        ensures
            t.wf(),
            t.bytes() == img@,
            t.spec_width() == width,
            t.spec_height() == height,
            t.spec_components() == components,
    {
        proof {
            vstd::arithmetic::div_mod::lemma_fundamental_div_mod(img@.len() as int, components as int);
            assert(img@.len() == (width * height) * components) by (nonlinear_arith)
                requires
                    img@.len() == components * ((img@.len() as int) / (components as int)) + (img@.len() as int) % (components as int),
                    (img@.len() as int) % (components as int) == 0,
                    (img@.len() as int) / (components as int) == width * height,
            ;
        }
        TextureMap { img, width, height, components }
    }

    /// A single white texel with three components.
    pub fn default() -> (t: TextureMap)
        ensures
            t.wf(),
            t.bytes() == seq![255u8, 255u8, 255u8],
            t.spec_width() == 1,
            t.spec_height() == 1,
            t.spec_components() == 3,
    {
        let mut img: Vec<u8> = Vec::new();
        img.push(255);
        img.push(255);
        img.push(255);
        TextureMap { img, width: 1, height: 1, components: 3 }
    }

    pub fn width(&self) -> (w: usize)
        ensures
            w == self.spec_width(),
    {
        self.width
    }

    pub fn height(&self) -> (h: usize)
        ensures
            h == self.spec_height(),
    {
        self.height
    }

    pub fn components(&self) -> (c: usize)
        ensures
            c == self.spec_components(),
    {
        self.components
    }

    /// The first three bytes of the texel in column `col` and in row
    /// `row_from_bottom` counted from the bottom of the image.
    pub fn get_rgb_texel(&self, col: usize, row_from_bottom: usize) -> (rgb: [u8; 3])
        requires
            self.wf(),
            row_from_bottom < self.spec_height(),
            texel_offset(
                self.spec_width() as int,
                self.spec_height() as int,
                self.spec_components() as int,
                col as int,
                row_from_bottom as int,
            ) + 3 <= self.bytes().len(),
        ensures
            ({
                let o = texel_offset(
                    self.spec_width() as int,
                    self.spec_height() as int,
                    self.spec_components() as int,
                    col as int,
                    row_from_bottom as int,
                );
                rgb@ == seq![self.bytes()[o], self.bytes()[o + 1], self.bytes()[o + 2]]
            }),
    {
        let _n = self.img.len();
        let offset = self.offset_of(col, row_from_bottom);
        [self.img[offset], self.img[offset + 1], self.img[offset + 2]]
    }

    /// The first four bytes of the texel in column `col` and in row
    /// `row_from_bottom` counted from the bottom of the image.
    pub fn get_rgba_texel(&self, col: usize, row_from_bottom: usize) -> (rgba: [u8; 4])
        requires
            self.wf(),
            row_from_bottom < self.spec_height(),
            texel_offset(
                self.spec_width() as int,
                self.spec_height() as int,
                self.spec_components() as int,
                col as int,
                row_from_bottom as int,
            ) + 4 <= self.bytes().len(),
        ensures
            ({
                let o = texel_offset(
                    self.spec_width() as int,
                    self.spec_height() as int,
                    self.spec_components() as int,
                    col as int,
                    row_from_bottom as int,
                );
                rgba@ == seq![self.bytes()[o], self.bytes()[o + 1], self.bytes()[o + 2], self.bytes()[o + 3]]
            }),
    {
        let _n = self.img.len();
        let offset = self.offset_of(col, row_from_bottom);
        [self.img[offset], self.img[offset + 1], self.img[offset + 2], self.img[offset + 3]]
    }

    fn offset_of(&self, col: usize, row_from_bottom: usize) -> (offset: usize)
        requires
            self.wf(),
            row_from_bottom < self.spec_height(),
            texel_offset(
                self.spec_width() as int,
                self.spec_height() as int,
                self.spec_components() as int,
                col as int,
                row_from_bottom as int,
            ) < self.bytes().len(),
        ensures
            offset == texel_offset(
                self.spec_width() as int,
                self.spec_height() as int,
                self.spec_components() as int,
                col as int,
                row_from_bottom as int,
            ),
    {
        let row = self.height - 1 - row_from_bottom;
        let _n = self.img.len();
        proof {
            let w = self.width as int;
            let h = self.height as int;
            let c = self.components as int;
            assert(0 <= row * w) by (nonlinear_arith)
                requires
                    0 <= row,
                    0 <= w,
            ;
            assert(row * w + col <= (row * w + col) * c) by (nonlinear_arith)
                requires
                    0 <= row * w + col,
                    c > 0,
            ;
        }
        (row * self.width + col) * self.components
    }
}

/// Whether an image with this many components per texel can be a texture:
/// RGB or RGBA.
pub fn supported_components(components: i32) -> (ok: bool)
    ensures
        ok == (components == 3 || components == 4),
{
    components == 3 || components == 4
}

} // verus!
