use vstd::prelude::*;

verus! {

#[verifier::external_type_specification]
#[verifier::external_body]
pub struct ExMtl(obj::Mtl);

#[verifier::external_type_specification]
#[verifier::external_body]
pub struct ExMtlError(obj::MtlError);

/// The contents of a list of strings.
pub open spec fn string_views(s: Seq<String>) -> Seq<Seq<char>> {
    s.map_values(|x: String| x@)
}

/// What the obj crate reads from the MTL text `bytes`, as far as the library
/// reads it: the names of the materials it loaded, in the order of the text,
/// and whether it read the whole text without error.  On an error the
/// materials completed before the failing line stay loaded.
pub struct MtlContents {
    pub names: Seq<Seq<char>>,
    pub complete: bool,
}

/// What the obj crate reads from the MTL text `bytes`.
pub uninterp spec fn mtl_contents(bytes: Seq<u8>) -> MtlContents;

/// A material library read from MTL text: the crate's library, which holds
/// the colours and texture file names, the names of its materials in order,
/// and the error that stopped the reading, if any.
pub struct MtlModel {
    pub names: Vec<String>,
    pub error: Option<obj::MtlError>,
    pub lib: obj::Mtl,
}

/// Reads MTL text into a new material library with `obj::Mtl::reload`.  The
/// contract claims that the names of the materials loaded (in the order of
/// the text, those completed before an error included) and whether an error
/// came depend on the text alone: `reload` clears the library before
/// reading.  The colours and file names stay in the returned `Mtl`, of which
/// nothing is claimed.
#[verifier::external_body]
fn load_mtl_data(bytes: &[u8]) -> (m: MtlModel)
    ensures
        mtl_contents(bytes@) == (MtlContents { names: string_views(m.names@), complete: m.error is None }),
{
    let mut lib = obj::Mtl::new(String::new());
    let error = lib.reload(bytes).err();
    MtlModel { names: lib.materials.iter().map(|m| m.name.clone()).collect(), error, lib }
}

/// Reads a material library from its MTL text.  Reading goes on as far as
/// the text allows: the materials read before an error are kept, and the
/// error is handed back beside them.
pub fn parse_mtl(bytes: &[u8]) -> (m: MtlModel)
    ensures
        string_views(m.names@) == mtl_contents(bytes@).names,
        m.error is None <==> mtl_contents(bytes@).complete,
{
    load_mtl_data(bytes)
}

/// The names of the materials of the libraries, library after library.
pub open spec fn material_names_of(libs: Seq<MtlModel>) -> Seq<Seq<char>>
    decreases libs.len(),
{
    if libs.len() == 0 {
        Seq::empty()
    } else {
        material_names_of(libs.drop_last()) + string_views(libs.last().names@)
    }
}

/// The names of an object's textures: the default texture first, then one
/// texture per material of each library, in order.
pub fn texture_names(libs: &Vec<MtlModel>) -> (names: Vec<String>)
    ensures
        string_views(names@) == seq!["default"@] + material_names_of(libs@),
{
    let mut names: Vec<String> = Vec::new();
    names.push("default".to_owned());
    let mut i: usize = 0;
    while i < libs.len()
        invariant
            i <= libs@.len(),
            string_views(names@) == seq!["default"@] + material_names_of(libs@.take(i as int)),
        decreases libs@.len() - i,
    {
        let lib_names = &libs[i].names;
        let ghost before = string_views(names@);
        let mut j: usize = 0;
        while j < lib_names.len()
            invariant
                j <= lib_names@.len(),
                string_views(names@) == before + string_views(lib_names@.take(j as int)),
            decreases lib_names@.len() - j,
        {
            let ghost prev = names@;
            names.push(lib_names[j].clone());
            proof {
                assert(string_views(names@) == string_views(prev).push(lib_names@[j as int]@));
                assert(string_views(lib_names@.take(j + 1)) == string_views(lib_names@.take(j as int)).push(
                    lib_names@[j as int]@,
                ));
            }
            j = j + 1;
        }
        proof {
            assert(lib_names@.take(lib_names@.len() as int) == lib_names@);
            assert(libs@.take(i + 1).drop_last() == libs@.take(i as int));
            assert(libs@.take(i + 1).last() == libs@[i as int]);
        }
        i = i + 1;
    }
    proof {
        assert(libs@.take(libs@.len() as int) == libs@);
    }
    names
}

} // verus!
