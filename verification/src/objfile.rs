use vstd::prelude::*;

use obj::ObjData;
use obj::ObjMaterial::{Mtl, Ref};

use crate::mesh::{
    FaceVertex, GroupMesh, GroupMeshView, GroupTriangle, IndexedMesh, MeshView, complete_triangle, corner_within,
    face_has_normals, face_has_texture, face_supported, group_triangle_within, group_triangles, lemma_group_triangles_within,
    lemma_texture_index_in_range, texture_index_of, triangle_within,
};

verus! {

#[verifier::external_type_specification]
#[verifier::external_body]
pub struct ExObjData(obj::ObjData);

#[verifier::external_type_specification]
#[verifier::external_body]
pub struct ExObjError(obj::ObjError);

/// A group of faces of a Wavefront OBJ model and the material it names.
pub struct ObjGroup {
    pub name: String,
    pub material: Option<String>,
    pub faces: Vec<Vec<FaceVertex>>,
}

/// The contents of a group.
pub struct GroupView {
    pub name: Seq<char>,
    pub material: Option<Seq<char>>,
    pub faces: Seq<Seq<FaceVertex>>,
}

impl View for ObjGroup {
    type V = GroupView;

    open spec fn view(&self) -> GroupView {
        GroupView {
            name: self.name@,
            material: match self.material {
                Some(m) => Some(m@),
                None => None,
            },
            faces: self.faces@.map_values(|f: Vec<FaceVertex>| f@),
        }
    }
}

/// The contents of a list of groups.
pub open spec fn group_views(groups: Seq<ObjGroup>) -> Seq<GroupView> {
    groups.map_values(|g: ObjGroup| g@)
}

/// What an OBJ text holds, as far as the library reads it: the groups of
/// every object in the order of the text, and the numbers of positions,
/// texture coordinates and normals it lists.
pub struct ObjContents {
    pub groups: Seq<GroupView>,
    pub position_count: nat,
    pub texture_coord_count: nat,
    pub normal_count: nat,
}

/// What the obj crate reads from the OBJ text `bytes`, or `None` when it
/// rejects the text.
pub uninterp spec fn obj_contents(bytes: Seq<u8>) -> Option<ObjContents>;

/// ASCII whitespace other than a line feed, or any byte of a non-ASCII
/// character: the bytes that may stand around a command word.
pub open spec fn gap_byte(b: u8) -> bool {
    b == 32 || b == 9 || b == 11 || b == 12 || b == 13 || b >= 128
}

/// A byte that continues a multi-byte UTF-8 character.
pub open spec fn continuation_byte(b: u8) -> bool {
    128 <= b < 192
}

/// Whether a line of the text starts at `s`.
pub open spec fn line_start(bytes: Seq<u8>, s: int) -> bool {
    0 <= s < bytes.len() && (s == 0 || bytes[s - 1] == 10)
}

/// Whether the line starting at `s` is longer than two bytes and is an `o`
/// command whose byte 1, or a `g` command whose byte 2, lies inside a
/// character: the parser cuts the object or group name off there.  The
/// command word is the first byte that is no gap byte, followed by a gap
/// byte or the end of the line.
pub open spec fn command_cut_inside_char(bytes: Seq<u8>, s: int) -> bool {
    &&& s + 2 < bytes.len()
    &&& bytes[s + 1] != 10
    &&& bytes[s + 2] != 10
    &&& exists|k: int|
        #![trigger bytes[k]]
        s <= k < bytes.len() && (forall|j: int| s <= j < k ==> gap_byte(#[trigger] bytes[j])) && ((bytes[k]
            == 111 && continuation_byte(bytes[s + 1])) || (bytes[k] == 103 && continuation_byte(bytes[s + 2])))
            && (k + 1 == bytes.len() || bytes[k + 1] == 10 || gap_byte(bytes[k + 1]))
}

/// Whether no line of the text is an `o` or `g` command that the parser
/// would cut inside a character.
pub open spec fn sliceable_obj_text(bytes: Seq<u8>) -> bool {
    forall|s: int| line_start(bytes, s) ==> !command_cut_inside_char(bytes, s)
}

fn is_gap_byte(b: u8) -> (r: bool)
    ensures
        r == gap_byte(b),
{
    b == 32 || b == 9 || b == 11 || b == 12 || b == 13 || b >= 128
}

fn cuts_inside_char_at(bytes: &[u8], s: usize) -> (r: bool)
    requires
        s < bytes@.len(),
    ensures
        r == command_cut_inside_char(bytes@, s as int),
{
    let n = bytes.len();
    if !(2 < n - s && bytes[s + 1] != 10 && bytes[s + 2] != 10) {
        return false;
    }
    let mut k = s;
    while k < n && is_gap_byte(bytes[k])
        invariant
            s <= k <= n,
            n == bytes@.len(),
            forall|j: int| s <= j < k ==> gap_byte(#[trigger] bytes@[j]),
        decreases n - k,
    {
        k = k + 1;
    }
    if k == n {
        proof {
            if command_cut_inside_char(bytes@, s as int) {
                let w = choose|w: int|
                    #![trigger bytes@[w]]
                    s <= w < bytes@.len() && (forall|j: int| s <= j < w ==> gap_byte(#[trigger] bytes@[j])) && ((
                    bytes@[w] == 111 && continuation_byte(bytes@[s + 1])) || (bytes@[w] == 103 && continuation_byte(
                    bytes@[s + 2]))) && (w + 1 == bytes@.len() || bytes@[w + 1] == 10 || gap_byte(bytes@[w + 1]));
                assert(gap_byte(bytes@[w]));
            }
        }
        return false;
    }
    let c = bytes[k];
    let next_ok = k + 1 == n || bytes[k + 1] == 10 || is_gap_byte(bytes[k + 1]);
    let b1 = bytes[s + 1];
    let b2 = bytes[s + 2];
    let r = next_ok && ((c == 111 && 128 <= b1 && b1 < 192) || (c == 103 && 128 <= b2 && b2 < 192));
    proof {
        if command_cut_inside_char(bytes@, s as int) {
            let w = choose|w: int|
                #![trigger bytes@[w]]
                s <= w < bytes@.len() && (forall|j: int| s <= j < w ==> gap_byte(#[trigger] bytes@[j])) && ((
                bytes@[w] == 111 && continuation_byte(bytes@[s + 1])) || (bytes@[w] == 103 && continuation_byte(
                bytes@[s + 2]))) && (w + 1 == bytes@.len() || bytes@[w + 1] == 10 || gap_byte(bytes@[w + 1]));
            if w < k {
                assert(gap_byte(bytes@[w]));
            } else if w > k {
                assert(gap_byte(bytes@[k as int]));
            }
        }
        if r {
            assert(bytes@[k as int] == c);
        }
    }
    r
}

/// Whether no line of the OBJ text is an `o` or `g` command that the parser
/// would cut inside a character.
pub fn obj_text_sliceable(bytes: &[u8]) -> (b: bool)
    ensures
        b == sliceable_obj_text(bytes@),
{
    let mut s: usize = 0;
    while s < bytes.len()
        invariant
            s <= bytes@.len(),
            forall|t: int| 0 <= t < s ==> (line_start(bytes@, t) ==> !command_cut_inside_char(bytes@, t)),
        decreases bytes@.len() - s,
    {
        if (s == 0 || bytes[s - 1] == 10) && cuts_inside_char_at(bytes, s) {
            assert(line_start(bytes@, s as int));
            return false;
        }
        s = s + 1;
    }
    true
}

/// A parsed OBJ model: the crate's data, which holds the coordinates and the
/// material libraries, the groups of faces, and the numbers of positions,
/// texture coordinates and normals.
pub struct ObjModel {
    pub position_count: usize,
    pub texture_coord_count: usize,
    pub normal_count: usize,
    pub groups: Vec<ObjGroup>,
    pub data: obj::ObjData,
}

/// What a model says of the text it was read from.
pub open spec fn model_contents(m: ObjModel) -> ObjContents {
    ObjContents {
        groups: group_views(m.groups@),
        position_count: m.position_count as nat,
        texture_coord_count: m.texture_coord_count as nat,
        normal_count: m.normal_count as nat,
    }
}

/// Parses OBJ text with `obj::ObjData::load_buf`.  The contract claims that
/// what is handed back (the groups, one per group of each object in order,
/// with the material each names and the position, texture and normal
/// indices of each face corner, and the lengths of the position, texture
/// and normal lists) depends on the text alone, and that an error comes
/// exactly for the texts without such contents.  The parser cuts the names
/// of `o` and `g` commands at a fixed byte and panics where that byte lies
/// inside a character, so such texts are not admitted.  The coordinates stay
/// in the returned `ObjData`, of which nothing is claimed.
#[verifier::external_body]
fn load_obj_data(bytes: &[u8]) -> (r: Result<ObjModel, obj::ObjError>)
    requires
        sliceable_obj_text(bytes@),
    ensures
        match r {
            Ok(m) => obj_contents(bytes@) == Some(model_contents(m)),
            Err(_) => obj_contents(bytes@) is None,
        },
{
    let data = ObjData::load_buf(bytes)?;
    Ok(ObjModel {
        position_count: data.position.len(), texture_coord_count: data.texture.len(), normal_count: data.normal.len(),
        groups: data.objects.iter().flat_map(|o| &o.groups).map(|g| ObjGroup {
            name: g.name.clone(),
            material: g.material.as_ref().map(|m| match m { Ref(name) => name.clone(), Mtl(material) => material.name.clone() }),
            faces: g.polys.iter().map(|p| p.0.iter().map(|t| FaceVertex { position: t.0, texture: t.1, normal: t.2 }).collect()).collect()
        }).collect(),
        data,
    })
}

/// Why an OBJ text could not be read.
pub enum ObjLoadError {
    /// An `o` or `g` line would be cut inside a character (see
    /// `sliceable_obj_text`).
    CommandCutInsideCharacter,
    /// The parser rejected the text.
    Parse(obj::ObjError),
}

/// Reads an OBJ model from its text.
pub fn parse_obj(bytes: &[u8]) -> (r: Result<ObjModel, ObjLoadError>)
    ensures
        !sliceable_obj_text(bytes@) ==> r matches Err(ObjLoadError::CommandCutInsideCharacter),
        sliceable_obj_text(bytes@) ==> {
            &&& r is Ok <==> obj_contents(bytes@) is Some
            &&& r is Ok ==> obj_contents(bytes@) == Some(model_contents(r->Ok_0))
            &&& r is Err ==> r->Err_0 is Parse
        },
{
    if !obj_text_sliceable(bytes) {
        return Err(ObjLoadError::CommandCutInsideCharacter);
    }
    match load_obj_data(bytes) {
        Ok(model) => Ok(model),
        Err(cause) => Err(ObjLoadError::Parse(cause)),
    }
}

/// The material a group is drawn with: the one it names, or the default
/// material.
pub fn group_material(g: &ObjGroup) -> (m: String)
    ensures
        m@ == match g.material {
            Some(name) => name@,
            None => "default"@,
        },
{
    match &g.material {
        Some(name) => name.clone(),
        None => "default".to_owned(),
    }
}


/// The name of the material a group is drawn with: the one it names, or the
/// default material.
pub open spec fn material_name(g: GroupView) -> Seq<char> {
    match g.material {
        Some(m) => m,
        None => "default"@,
    }
}

/// Whether some face of the group lacks texture coordinates.
pub open spec fn lacks_texture(g: GroupView) -> bool {
    exists|i: int| 0 <= i < g.faces.len() && !face_has_texture(#[trigger] g.faces[i])
}

/// Whether some face of the group lacks normals.
pub open spec fn lacks_normals(g: GroupView) -> bool {
    exists|i: int| 0 <= i < g.faces.len() && !face_has_normals(#[trigger] g.faces[i])
}

/// The numbers of texture coordinates and of normals of an object with `pc`
/// positions, `tc` texture coordinates and `nc` normals once the meshes of
/// its first `k` groups are built: each group with faces that lacks texture
/// coordinates adds one, and each that lacks normals adds one per position.
pub open spec fn counts_after(groups: Seq<GroupView>, pc: int, tc: int, nc: int, k: nat) -> (int, int)
    decreases k,
{
    if k == 0 {
        (tc, nc)
    } else {
        let (t, n) = counts_after(groups, pc, tc, nc, (k - 1) as nat);
        let g = groups[k - 1];
        if g.faces.len() == 0 {
            (t, n)
        } else {
            (t + if lacks_texture(g) {
                1int
            } else {
                0int
            }, n + if lacks_normals(g) {
                pc
            } else {
                0int
            })
        }
    }
}

/// The mesh of a group built when the object has `tc` texture coordinates
/// and `nc` normals: its triangles with the missing texture coordinates
/// pointing at a new one at index `tc` and the missing normals at `nc` plus
/// the position index, and the first texture named like its material.
pub open spec fn group_mesh_view(g: GroupView, names: Seq<Seq<char>>, tc: int, nc: int) -> GroupMeshView {
    GroupMeshView {
        mesh: MeshView {
            name: g.name,
            triangles: group_triangles(g.faces).map_values(|t: GroupTriangle| complete_triangle(t, tc as usize, nc)),
            texture_idx: Some(texture_index_of(names, material_name(g))),
        },
        added_texture_coord: lacks_texture(g),
        generated_normals: lacks_normals(g),
    }
}

/// The meshes of the groups with faces among the first `k`, in order.
pub open spec fn meshes_after(groups: Seq<GroupView>, names: Seq<Seq<char>>, pc: int, tc: int, nc: int, k: nat) -> Seq<
    GroupMeshView,
>
    decreases k,
{
    if k == 0 {
        Seq::empty()
    } else {
        let prev = meshes_after(groups, names, pc, tc, nc, (k - 1) as nat);
        let g = groups[k - 1];
        if g.faces.len() == 0 {
            prev
        } else {
            let (t, n) = counts_after(groups, pc, tc, nc, (k - 1) as nat);
            prev.push(group_mesh_view(g, names, t, n))
        }
    }
}

/// Whether the meshes of the groups can be built: every face has 3 or 4
/// corners, and the counts reached and every position plus the normal count
/// reached fit in a `usize`.
pub open spec fn meshes_fit(groups: Seq<GroupView>, pc: int, tc: int, nc: int) -> bool {
    let (t, n) = counts_after(groups, pc, tc, nc, groups.len());
    &&& t <= usize::MAX
    &&& n <= usize::MAX
    &&& forall|i: int, j: int|
        0 <= i < groups.len() && 0 <= j < groups[i].faces.len() ==> face_supported(#[trigger] groups[i].faces[j])
    &&& forall|i: int, j: int, c: int|
        0 <= i < groups.len() && 0 <= j < groups[i].faces.len() && 0 <= c < groups[i].faces[j].len()
            ==> #[trigger] groups[i].faces[j][c].position + n <= usize::MAX
}

/// The counts only grow from one group to the next.
pub proof fn lemma_counts_grow(groups: Seq<GroupView>, pc: int, tc: int, nc: int, a: nat, b: nat)
    requires
        pc >= 0,
        a <= b,
    ensures
        counts_after(groups, pc, tc, nc, a).0 <= counts_after(groups, pc, tc, nc, b).0,
        counts_after(groups, pc, tc, nc, a).1 <= counts_after(groups, pc, tc, nc, b).1,
    decreases b,
{
    if a < b {
        lemma_counts_grow(groups, pc, tc, nc, a, (b - 1) as nat);
    }
}

/// The meshes of an object's groups and the numbers of texture coordinates
/// and normals the object has once they are built.
pub struct ObjectMeshes {
    pub meshes: Vec<GroupMesh>,
    pub texture_coord_count: usize,
    pub normal_count: usize,
}

/// Builds the meshes of the groups with faces of an object that has
/// `position_count` positions, `texture_coord_count` texture coordinates and
/// `normal_count` normals, and whose textures are named `texture_names`.
/// Each mesh that lacks texture coordinates points at one new texture
/// coordinate, and each that lacks normals at one new normal per position,
/// added in the order of the meshes.
pub fn meshes_from_groups(
    groups: &Vec<ObjGroup>,
    texture_names: &Vec<String>,
    position_count: usize,
    texture_coord_count: usize,
    normal_count: usize,
) -> (r: ObjectMeshes)
    requires
        meshes_fit(group_views(groups@), position_count as int, texture_coord_count as int, normal_count as int),
    ensures
        r.meshes@.map_values(|m: GroupMesh| m@) == meshes_after(
            group_views(groups@),
            texture_names@.map_values(|s: String| s@),
            position_count as int,
            texture_coord_count as int,
            normal_count as int,
            groups@.len(),
        ),
        (r.texture_coord_count as int, r.normal_count as int) == counts_after(
            group_views(groups@),
            position_count as int,
            texture_coord_count as int,
            normal_count as int,
            groups@.len(),
        ),
{
    let ghost gv = group_views(groups@);
    let ghost names = texture_names@.map_values(|s: String| s@);
    let ghost pc = position_count as int;
    let ghost end = counts_after(gv, pc, texture_coord_count as int, normal_count as int, groups@.len());
    let mut meshes: Vec<GroupMesh> = Vec::new();
    let mut tc = texture_coord_count;
    let mut nc = normal_count;
    let mut i: usize = 0;
    while i < groups.len()
        invariant
            i <= groups@.len(),
            gv == group_views(groups@),
            names == texture_names@.map_values(|s: String| s@),
            pc == position_count,
            end == counts_after(gv, pc, texture_coord_count as int, normal_count as int, groups@.len()),
            meshes_fit(gv, pc, texture_coord_count as int, normal_count as int),
            (tc as int, nc as int) == counts_after(gv, pc, texture_coord_count as int, normal_count as int, i as nat),
            meshes@.map_values(|m: GroupMesh| m@) == meshes_after(
                gv,
                names,
                pc,
                texture_coord_count as int,
                normal_count as int,
                i as nat,
            ),
        decreases groups@.len() - i,
    {
        let g = &groups[i];
        let ghost gw = gv[i as int];
        proof {
            assert(gw == g@);
            lemma_counts_grow(gv, pc, texture_coord_count as int, normal_count as int, i as nat, (i + 1) as nat);
            lemma_counts_grow(gv, pc, texture_coord_count as int, normal_count as int, (i + 1) as nat, groups@.len());
            assert forall|j: int| 0 <= j < g.faces@.len() implies face_supported(#[trigger] g.faces@[j]@) by {
                assert(gw.faces[j] == g.faces@[j]@);
                assert(face_supported(gv[i as int].faces[j]));
            }
            assert forall|j: int, c: int| 0 <= j < g.faces@.len() && 0 <= c < g.faces@[j]@.len() implies #[trigger] g.faces@[j]@[c].position
                + nc <= usize::MAX by {
                assert(gw.faces[j] == g.faces@[j]@);
                assert(gv[i as int].faces[j][c].position + end.1 <= usize::MAX);
            }
        }
        let material = group_material(g);
        let built = IndexedMesh::from_group(g.name.clone(), &material, &g.faces, texture_names, tc, nc);
        let ghost prev = meshes@;
        match built {
            None => {
                proof {
                    assert(gw.faces.len() == 0);
                }
            },
            Some(gm) => {
                proof {
                    let views = g.faces@.map_values(|f: Vec<FaceVertex>| f@);
                    assert(views == gw.faces);
                    assert(material_name(gw) == material@);
                    let expect = group_mesh_view(gw, names, tc as int, nc as int);
                    assert(gm.mesh.triangles@ == expect.mesh.triangles);
                    assert(gm.added_texture_coord == lacks_texture(gw)) by {
                        if gm.added_texture_coord {
                            let j = choose|j: int| 0 <= j < g.faces@.len() && !face_has_texture(#[trigger] g.faces@[j]@);
                            assert(gw.faces[j] == g.faces@[j]@);
                        }
                        if lacks_texture(gw) {
                            let j = choose|j: int| 0 <= j < gw.faces.len() && !face_has_texture(#[trigger] gw.faces[j]);
                            assert(gw.faces[j] == g.faces@[j]@);
                        }
                    }
                    assert(gm.generated_normals == lacks_normals(gw)) by {
                        if gm.generated_normals {
                            let j = choose|j: int| 0 <= j < g.faces@.len() && !face_has_normals(#[trigger] g.faces@[j]@);
                            assert(gw.faces[j] == g.faces@[j]@);
                        }
                        if lacks_normals(gw) {
                            let j = choose|j: int| 0 <= j < gw.faces.len() && !face_has_normals(#[trigger] gw.faces[j]);
                            assert(gw.faces[j] == g.faces@[j]@);
                        }
                    }
                    assert(gm@ == expect);
                }
                if gm.added_texture_coord {
                    tc = tc + 1;
                }
                if gm.generated_normals {
                    nc = nc + position_count;
                }
                meshes.push(gm);
                proof {
                    assert(meshes@.map_values(|m: GroupMesh| m@) == prev.map_values(|m: GroupMesh| m@).push(gm@));
                }
            },
        }
        i = i + 1;
    }
    ObjectMeshes { meshes, texture_coord_count: tc, normal_count: nc }
}


fn face_lacks(face: &Vec<FaceVertex>) -> (r: (bool, bool))
    ensures
        r.0 == !face_has_texture(face@),
        r.1 == !face_has_normals(face@),
{
    let mut lt = false;
    let mut ln = false;
    let mut c: usize = 0;
    while c < face.len()
        invariant
            c <= face@.len(),
            lt == exists|k: int| 0 <= k < c && (#[trigger] face@[k]).texture is None,
            ln == exists|k: int| 0 <= k < c && (#[trigger] face@[k]).normal is None,
        decreases face@.len() - c,
    {
        if face[c].texture.is_none() {
            lt = true;
        }
        if face[c].normal.is_none() {
            ln = true;
        }
        c = c + 1;
    }
    (lt, ln)
}

fn group_lacks(g: &ObjGroup) -> (r: (bool, bool))
    ensures
        r.0 == lacks_texture(g@),
        r.1 == lacks_normals(g@),
{
    let mut lt = false;
    let mut ln = false;
    let mut j: usize = 0;
    while j < g.faces.len()
        invariant
            j <= g.faces@.len(),
            lt == exists|k: int| 0 <= k < j && !face_has_texture(#[trigger] g@.faces[k]),
            ln == exists|k: int| 0 <= k < j && !face_has_normals(#[trigger] g@.faces[k]),
        decreases g.faces@.len() - j,
    {
        let (ft, fnl) = face_lacks(&g.faces[j]);
        proof {
            assert(g@.faces[j as int] == g.faces@[j as int]@);
        }
        lt = lt || ft;
        ln = ln || fnl;
        j = j + 1;
    }
    (lt, ln)
}

/// Whether every face of the group has 3 or 4 corners and every position
/// plus `n` fits in a `usize`.
fn group_faces_fit(g: &ObjGroup, n: usize) -> (b: bool)
    ensures
        b == ((forall|j: int| 0 <= j < g@.faces.len() ==> face_supported(#[trigger] g@.faces[j])) && (forall|
            j: int,
            c: int,
        |
            0 <= j < g@.faces.len() && 0 <= c < g@.faces[j].len() ==> #[trigger] g@.faces[j][c].position + n
                <= usize::MAX)),
{
    let mut j: usize = 0;
    while j < g.faces.len()
        invariant
            j <= g.faces@.len(),
            forall|k: int| 0 <= k < j ==> face_supported(#[trigger] g@.faces[k]),
            forall|k: int, c: int|
                0 <= k < j && 0 <= c < g@.faces[k].len() ==> #[trigger] g@.faces[k][c].position + n <= usize::MAX,
        decreases g.faces@.len() - j,
    {
        let face = &g.faces[j];
        proof {
            assert(g@.faces[j as int] == face@);
        }
        if face.len() < 3 || face.len() > 4 {
            return false;
        }
        let mut c: usize = 0;
        while c < face.len()
            invariant
                c <= face@.len(),
                j < g.faces@.len(),
                g@.faces.len() == g.faces@.len(),
                g@.faces[j as int] == face@,
                forall|d: int| 0 <= d < c ==> #[trigger] face@[d].position + n <= usize::MAX,
            decreases face@.len() - c,
        {
            if face[c].position > usize::MAX - n {
                assert(g@.faces[j as int][c as int].position + n > usize::MAX);
                return false;
            }
            c = c + 1;
        }
        j = j + 1;
    }
    true
}

/// Whether `meshes_from_groups` can build the meshes of these groups.
pub fn can_build_meshes(
    groups: &Vec<ObjGroup>,
    position_count: usize,
    texture_coord_count: usize,
    normal_count: usize,
) -> (b: bool)
    ensures
        b == meshes_fit(group_views(groups@), position_count as int, texture_coord_count as int, normal_count as int),
{
    let ghost gv = group_views(groups@);
    let ghost pc = position_count as int;
    let ghost tc0 = texture_coord_count as int;
    let ghost nc0 = normal_count as int;
    let mut t = texture_coord_count;
    let mut n = normal_count;
    let mut i: usize = 0;
    while i < groups.len()
        invariant
            i <= groups@.len(),
            gv == group_views(groups@),
            pc == position_count,
            tc0 == texture_coord_count,
            nc0 == normal_count,
            (t as int, n as int) == counts_after(gv, pc, tc0, nc0, i as nat),
        decreases groups@.len() - i,
    {
        let g = &groups[i];
        proof {
            assert(gv[i as int] == g@);
            lemma_counts_grow(gv, pc, tc0, nc0, (i + 1) as nat, groups@.len());
        }
        if g.faces.len() > 0 {
            let (lt, ln) = group_lacks(g);
            if lt {
                if t == usize::MAX {
                    return false;
                }
                t = t + 1;
            }
            if ln {
                if n > usize::MAX - position_count {
                    return false;
                }
                n = n + position_count;
            }
        }
        i = i + 1;
    }
    let mut i: usize = 0;
    while i < groups.len()
        invariant
            i <= groups@.len(),
            gv == group_views(groups@),
            pc == position_count,
            tc0 == texture_coord_count,
            nc0 == normal_count,
            (t as int, n as int) == counts_after(gv, pc, tc0, nc0, groups@.len()),
            forall|a: int, j: int|
                0 <= a < i && 0 <= j < gv[a].faces.len() ==> face_supported(#[trigger] gv[a].faces[j]),
            forall|a: int, j: int, c: int|
                0 <= a < i && 0 <= j < gv[a].faces.len() && 0 <= c < gv[a].faces[j].len()
                    ==> #[trigger] gv[a].faces[j][c].position + n <= usize::MAX,
        decreases groups@.len() - i,
    {
        proof {
            assert(gv[i as int] == groups@[i as int]@);
        }
        if !group_faces_fit(&groups[i], n) {
            proof {
                let g = gv[i as int];
                assert(g == groups@[i as int]@);
                if meshes_fit(gv, pc, tc0, nc0) {
                    assert forall|j: int| 0 <= j < g.faces.len() implies face_supported(#[trigger] g.faces[j]) by {
                        assert(face_supported(gv[i as int].faces[j]));
                    }
                    assert forall|j: int, c: int| 0 <= j < g.faces.len() && 0 <= c < g.faces[j].len() implies #[trigger] g.faces[j][c].position
                        + n <= usize::MAX by {
                        assert(gv[i as int].faces[j][c].position + n <= usize::MAX);
                    }
                }
            }
            return false;
        }
        i = i + 1;
    }
    true
}

/// Every index of the meshes built from an object's groups refers to an
/// existing entry, when the faces' own indices do: positions lie below the
/// object's position count, texture coordinates and normals below the counts
/// reached once the meshes are built, and textures among the texture names.
pub proof fn law_mesh_indices_in_range(groups: Seq<GroupView>, names: Seq<Seq<char>>, pc: int, tc: int, nc: int)
    requires
        names.len() > 0,
        0 <= pc,
        0 <= tc,
        0 <= nc,
        meshes_fit(groups, pc, tc, nc),
        forall|i: int, j: int, c: int|
            0 <= i < groups.len() && 0 <= j < groups[i].faces.len() && 0 <= c < groups[i].faces[j].len()
                ==> corner_within(#[trigger] groups[i].faces[j][c], pc, tc, nc),
    ensures
        ({
            let (t, n) = counts_after(groups, pc, tc, nc, groups.len());
            let ms = meshes_after(groups, names, pc, tc, nc, groups.len());
            forall|m: int|
                0 <= m < ms.len() ==> {
                    &&& (#[trigger] ms[m]).mesh.texture_idx matches Some(x) && x < names.len()
                    &&& forall|k: int|
                        0 <= k < ms[m].mesh.triangles.len() ==> triangle_within(
                            #[trigger] ms[m].mesh.triangles[k],
                            pc,
                            t,
                            n,
                        )
                }
        }),
{
    lemma_meshes_within(groups, names, pc, tc, nc, groups.len());
}

proof fn lemma_meshes_within(groups: Seq<GroupView>, names: Seq<Seq<char>>, pc: int, tc: int, nc: int, k: nat)
    requires
        k <= groups.len(),
        names.len() > 0,
        0 <= pc,
        0 <= tc,
        0 <= nc,
        meshes_fit(groups, pc, tc, nc),
        forall|i: int, j: int, c: int|
            0 <= i < groups.len() && 0 <= j < groups[i].faces.len() && 0 <= c < groups[i].faces[j].len()
                ==> corner_within(#[trigger] groups[i].faces[j][c], pc, tc, nc),
    ensures
        ({
            let (t, n) = counts_after(groups, pc, tc, nc, groups.len());
            let ms = meshes_after(groups, names, pc, tc, nc, k);
            forall|m: int|
                0 <= m < ms.len() ==> {
                    &&& (#[trigger] ms[m]).mesh.texture_idx matches Some(x) && x < names.len()
                    &&& forall|q: int|
                        0 <= q < ms[m].mesh.triangles.len() ==> triangle_within(
                            #[trigger] ms[m].mesh.triangles[q],
                            pc,
                            t,
                            n,
                        )
                }
        }),
    decreases k,
{
    if k > 0 {
        lemma_meshes_within(groups, names, pc, tc, nc, (k - 1) as nat);
        let g = groups[k - 1];
        if g.faces.len() > 0 {
            let (t_end, n_end) = counts_after(groups, pc, tc, nc, groups.len());
            let (t, n) = counts_after(groups, pc, tc, nc, (k - 1) as nat);
            lemma_counts_grow(groups, pc, tc, nc, 0, (k - 1) as nat);
            lemma_counts_grow(groups, pc, tc, nc, k, groups.len());
            let gi = k - 1;
            assert forall|i: int| 0 <= i < g.faces.len() implies face_supported(#[trigger] g.faces[i]) by {
                assert(face_supported(groups[gi].faces[i]));
            }
            assert forall|i: int, j: int| 0 <= i < g.faces.len() && 0 <= j < g.faces[i].len() implies corner_within(
                #[trigger] g.faces[i][j],
                pc,
                tc,
                nc,
            ) by {
                assert(corner_within(groups[gi].faces[i][j], pc, tc, nc));
            }
            lemma_group_triangles_within(g.faces, pc, tc, nc);
            lemma_texture_index_in_range(names, material_name(g));
            let gm = group_mesh_view(g, names, t, n);
            let tris = group_triangles(g.faces);
            assert forall|q: int| 0 <= q < gm.mesh.triangles.len() implies triangle_within(
                #[trigger] gm.mesh.triangles[q],
                pc,
                t_end,
                n_end,
            ) by {
                let tri = tris[q];
                assert(group_triangle_within(tri, pc, tc, nc));
                if tri.1 is None {
                    assert(lacks_texture(g));
                }
                if tri.2 is None {
                    assert(lacks_normals(g));
                }
            }
            let prev = meshes_after(groups, names, pc, tc, nc, (k - 1) as nat);
            let ms = meshes_after(groups, names, pc, tc, nc, k);
            assert(ms == prev.push(gm));
            assert forall|m: int| 0 <= m < ms.len() implies {
                &&& (#[trigger] ms[m]).mesh.texture_idx matches Some(x) && x < names.len()
                &&& forall|q: int|
                    0 <= q < ms[m].mesh.triangles.len() ==> triangle_within(
                        #[trigger] ms[m].mesh.triangles[q],
                        pc,
                        t_end,
                        n_end,
                    )
            } by {
                if m < prev.len() {
                    assert(ms[m] == prev[m]);
                } else {
                    assert(ms[m] == gm);
                }
            }
        }
    }
}

} // verus!
