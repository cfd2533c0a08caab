use vstd::prelude::*;

verus! {

/// Indices of the three corners of a triangle in a list of vertices.
pub type IndexedTriangle = [usize; 3];

/// A triangle of a mesh: indices of its positions, texture coordinates and
/// normals.
pub type MeshTriangle = (IndexedTriangle, IndexedTriangle, IndexedTriangle);

/// A triangle read from a face, whose texture coordinates and normals may be
/// missing.
pub type GroupTriangle = (IndexedTriangle, Option<IndexedTriangle>, Option<IndexedTriangle>);

/// One corner of a polygonal face of a Wavefront OBJ model: the index of its
/// position and, when given, of its texture coordinate and of its normal.
#[derive(Clone, Copy, Debug, PartialEq, Eq, Structural)]
pub struct FaceVertex {
    pub position: usize,
    pub texture: Option<usize>,
    pub normal: Option<usize>,
}

/// A group of triangles drawn with one texture.
pub struct IndexedMesh {
    pub name: String,
    pub triangles: Vec<MeshTriangle>,
    pub texture_idx: Option<usize>,
}

/// The contents of a mesh.
pub struct MeshView {
    pub name: Seq<char>,
    pub triangles: Seq<MeshTriangle>,
    pub texture_idx: Option<usize>,
}

impl View for IndexedMesh {
    type V = MeshView;

    open spec fn view(&self) -> MeshView {
        MeshView { name: self.name@, triangles: self.triangles@, texture_idx: self.texture_idx }
    }
}

/// Summary of a mesh for display.
pub struct MeshInfo {
    pub name: String,
    pub triangle_count: u32,
    pub texture_name: Option<String>,
}

/// Summary of a loaded object for display.
pub struct ObjectInfo {
    pub id: u32,
    pub name: String,
    pub mesh_info_list: Vec<MeshInfo>,
}

/// A mesh built from a group of faces, with what the caller still has to add
/// to the object's coordinate lists for the indices of the mesh to be valid.
pub struct GroupMesh {
    pub mesh: IndexedMesh,
    /// One zero texture coordinate was referenced at the index given to
    /// `from_group` and must be appended to the texture coordinates.
    pub added_texture_coord: bool,
    /// Normals were referenced at the given normal count plus the position
    /// index, and one normal per position must be appended to the normals.
    pub generated_normals: bool,
}

/// The contents of a mesh built from a group, with its two flags.
pub struct GroupMeshView {
    pub mesh: MeshView,
    pub added_texture_coord: bool,
    pub generated_normals: bool,
}

impl View for GroupMesh {
    type V = GroupMeshView;

    open spec fn view(&self) -> GroupMeshView {
        GroupMeshView {
            mesh: self.mesh@,
            added_texture_coord: self.added_texture_coord,
            generated_normals: self.generated_normals,
        }
    }
}

/// Whether every corner of the face has a texture coordinate.
pub open spec fn face_has_texture(face: Seq<FaceVertex>) -> bool {
    forall|i: int| 0 <= i < face.len() ==> (#[trigger] face[i]).texture is Some
}

/// Whether every corner of the face has a normal.
pub open spec fn face_has_normals(face: Seq<FaceVertex>) -> bool {
    forall|i: int| 0 <= i < face.len() ==> (#[trigger] face[i]).normal is Some
}

/// The triangle with corners `i`, `j`, `k` of the face.
pub open spec fn face_corner_triangle(face: Seq<FaceVertex>, i: int, j: int, k: int) -> GroupTriangle {
    (
        [face[i].position, face[j].position, face[k].position],
        if face_has_texture(face) {
            Some([face[i].texture->0, face[j].texture->0, face[k].texture->0])
        } else {
            None
        },
        if face_has_normals(face) {
            Some([face[i].normal->0, face[j].normal->0, face[k].normal->0])
        } else {
            None
        },
    )
}

/// A triangle is split into itself and a quadrilateral `a b c d` into the
/// triangles `a b c` and `c d a`.
pub open spec fn face_triangles(face: Seq<FaceVertex>) -> Seq<GroupTriangle> {
    if face.len() == 4 {
        seq![face_corner_triangle(face, 0, 1, 2), face_corner_triangle(face, 2, 3, 0)]
    } else {
        seq![face_corner_triangle(face, 0, 1, 2)]
    }
}

/// The triangles of all faces, in order.
pub open spec fn group_triangles(faces: Seq<Seq<FaceVertex>>) -> Seq<GroupTriangle>
    decreases faces.len(),
{
    if faces.len() == 0 {
        Seq::empty()
    } else {
        group_triangles(faces.drop_last()) + face_triangles(faces.last())
    }
}

/// The number of quadrilaterals among the faces.
pub open spec fn quad_count(faces: Seq<Seq<FaceVertex>>) -> nat
    decreases faces.len(),
{
    if faces.len() == 0 {
        0
    } else {
        quad_count(faces.drop_last()) + if faces.last().len() == 4 {
            1nat
        } else {
            0nat
        }
    }
}

/// Every face gives one triangle, and every quadrilateral one more.
pub proof fn law_triangle_count(faces: Seq<Seq<FaceVertex>>)
    ensures
        group_triangles(faces).len() == faces.len() + quad_count(faces),
    decreases faces.len(),
{
    if faces.len() > 0 {
        law_triangle_count(faces.drop_last());
    }
}

/// Whether a face has 3 or 4 corners.
pub open spec fn face_supported(face: Seq<FaceVertex>) -> bool {
    3 <= face.len() <= 4
}

/// Index of the first texture with the given name, or 0 when none has it.
pub open spec fn texture_index_of(names: Seq<Seq<char>>, name: Seq<char>) -> usize {
    if exists|i: int| 0 <= i < names.len() && names[i] == name {
        (choose|i: int| 0 <= i < names.len() && names[i] == name && forall|j: int| 0 <= j < i ==> names[j] != name) as usize
    } else {
        0
    }
}

/// The mesh triangle of a face triangle, with `texture` in place of missing
/// texture coordinates and `normal_base` plus the position indices in place
/// of missing normals.
pub open spec fn complete_triangle(t: GroupTriangle, texture: usize, normal_base: int) -> MeshTriangle {
    (
        t.0,
        match t.1 {
            Some(uv) => uv,
            None => [texture, texture, texture],
        },
        match t.2 {
            Some(n) => n,
            None => [
                (t.0[0] + normal_base) as usize,
                (t.0[1] + normal_base) as usize,
                (t.0[2] + normal_base) as usize,
            ],
        },
    )
}

/// Splits one face into triangles.
pub fn triangulate_face(face: &Vec<FaceVertex>) -> (tris: Vec<GroupTriangle>)
    requires
        face_supported(face@),
    ensures
        tris@ == face_triangles(face@),
{
    let mut has_texture = true;
    let mut has_normals = true;
    let mut i: usize = 0;
    while i < face.len()
        invariant
            i <= face@.len(),
            has_texture == forall|j: int| 0 <= j < i ==> (#[trigger] face@[j]).texture is Some,
            has_normals == forall|j: int| 0 <= j < i ==> (#[trigger] face@[j]).normal is Some,
        decreases face@.len() - i,
    {
        if face[i].texture.is_none() {
            has_texture = false;
        }
        if face[i].normal.is_none() {
            has_normals = false;
        }
        i = i + 1;
    }
    let mut tris: Vec<GroupTriangle> = Vec::new();
    tris.push(corner_triangle(face, 0, 1, 2, has_texture, has_normals));
    if face.len() == 4 {
        tris.push(corner_triangle(face, 2, 3, 0, has_texture, has_normals));
    }
    tris
}

fn corner_triangle(face: &Vec<FaceVertex>, i: usize, j: usize, k: usize, has_texture: bool, has_normals: bool) -> (t: GroupTriangle)
    requires
        i < face@.len(),
        j < face@.len(),
        k < face@.len(),
        has_texture == face_has_texture(face@),
        has_normals == face_has_normals(face@),
    ensures
        t == face_corner_triangle(face@, i as int, j as int, k as int),
{
    let a = face[i];
    let b = face[j];
    let c = face[k];
    let uv = if has_texture {
        assert(face@[i as int].texture is Some && face@[j as int].texture is Some && face@[k as int].texture is Some);
        Some([a.texture.unwrap(), b.texture.unwrap(), c.texture.unwrap()])
    } else {
        None
    };
    let nrm = if has_normals {
        assert(face@[i as int].normal is Some && face@[j as int].normal is Some && face@[k as int].normal is Some);
        Some([a.normal.unwrap(), b.normal.unwrap(), c.normal.unwrap()])
    } else {
        None
    };
    ([a.position, b.position, c.position], uv, nrm)
}

/// Splits every face of a group into triangles, and says whether some face
/// lacks texture coordinates and whether some face lacks normals.
pub fn group_triangles_of(faces: &Vec<Vec<FaceVertex>>) -> (res: (Vec<GroupTriangle>, bool, bool))
    requires
        forall|i: int| 0 <= i < faces@.len() ==> face_supported(#[trigger] faces@[i]@),
    ensures
        res.0@ == group_triangles(faces@.map_values(|f: Vec<FaceVertex>| f@)),
        res.1 == exists|i: int| 0 <= i < faces@.len() && !face_has_texture(#[trigger] faces@[i]@),
        res.2 == exists|i: int| 0 <= i < faces@.len() && !face_has_normals(#[trigger] faces@[i]@),
{
    let ghost views = faces@.map_values(|f: Vec<FaceVertex>| f@);
    let mut tris: Vec<GroupTriangle> = Vec::new();
    let mut missing_texture = false;
    let mut missing_normals = false;
    let mut i: usize = 0;
    while i < faces.len()
        invariant
            i <= faces@.len(),
            views == faces@.map_values(|f: Vec<FaceVertex>| f@),
            forall|j: int| 0 <= j < faces@.len() ==> face_supported(#[trigger] faces@[j]@),
            tris@ == group_triangles(views.take(i as int)),
            missing_texture == exists|j: int| 0 <= j < i && !face_has_texture(#[trigger] faces@[j]@),
            missing_normals == exists|j: int| 0 <= j < i && !face_has_normals(#[trigger] faces@[j]@),
        decreases faces@.len() - i,
    {
        let mut face_tris = triangulate_face(&faces[i]);
        let first = face_tris[0];
        if first.1.is_none() {
            missing_texture = true;
        }
        if first.2.is_none() {
            missing_normals = true;
        }
        proof {
            assert(views.take(i + 1).drop_last() == views.take(i as int));
            assert(views.take(i + 1).last() == faces@[i as int]@);
            assert(first.1 is None <==> !face_has_texture(faces@[i as int]@));
            assert(first.2 is None <==> !face_has_normals(faces@[i as int]@));
        }
        tris.append(&mut face_tris);
        i = i + 1;
    }
    proof {
        assert(views.take(faces@.len() as int) == views);
    }
    (tris, missing_texture, missing_normals)
}

/// Index of the first name equal to `name`, or 0 when there is none.
pub fn texture_index_for(names: &Vec<String>, name: &String) -> (idx: usize)
    ensures
        idx == texture_index_of(names@.map_values(|s: String| s@), name@),
{
    let ghost views = names@.map_values(|s: String| s@);
    let mut i: usize = 0;
    while i < names.len()
        invariant
            i <= names@.len(),
            views == names@.map_values(|s: String| s@),
            forall|j: int| 0 <= j < i ==> views[j] != name@,
        decreases names@.len() - i,
    {
        if names[i] == *name {
            proof {
                assert(views[i as int] == name@);
                let c = choose|c: int| 0 <= c < views.len() && views[c] == name@ && forall|j: int| 0 <= j < c ==> views[j] != name@;
                assert(c == i) by {
                    if c < i {
                        assert(views[c] != name@);
                    }
                    if c > i {
                        assert(views[i as int] != name@);
                    }
                }
            }
            return i;
        }
        i = i + 1;
    }
    0
}

/// The triangles of a group with the missing texture coordinates and normals
/// filled in.
pub fn complete_triangles(tris: &Vec<GroupTriangle>, texture: usize, normal_base: usize) -> (out: Vec<MeshTriangle>)
    requires
        forall|i: int|
            0 <= i < tris@.len() ==> #[trigger] tris@[i].0[0] + normal_base <= usize::MAX && tris@[i].0[1]
                + normal_base <= usize::MAX && tris@[i].0[2] + normal_base <= usize::MAX,
    ensures
        out@.len() == tris@.len(),
        forall|i: int|
            0 <= i < tris@.len() ==> #[trigger] out@[i] == complete_triangle(tris@[i], texture, normal_base as int),
{
    let mut out: Vec<MeshTriangle> = Vec::new();
    let mut i: usize = 0;
    while i < tris.len()
        invariant
            i <= tris@.len(),
            out@.len() == i,
            forall|j: int|
                0 <= j < tris@.len() ==> #[trigger] tris@[j].0[0] + normal_base <= usize::MAX && tris@[j].0[1]
                    + normal_base <= usize::MAX && tris@[j].0[2] + normal_base <= usize::MAX,
            forall|j: int|
                0 <= j < i ==> #[trigger] out@[j] == complete_triangle(tris@[j], texture, normal_base as int),
        decreases tris@.len() - i,
    {
        let t = tris[i];
        assert(t.0[0] + normal_base <= usize::MAX && t.0[1] + normal_base <= usize::MAX && t.0[2] + normal_base <= usize::MAX);
        let uv = match t.1 {
            Some(uv) => uv,
            None => [texture, texture, texture],
        };
        let nrm = match t.2 {
            Some(n) => n,
            None => [t.0[0] + normal_base, t.0[1] + normal_base, t.0[2] + normal_base],
        };
        out.push((t.0, uv, nrm));
        i = i + 1;
    }
    out
}

impl IndexedMesh {
    /// Builds the mesh of a group of faces named `name` and drawn with the
    /// material `material`.  `texture_names` are the names of the object's
    /// textures, `texture_coord_count` and `normal_count` the numbers of
    /// texture coordinates and normals the object has so far.  A group
    /// without faces gives no mesh.
    pub fn from_group(
        name: String,
        material: &String,
        faces: &Vec<Vec<FaceVertex>>,
        texture_names: &Vec<String>,
        texture_coord_count: usize,
        normal_count: usize,
    ) -> (res: Option<GroupMesh>)
        requires
            forall|i: int| 0 <= i < faces@.len() ==> face_supported(#[trigger] faces@[i]@),
            forall|i: int, j: int|
                0 <= i < faces@.len() && 0 <= j < faces@[i]@.len() ==> #[trigger] faces@[i]@[j].position
                    + normal_count <= usize::MAX,
        ensures
            faces@.len() == 0 ==> res is None,
            faces@.len() > 0 ==> res is Some && {
                let g = res->0;
                let views = faces@.map_values(|f: Vec<FaceVertex>| f@);
                let tris = group_triangles(views);
                &&& g.added_texture_coord == exists|i: int|
                    0 <= i < faces@.len() && !face_has_texture(#[trigger] faces@[i]@)
                &&& g.generated_normals == exists|i: int|
                    0 <= i < faces@.len() && !face_has_normals(#[trigger] faces@[i]@)
                &&& g.mesh.name@ == name@
                &&& g.mesh.texture_idx == Some(
                    texture_index_of(texture_names@.map_values(|s: String| s@), material@),
                )
                &&& g.mesh.triangles@.len() == tris.len()
                &&& forall|i: int|
                    0 <= i < tris.len() ==> #[trigger] g.mesh.triangles@[i] == complete_triangle(
                        tris[i],
                        texture_coord_count,
                        normal_count as int,
                    )
            },
    {
        if faces.len() == 0 {
            return None;
        }
        let (tris, missing_texture, missing_normals) = group_triangles_of(faces);
        let texture_idx = texture_index_for(texture_names, material);
        proof {
            let views = faces@.map_values(|f: Vec<FaceVertex>| f@);
            lemma_group_triangles_positions(views, normal_count as int);
            assert forall|i: int| 0 <= i < tris@.len() implies #[trigger] tris@[i].0[0] + normal_count <= usize::MAX
                && tris@[i].0[1] + normal_count <= usize::MAX && tris@[i].0[2] + normal_count <= usize::MAX by {
                assert(group_triangles(views)[i].0[0] + normal_count <= usize::MAX);
            }
        }
        let triangles = complete_triangles(&tris, texture_coord_count, normal_count);
        Some(
            GroupMesh {
                mesh: IndexedMesh { name, triangles, texture_idx: Some(texture_idx) },
                added_texture_coord: missing_texture,
                generated_normals: missing_normals,
            },
        )
    }

    /// A copy of this mesh.
    pub fn duplicate(&self) -> (m: IndexedMesh)
        ensures
            m@ == self@,
    {
        let mut triangles: Vec<MeshTriangle> = Vec::new();
        let mut i: usize = 0;
        while i < self.triangles.len()
            invariant
                i <= self.triangles@.len(),
                triangles@ == self.triangles@.take(i as int),
            decreases self.triangles@.len() - i,
        {
            triangles.push(self.triangles[i]);
            proof {
                assert(self.triangles@.take(i + 1) == self.triangles@.take(i as int).push(self.triangles@[i as int]));
            }
            i = i + 1;
        }
        proof {
            assert(self.triangles@.take(self.triangles@.len() as int) == self.triangles@);
        }
        IndexedMesh { name: self.name.clone(), triangles, texture_idx: self.texture_idx }
    }

    /// The three entries of `list` that the triangle indexes.
    pub fn vec3_list_from_indexed<T: Copy>(indexed_tri: IndexedTriangle, list: &Vec<T>) -> (r: [T; 3])
        requires
            indexed_tri[0] < list@.len(),
            indexed_tri[1] < list@.len(),
            indexed_tri[2] < list@.len(),
        ensures
            r@ == seq![list@[indexed_tri[0] as int], list@[indexed_tri[1] as int], list@[indexed_tri[2] as int]],
    {
        [list[indexed_tri[0]], list[indexed_tri[1]], list[indexed_tri[2]]]
    }
}

/// Every position index of the group's triangles is the position index of a
/// corner of one of its faces.
/// Whether the corner indexes into lists of `p` positions, `tc` texture
/// coordinates and `nc` normals.
pub open spec fn corner_within(v: FaceVertex, p: int, tc: int, nc: int) -> bool {
    &&& v.position < p
    &&& (v.texture matches Some(t) ==> t < tc)
    &&& (v.normal matches Some(n) ==> n < nc)
}

/// Whether the triangle read from a face indexes into lists of `p`
/// positions, `tc` texture coordinates and `nc` normals.
pub open spec fn group_triangle_within(t: GroupTriangle, p: int, tc: int, nc: int) -> bool {
    &&& t.0[0] < p && t.0[1] < p && t.0[2] < p
    &&& (t.1 matches Some(uv) ==> uv[0] < tc && uv[1] < tc && uv[2] < tc)
    &&& (t.2 matches Some(n) ==> n[0] < nc && n[1] < nc && n[2] < nc)
}

/// Whether the mesh triangle indexes into lists of `p` positions, `tc`
/// texture coordinates and `nc` normals.
pub open spec fn triangle_within(t: MeshTriangle, p: int, tc: int, nc: int) -> bool {
    &&& t.0[0] < p && t.0[1] < p && t.0[2] < p
    &&& t.1[0] < tc && t.1[1] < tc && t.1[2] < tc
    &&& t.2[0] < nc && t.2[1] < nc && t.2[2] < nc
}

proof fn lemma_face_triangles_within(face: Seq<FaceVertex>, p: int, tc: int, nc: int)
    requires
        face_supported(face),
        forall|j: int| 0 <= j < face.len() ==> corner_within(#[trigger] face[j], p, tc, nc),
    ensures
        forall|t: int|
            0 <= t < face_triangles(face).len() ==> {
                &&& group_triangle_within(#[trigger] face_triangles(face)[t], p, tc, nc)
                &&& face_triangles(face)[t].1 is None ==> !face_has_texture(face)
                &&& face_triangles(face)[t].2 is None ==> !face_has_normals(face)
            },
{
    assert(corner_within(face[0], p, tc, nc));
    assert(corner_within(face[1], p, tc, nc));
    assert(corner_within(face[2], p, tc, nc));
    if face.len() == 4 {
        assert(corner_within(face[3], p, tc, nc));
    }
    if face_has_texture(face) {
        assert(face[0].texture is Some && face[1].texture is Some && face[2].texture is Some);
        if face.len() == 4 {
            assert(face[3].texture is Some);
        }
    }
    if face_has_normals(face) {
        assert(face[0].normal is Some && face[1].normal is Some && face[2].normal is Some);
        if face.len() == 4 {
            assert(face[3].normal is Some);
        }
    }
}

/// The triangles of faces whose corners index into lists of the given
/// lengths index into them too, and a triangle lacks texture coordinates or
/// normals only where some face does.
pub proof fn lemma_group_triangles_within(faces: Seq<Seq<FaceVertex>>, p: int, tc: int, nc: int)
    requires
        forall|i: int| 0 <= i < faces.len() ==> face_supported(#[trigger] faces[i]),
        forall|i: int, j: int|
            0 <= i < faces.len() && 0 <= j < faces[i].len() ==> corner_within(#[trigger] faces[i][j], p, tc, nc),
    ensures
        forall|t: int|
            0 <= t < group_triangles(faces).len() ==> {
                &&& group_triangle_within(#[trigger] group_triangles(faces)[t], p, tc, nc)
                &&& group_triangles(faces)[t].1 is None ==> exists|i: int|
                    0 <= i < faces.len() && !face_has_texture(#[trigger] faces[i])
                &&& group_triangles(faces)[t].2 is None ==> exists|i: int|
                    0 <= i < faces.len() && !face_has_normals(#[trigger] faces[i])
            },
    decreases faces.len(),
{
    if faces.len() > 0 {
        let init = faces.drop_last();
        assert forall|i: int| 0 <= i < init.len() implies face_supported(#[trigger] init[i]) by {
            assert(init[i] == faces[i]);
        }
        assert forall|i: int, j: int| 0 <= i < init.len() && 0 <= j < init[i].len() implies corner_within(
            #[trigger] init[i][j],
            p,
            tc,
            nc,
        ) by {
            assert(init[i] == faces[i]);
        }
        lemma_group_triangles_within(init, p, tc, nc);
        let last = faces.last();
        let li = faces.len() - 1;
        assert(last == faces[li]);
        assert(face_supported(faces[li]));
        assert forall|j: int| 0 <= j < last.len() implies corner_within(#[trigger] last[j], p, tc, nc) by {
            assert(corner_within(faces[li][j], p, tc, nc));
        }
        lemma_face_triangles_within(last, p, tc, nc);
        let g = group_triangles(faces);
        let gi = group_triangles(init);
        let ft = face_triangles(last);
        assert(g == gi + ft);
        assert forall|t: int| 0 <= t < g.len() implies {
            &&& group_triangle_within(#[trigger] g[t], p, tc, nc)
            &&& g[t].1 is None ==> exists|i: int| 0 <= i < faces.len() && !face_has_texture(#[trigger] faces[i])
            &&& g[t].2 is None ==> exists|i: int| 0 <= i < faces.len() && !face_has_normals(#[trigger] faces[i])
        } by {
            if t < gi.len() {
                assert(g[t] == gi[t]);
                if g[t].1 is None {
                    let i = choose|i: int| 0 <= i < init.len() && !face_has_texture(#[trigger] init[i]);
                    assert(init[i] == faces[i]);
                }
                if g[t].2 is None {
                    let i = choose|i: int| 0 <= i < init.len() && !face_has_normals(#[trigger] init[i]);
                    assert(init[i] == faces[i]);
                }
            } else {
                assert(g[t] == ft[t - gi.len()]);
                if g[t].1 is None {
                    assert(!face_has_texture(faces[li]));
                }
                if g[t].2 is None {
                    assert(!face_has_normals(faces[li]));
                }
            }
        }
    }
}

/// Two names that are equal at some index have a first such index.
proof fn lemma_first_index(names: Seq<Seq<char>>, name: Seq<char>, i: int)
    requires
        0 <= i < names.len(),
        names[i] == name,
    ensures
        exists|c: int| 0 <= c < names.len() && names[c] == name && forall|j: int| 0 <= j < c ==> names[j] != name,
    decreases i,
{
    if exists|j: int| 0 <= j < i && names[j] == name {
        let j = choose|j: int| 0 <= j < i && names[j] == name;
        lemma_first_index(names, name, j);
    } else {
        assert(forall|j: int| 0 <= j < i ==> names[j] != name);
    }
}

/// The texture index of a name lies among the names, when there are any.
pub proof fn lemma_texture_index_in_range(names: Seq<Seq<char>>, name: Seq<char>)
    requires
        names.len() > 0,
    ensures
        texture_index_of(names, name) < names.len(),
{
    if exists|i: int| 0 <= i < names.len() && names[i] == name {
        let i = choose|i: int| 0 <= i < names.len() && names[i] == name;
        lemma_first_index(names, name, i);
    }
}

proof fn lemma_group_triangles_positions(faces: Seq<Seq<FaceVertex>>, bound: int)
    requires
        forall|i: int| 0 <= i < faces.len() ==> face_supported(#[trigger] faces[i]),
        forall|i: int, j: int|
            0 <= i < faces.len() && 0 <= j < faces[i].len() ==> #[trigger] faces[i][j].position + bound
                <= usize::MAX,
    ensures
        forall|t: int|
            0 <= t < group_triangles(faces).len() ==> #[trigger] group_triangles(faces)[t].0[0] + bound <= usize::MAX
                && group_triangles(faces)[t].0[1] + bound <= usize::MAX && group_triangles(faces)[t].0[2] + bound
                <= usize::MAX,
    decreases faces.len(),
{
    if faces.len() > 0 {
        let init = faces.drop_last();
        assert forall|i: int| 0 <= i < init.len() implies face_supported(#[trigger] init[i]) by {
            assert(init[i] == faces[i]);
        }
        assert forall|i: int, j: int| 0 <= i < init.len() && 0 <= j < init[i].len() implies #[trigger] init[i][j].position
            + bound <= usize::MAX by {
            assert(init[i] == faces[i]);
        }
        lemma_group_triangles_positions(init, bound);
        let last = faces.last();
        assert(last == faces[faces.len() - 1]);
        assert(last[0].position + bound <= usize::MAX);
        assert(last[1].position + bound <= usize::MAX);
        assert(last[2].position + bound <= usize::MAX);
        if last.len() == 4 {
            assert(last[3].position + bound <= usize::MAX);
        }
        let g = group_triangles(faces);
        let gi = group_triangles(init);
        let ft = face_triangles(last);
        assert(g == gi + ft);
        assert forall|t: int| 0 <= t < g.len() implies #[trigger] g[t].0[0] + bound <= usize::MAX
            && g[t].0[1] + bound <= usize::MAX && g[t].0[2] + bound <= usize::MAX by {
            if t < gi.len() {
                assert(g[t] == gi[t]);
            } else {
                assert(g[t] == ft[t - gi.len()]);
            }
        }
    }
}

/// The meshes, in order, whose texture is transparent (`want` true) or
/// opaque (`want` false).
pub open spec fn meshes_by_transparency(ms: Seq<MeshView>, transparent: Seq<bool>, want: bool) -> Seq<MeshView>
    decreases ms.len(),
{
    if ms.len() == 0 {
        Seq::empty()
    } else {
        let rest = meshes_by_transparency(ms.drop_last(), transparent, want);
        if transparent[ms.last().texture_idx->0 as int] == want {
            rest.push(ms.last())
        } else {
            rest
        }
    }
}

/// Splitting by transparency loses and duplicates no mesh: the two lists
/// together are as long as the list that was split.
pub proof fn law_split_partitions(ms: Seq<MeshView>, transparent: Seq<bool>)
    ensures
        meshes_by_transparency(ms, transparent, false).len() + meshes_by_transparency(ms, transparent, true).len()
            == ms.len(),
    decreases ms.len(),
{
    if ms.len() > 0 {
        law_split_partitions(ms.drop_last(), transparent);
    }
}

/// The contents of a list of meshes.
pub open spec fn mesh_views(ms: Seq<IndexedMesh>) -> Seq<MeshView> {
    ms.map_values(|m: IndexedMesh| m@)
}

/// Whether `info` summarises `m`, whose texture names are `names`.
pub open spec fn summarises(info: MeshInfo, m: MeshView, names: Seq<String>) -> bool {
    &&& info.name@ == m.name
    &&& info.triangle_count == m.triangles.len() as u32
    &&& match m.texture_idx {
        Some(t) => info.texture_name is Some && (info.texture_name->0)@ == names[t as int]@,
        None => info.texture_name is None,
    }
}

/// Splits the meshes of an object into those drawn with an opaque texture and
/// those drawn with a transparent one, keeping their order; `transparent`
/// says of each texture of the object whether it is transparent.
pub fn split_by_transparency(meshes: &Vec<IndexedMesh>, transparent: &Vec<bool>) -> (res: (
    Vec<IndexedMesh>,
    Vec<IndexedMesh>,
))
    requires
        forall|i: int|
            0 <= i < meshes@.len() ==> (#[trigger] meshes@[i]).texture_idx is Some && meshes@[i].texture_idx->0
                < transparent@.len(),
    ensures
        mesh_views(res.0@) == meshes_by_transparency(mesh_views(meshes@), transparent@, false),
        mesh_views(res.1@) == meshes_by_transparency(mesh_views(meshes@), transparent@, true),
{
    let ghost all = mesh_views(meshes@);
    let mut opaque: Vec<IndexedMesh> = Vec::new();
    let mut transp: Vec<IndexedMesh> = Vec::new();
    let mut i: usize = 0;
    while i < meshes.len()
        invariant
            i <= meshes@.len(),
            all == mesh_views(meshes@),
            forall|j: int|
                0 <= j < meshes@.len() ==> (#[trigger] meshes@[j]).texture_idx is Some && meshes@[j].texture_idx->0
                    < transparent@.len(),
            mesh_views(opaque@) == meshes_by_transparency(all.take(i as int), transparent@, false),
            mesh_views(transp@) == meshes_by_transparency(all.take(i as int), transparent@, true),
        decreases meshes@.len() - i,
    {
        let m = &meshes[i];
        let t = m.texture_idx.unwrap();
        let copy = m.duplicate();
        proof {
            assert(all.take(i + 1).drop_last() == all.take(i as int));
            assert(all.take(i + 1).last() == meshes@[i as int]@);
        }
        if transparent[t] {
            transp.push(copy);
            proof {
                assert(mesh_views(transp@) == mesh_views(transp@.drop_last()).push(copy@));
            }
        } else {
            opaque.push(copy);
            proof {
                assert(mesh_views(opaque@) == mesh_views(opaque@.drop_last()).push(copy@));
            }
        }
        i = i + 1;
    }
    proof {
        assert(all.take(meshes@.len() as int) == all);
    }
    (opaque, transp)
}

/// The summary of one mesh.
pub fn mesh_info(m: &IndexedMesh, texture_names: &Vec<String>) -> (info: MeshInfo)
    requires
        m.texture_idx is Some ==> m.texture_idx->0 < texture_names@.len(),
    ensures
        summarises(info, m@, texture_names@),
{
    let texture_name = match m.texture_idx {
        Some(t) => Some(texture_names[t].clone()),
        None => None,
    };
    MeshInfo { name: m.name.clone(), triangle_count: m.triangles.len() as u32, texture_name }
}

/// The summaries of the opaque meshes followed by those of the transparent
/// meshes of an object whose textures are named `texture_names`.
pub fn mesh_info_list(
    opaque: &Vec<IndexedMesh>,
    transparent: &Vec<IndexedMesh>,
    texture_names: &Vec<String>,
) -> (infos: Vec<MeshInfo>)
    requires
        forall|i: int|
            0 <= i < opaque@.len() ==> (#[trigger] opaque@[i]).texture_idx is Some ==> opaque@[i].texture_idx->0
                < texture_names@.len(),
        forall|i: int|
            0 <= i < transparent@.len() ==> (#[trigger] transparent@[i]).texture_idx is Some
                ==> transparent@[i].texture_idx->0 < texture_names@.len(),
    ensures
        infos@.len() == opaque@.len() + transparent@.len(),
        forall|i: int| 0 <= i < opaque@.len() ==> summarises(#[trigger] infos@[i], opaque@[i]@, texture_names@),
        forall|i: int|
            0 <= i < transparent@.len() ==> summarises(
                #[trigger] infos@[opaque@.len() + i],
                transparent@[i]@,
                texture_names@,
            ),
{
    let mut infos: Vec<MeshInfo> = Vec::new();
    let mut i: usize = 0;
    while i < opaque.len()
        invariant
            i <= opaque@.len(),
            infos@.len() == i,
            forall|j: int|
                0 <= j < opaque@.len() ==> (#[trigger] opaque@[j]).texture_idx is Some ==> opaque@[j].texture_idx->0
                    < texture_names@.len(),
            forall|j: int| 0 <= j < i ==> summarises(#[trigger] infos@[j], opaque@[j]@, texture_names@),
        decreases opaque@.len() - i,
    {
        infos.push(mesh_info(&opaque[i], texture_names));
        i = i + 1;
    }
    let mut k: usize = 0;
    while k < transparent.len()
        invariant
            k <= transparent@.len(),
            infos@.len() == opaque@.len() + k,
            forall|j: int|
                0 <= j < transparent@.len() ==> (#[trigger] transparent@[j]).texture_idx is Some
                    ==> transparent@[j].texture_idx->0 < texture_names@.len(),
            forall|j: int| 0 <= j < opaque@.len() ==> summarises(#[trigger] infos@[j], opaque@[j]@, texture_names@),
            forall|j: int|
                0 <= j < k ==> summarises(#[trigger] infos@[opaque@.len() + j], transparent@[j]@, texture_names@),
        decreases transparent@.len() - k,
    {
        infos.push(mesh_info(&transparent[k], texture_names));
        k = k + 1;
    }
    infos
}

} // verus!
