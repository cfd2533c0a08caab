use draw::mesh::FaceVertex;
use draw::mesh::IndexedMesh;
use draw::objfile::{
    can_build_meshes, group_material, meshes_from_groups, obj_text_sliceable, parse_obj, ObjGroup, ObjLoadError,
};

fn fv(p: usize, t: Option<usize>, n: Option<usize>) -> FaceVertex {
    FaceVertex { position: p, texture: t, normal: n }
}

const QUAD: &str = "\
mtllib scene.mtl
v 0 0 0
v 1 0 0
v 1 1 0
v 0 1 0
vt 0 0
vt 1 0
vt 1 1
vn 0 0 1
g floor
usemtl stone
f 1/1/1 2/2/1 3/3/1 4/1/1
g roof
f 1 2 3
";

#[test]
fn parse_obj_reads_groups_materials_and_corners() {
    let model = match parse_obj(QUAD.as_bytes()) {
        Ok(m) => m,
        Err(_) => panic!("the text is valid OBJ"),
    };
    assert_eq!(model.groups.len(), 2);

    let floor = &model.groups[0];
    assert_eq!(floor.name, "floor");
    assert_eq!(floor.material, Some("stone".to_string()));
    assert_eq!(floor.faces.len(), 1);
    assert_eq!(
        floor.faces[0],
        vec![
            fv(0, Some(0), Some(0)),
            fv(1, Some(1), Some(0)),
            fv(2, Some(2), Some(0)),
            fv(3, Some(0), Some(0)),
        ]
    );

    let roof = &model.groups[1];
    assert_eq!(roof.name, "roof");
    assert_eq!(roof.material, None);
    assert_eq!(roof.faces, vec![vec![fv(0, None, None), fv(1, None, None), fv(2, None, None)]]);

    assert_eq!(model.data.position.len(), 4);
    assert_eq!(model.data.material_libs.len(), 1);
}

#[test]
fn parse_obj_faces_without_group_go_to_the_default_group() {
    let model = match parse_obj(b"v 0 0 0\nv 1 0 0\nv 0 1 0\nf 1 2 3\n") {
        Ok(m) => m,
        Err(_) => panic!("the text is valid OBJ"),
    };
    assert_eq!(model.groups.len(), 1);
    assert_eq!(model.groups[0].name, "default");
    assert_eq!(model.groups[0].faces[0].len(), 3);
}

#[test]
fn parse_obj_rejects_a_zero_vertex_number() {
    assert!(parse_obj(b"v 0 1 2\nv 3 4 5\nf 0 1 2").is_err());
}

#[test]
fn parse_obj_rejects_a_malformed_vertex() {
    assert!(parse_obj(b"v 0 one 2\n").is_err());
}

#[test]
fn parse_obj_of_empty_text_has_no_groups() {
    let model = match parse_obj(b"") {
        Ok(m) => m,
        Err(_) => panic!("empty text is valid OBJ"),
    };
    assert!(model.groups.is_empty());
}

#[test]
fn group_material_falls_back_to_default() {
    let named = ObjGroup { name: "a".to_string(), material: Some("brick".to_string()), faces: vec![] };
    let unnamed = ObjGroup { name: "b".to_string(), material: None, faces: vec![] };
    assert_eq!(group_material(&named), "brick");
    assert_eq!(group_material(&unnamed), "default");
}

#[test]
fn parse_obj_counts_positions_texture_coordinates_and_normals() {
    let model = match parse_obj(QUAD.as_bytes()) {
        Ok(m) => m,
        Err(_) => panic!("the text is valid OBJ"),
    };
    assert_eq!(model.position_count, 4);
    assert_eq!(model.texture_coord_count, 3);
    assert_eq!(model.normal_count, 1);
}

#[test]
fn parse_obj_rejects_a_group_name_cut_inside_a_character() {
    // `g`, a no-break space (two bytes), then a name.
    let text = "v 0 0 0\ng\u{a0}name\n";
    assert!(!obj_text_sliceable(text.as_bytes()));
    assert!(matches!(parse_obj(text.as_bytes()), Err(ObjLoadError::CommandCutInsideCharacter)));
}

#[test]
fn parse_obj_rejects_an_object_line_led_by_a_wide_space() {
    let text = "\u{a0}o x\n";
    assert!(!obj_text_sliceable(text.as_bytes()));
    assert!(matches!(parse_obj(text.as_bytes()), Err(ObjLoadError::CommandCutInsideCharacter)));
}

#[test]
fn non_ascii_names_after_a_plain_space_are_read() {
    let text = "g \u{e9}t\u{e9}\no \u{e9}\n# \u{a0}o\nusemtl \u{a0}x\n";
    assert!(obj_text_sliceable(text.as_bytes()));
    let model = match parse_obj(text.as_bytes()) {
        Ok(m) => m,
        Err(_) => panic!("the text is valid OBJ"),
    };
    assert_eq!(model.groups.len(), 2);
    assert_eq!(model.groups[0].name, "\u{e9}t\u{e9}");
    assert_eq!(model.groups[1].name, "default");
    assert_eq!(model.groups[1].material, Some("x".to_string()));
}

#[test]
fn parse_obj_error_of_the_parser_is_a_parse_error() {
    assert!(matches!(parse_obj(b"v 0 one 2\n"), Err(ObjLoadError::Parse(_))));
}

fn group(name: &str, material: Option<&str>, faces: Vec<Vec<FaceVertex>>) -> ObjGroup {
    ObjGroup { name: name.to_string(), material: material.map(|m| m.to_string()), faces }
}

fn tri(m: &IndexedMesh, i: usize) -> ([usize; 3], [usize; 3], [usize; 3]) {
    m.triangles[i]
}

#[test]
fn meshes_from_groups_fills_missing_coordinates_and_skips_empty_groups() {
    let names = vec!["default".to_string(), "stone".to_string()];
    let groups = vec![
        // Full corners: kept as they are.
        group("a", Some("stone"), vec![vec![fv(0, Some(0), Some(0)), fv(1, Some(1), Some(0)), fv(2, Some(1), Some(0))]]),
        // No faces: no mesh.
        group("empty", None, vec![]),
        // No texture coordinates and no normals: new ones after the
        // existing ones (2 texture coordinates, 1 normal, 3 positions).
        group("b", None, vec![vec![fv(2, None, None), fv(1, None, None), fv(0, None, None), fv(1, None, None)]]),
        // Missing normals again: the next block of generated normals.
        group("c", Some("wood"), vec![vec![fv(0, Some(1), None), fv(1, Some(1), None), fv(2, Some(0), None)]]),
    ];
    assert!(can_build_meshes(&groups, 3, 2, 1));
    let built = meshes_from_groups(&groups, &names, 3, 2, 1);
    assert_eq!(built.meshes.len(), 3);
    assert_eq!(built.texture_coord_count, 3);
    assert_eq!(built.normal_count, 7);

    let a = &built.meshes[0];
    assert_eq!(a.mesh.name, "a");
    assert_eq!(a.mesh.texture_idx, Some(1));
    assert!(!a.added_texture_coord && !a.generated_normals);
    assert_eq!(tri(&a.mesh, 0), ([0, 1, 2], [0, 1, 1], [0, 0, 0]));

    let b = &built.meshes[1];
    assert_eq!(b.mesh.name, "b");
    assert_eq!(b.mesh.texture_idx, Some(0));
    assert!(b.added_texture_coord && b.generated_normals);
    assert_eq!(b.mesh.triangles.len(), 2);
    assert_eq!(tri(&b.mesh, 0), ([2, 1, 0], [2, 2, 2], [3, 2, 1]));
    assert_eq!(tri(&b.mesh, 1), ([0, 1, 2], [2, 2, 2], [1, 2, 3]));

    let c = &built.meshes[2];
    assert_eq!(c.mesh.texture_idx, Some(0));
    assert!(!c.added_texture_coord && c.generated_normals);
    assert_eq!(tri(&c.mesh, 0), ([0, 1, 2], [1, 1, 0], [4, 5, 6]));
}

#[test]
fn can_build_meshes_refuses_faces_of_other_sizes_and_overflowing_counts() {
    let two = vec![group("g", None, vec![vec![fv(0, None, None), fv(1, None, None)]])];
    assert!(!can_build_meshes(&two, 3, 0, 0));
    let five = vec![group("g", None, vec![vec![fv(0, None, None); 5]])];
    assert!(!can_build_meshes(&five, 3, 0, 0));
    let ok = vec![group("g", None, vec![vec![fv(0, None, None); 3]])];
    assert!(can_build_meshes(&ok, 3, 0, 0));
    assert!(!can_build_meshes(&ok, 3, usize::MAX, 0));
    assert!(!can_build_meshes(&ok, usize::MAX, 0, 1));
}
