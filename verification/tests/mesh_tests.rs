use draw::mesh::{
    complete_triangles, group_triangles_of, mesh_info, mesh_info_list, split_by_transparency,
    texture_index_for, triangulate_face, FaceVertex, IndexedMesh,
};

fn fv(p: usize, t: Option<usize>, n: Option<usize>) -> FaceVertex {
    FaceVertex { position: p, texture: t, normal: n }
}

fn mesh(name: &str, tris: Vec<([usize; 3], [usize; 3], [usize; 3])>, tex: Option<usize>) -> IndexedMesh {
    IndexedMesh { name: name.to_string(), triangles: tris, texture_idx: tex }
}

#[test]
fn triangle_face_stays_a_triangle() {
    let face = vec![fv(0, Some(10), Some(20)), fv(1, Some(11), Some(21)), fv(2, Some(12), Some(22))];
    let tris = triangulate_face(&face);
    assert_eq!(tris, vec![([0, 1, 2], Some([10, 11, 12]), Some([20, 21, 22]))]);
}

#[test]
fn quad_face_splits_in_two() {
    let face = vec![fv(0, Some(4), None), fv(1, Some(5), None), fv(2, Some(6), None), fv(3, Some(7), None)];
    let tris = triangulate_face(&face);
    assert_eq!(tris, vec![([0, 1, 2], Some([4, 5, 6]), None), ([2, 3, 0], Some([6, 7, 4]), None)]);
}

#[test]
fn one_missing_texture_drops_the_face_texture() {
    let face = vec![fv(0, Some(4), Some(1)), fv(1, None, Some(1)), fv(2, Some(6), Some(1))];
    let tris = triangulate_face(&face);
    assert_eq!(tris, vec![([0, 1, 2], None, Some([1, 1, 1]))]);
}

#[test]
fn group_triangles_in_face_order() {
    let faces = vec![
        vec![fv(0, Some(0), Some(0)), fv(1, Some(1), Some(1)), fv(2, Some(2), Some(2))],
        vec![fv(3, None, Some(3)), fv(4, None, Some(4)), fv(5, None, Some(5)), fv(6, None, Some(6))],
    ];
    let (tris, missing_tex, missing_norm) = group_triangles_of(&faces);
    assert_eq!(tris.len(), 3);
    assert_eq!(tris[0], ([0, 1, 2], Some([0, 1, 2]), Some([0, 1, 2])));
    assert_eq!(tris[1], ([3, 4, 5], None, Some([3, 4, 5])));
    assert_eq!(tris[2], ([5, 6, 3], None, Some([5, 6, 3])));
    assert!(missing_tex);
    assert!(!missing_norm);
}

#[test]
fn texture_index_first_match_or_zero() {
    let names = vec!["wood".to_string(), "glass".to_string(), "glass".to_string()];
    assert_eq!(texture_index_for(&names, &"glass".to_string()), 1);
    assert_eq!(texture_index_for(&names, &"wood".to_string()), 0);
    assert_eq!(texture_index_for(&names, &"stone".to_string()), 0);
    assert_eq!(texture_index_for(&vec![], &"stone".to_string()), 0);
}

#[test]
fn missing_coordinates_are_filled_in() {
    let tris = vec![([1, 2, 3], None, None), ([4, 5, 6], Some([7, 8, 9]), Some([0, 1, 2]))];
    let out = complete_triangles(&tris, 42, 100);
    assert_eq!(out, vec![([1, 2, 3], [42, 42, 42], [101, 102, 103]), ([4, 5, 6], [7, 8, 9], [0, 1, 2])]);
}

#[test]
fn mesh_from_group() {
    let faces = vec![vec![fv(0, None, None), fv(1, None, None), fv(2, None, None)]];
    let names = vec!["a".to_string(), "b".to_string()];
    let g = IndexedMesh::from_group("grp".to_string(), &"b".to_string(), &faces, &names, 5, 9).unwrap();
    assert_eq!(g.mesh.name, "grp");
    assert_eq!(g.mesh.texture_idx, Some(1));
    assert_eq!(g.mesh.triangles, vec![([0, 1, 2], [5, 5, 5], [9, 10, 11])]);
    assert!(g.added_texture_coord);
    assert!(g.generated_normals);
}

#[test]
fn empty_group_gives_no_mesh() {
    let faces: Vec<Vec<FaceVertex>> = vec![];
    let names = vec!["a".to_string()];
    assert!(IndexedMesh::from_group("g".to_string(), &"a".to_string(), &faces, &names, 0, 0).is_none());
}

#[test]
fn duplicate_copies_everything() {
    let m = mesh("m", vec![([0, 1, 2], [3, 4, 5], [6, 7, 8])], Some(2));
    let d = m.duplicate();
    assert_eq!(d.name, m.name);
    assert_eq!(d.triangles, m.triangles);
    assert_eq!(d.texture_idx, m.texture_idx);
}

#[test]
fn indexed_entries() {
    let list = vec![10, 20, 30, 40];
    assert_eq!(IndexedMesh::vec3_list_from_indexed([3, 0, 2], &list), [40, 10, 30]);
}

#[test]
fn split_keeps_order() {
    let meshes = vec![
        mesh("a", vec![], Some(0)),
        mesh("b", vec![], Some(1)),
        mesh("c", vec![], Some(0)),
        mesh("d", vec![], Some(1)),
    ];
    let transparent = vec![false, true];
    let (opaque, transp) = split_by_transparency(&meshes, &transparent);
    let on: Vec<_> = opaque.iter().map(|m| m.name.clone()).collect();
    let tn: Vec<_> = transp.iter().map(|m| m.name.clone()).collect();
    assert_eq!(on, vec!["a", "c"]);
    assert_eq!(tn, vec!["b", "d"]);
}

#[test]
fn mesh_summaries() {
    let names = vec!["wood".to_string(), "glass".to_string()];
    let m = mesh("table", vec![([0, 1, 2], [0, 0, 0], [0, 0, 0]); 3], Some(0));
    let info = mesh_info(&m, &names);
    assert_eq!(info.name, "table");
    assert_eq!(info.triangle_count, 3);
    assert_eq!(info.texture_name, Some("wood".to_string()));
    let bare = mesh("bare", vec![], None);
    assert_eq!(mesh_info(&bare, &names).texture_name, None);

    let opaque = vec![m];
    let transp = vec![mesh("window", vec![([0, 1, 2], [0, 0, 0], [0, 0, 0])], Some(1))];
    let infos = mesh_info_list(&opaque, &transp, &names);
    assert_eq!(infos.len(), 2);
    assert_eq!(infos[0].name, "table");
    assert_eq!(infos[1].name, "window");
    assert_eq!(infos[1].texture_name, Some("glass".to_string()));
    assert_eq!(infos[1].triangle_count, 1);
}
