use draw::mtlfile::{parse_mtl, texture_names};

const LIB: &str = "\
# two materials
newmtl stone
Ka 0.1 0.1 0.1
Kd 0.5 0.5 0.5
Ks 0 0 0
d 1
map_Kd stone.png

newmtl glass
Kd 0.9 0.9 1.0
d 0.3
";

#[test]
fn parse_mtl_names_the_materials_in_order() {
    let m = parse_mtl(LIB.as_bytes());
    assert!(m.error.is_none());
    assert_eq!(m.names, vec!["stone".to_string(), "glass".to_string()]);
    assert_eq!(m.lib.materials.len(), 2);
    assert_eq!(m.lib.materials[0].map_kd, Some("stone.png".to_string()));
}

#[test]
fn parse_mtl_keeps_the_materials_read_before_an_error() {
    let m = parse_mtl(b"newmtl a\nKd 1 1 1\nnewmtl b\nKd one 1 1\nnewmtl c\n");
    assert!(m.error.is_some());
    assert_eq!(m.names, vec!["a".to_string()]);
}

#[test]
fn parse_mtl_of_empty_text_has_no_materials() {
    let m = parse_mtl(b"");
    assert!(m.error.is_none());
    assert!(m.names.is_empty());
}

#[test]
fn texture_names_start_with_the_default_texture() {
    let libs = vec![parse_mtl(LIB.as_bytes()), parse_mtl(b"newmtl wood\n")];
    assert_eq!(
        texture_names(&libs),
        vec!["default".to_string(), "stone".to_string(), "glass".to_string(), "wood".to_string()]
    );
    assert_eq!(texture_names(&vec![]), vec!["default".to_string()]);
}
