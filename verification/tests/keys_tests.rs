use draw::keys::Key;

#[test]
fn keysyms_of_common_keys() {
    assert_eq!(Key::from_keysym(0xFF09), Key::Tab);
    assert_eq!(Key::from_keysym(0xFF51), Key::LeftArrow);
    assert_eq!(Key::from_keysym(0xFF52), Key::UpArrow);
    assert_eq!(Key::from_keysym(0x20), Key::Space);
    assert_eq!(Key::from_keysym(0xFF1B), Key::Escape);
    assert_eq!(Key::from_keysym(0xFFE1), Key::LeftShift);
    assert_eq!(Key::from_keysym(0x30), Key::Num0);
    assert_eq!(Key::from_keysym(0x61), Key::A);
    assert_eq!(Key::from_keysym(0x77), Key::W);
    assert_eq!(Key::from_keysym(0xFFC2), Key::F5);
    assert_eq!(Key::from_keysym(0xFFC8), Key::F11);
    assert_eq!(Key::from_keysym(0xFF8D), Key::KeypadEnter);
    assert_eq!(Key::from_keysym(0x1008FF26), Key::AppBack);
    assert_eq!(Key::from_keysym(0x1008FF27), Key::AppForward);
}

#[test]
fn unknown_keysyms() {
    assert_eq!(Key::from_keysym(0), Key::Unknown);
    assert_eq!(Key::from_keysym(0x41), Key::Unknown);
    assert_eq!(Key::from_keysym(0xFFFFFFFF), Key::Unknown);
}
