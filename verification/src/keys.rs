use vstd::prelude::*;

verus! {

/// The keys of the keyboard that the application tells apart.
#[derive(Clone, Copy, Debug, PartialEq, Eq, Structural)]
pub enum Key {
    Tab,
    LeftArrow,
    RightArrow,
    UpArrow,
    DownArrow,
    PageUp,
    PageDown,
    Home,
    End,
    Insert,
    Delete,
    Backspace,
    Space,
    Enter,
    Escape,
    LeftCtrl,
    LeftShift,
    LeftAlt,
    LeftSuper,
    RightCtrl,
    RightShift,
    RightAlt,
    RightSuper,
    Menu,
    Num0,
    Num1,
    Num2,
    Num3,
    Num4,
    Num5,
    Num6,
    Num7,
    Num8,
    Num9,
    A,
    B,
    C,
    D,
    E,
    F,
    G,
    H,
    I,
    J,
    K,
    L,
    M,
    N,
    O,
    P,
    Q,
    R,
    S,
    T,
    U,
    V,
    W,
    X,
    Y,
    Z,
    F1,
    F2,
    F3,
    F4,
    F5,
    F6,
    F7,
    F8,
    F9,
    F10,
    F11,
    F12,
    Apostrophe,
    Comma,
    Minus,
    Period,
    Slash,
    Semicolon,
    Equal,
    LeftBracket,
    Backslash,
    RightBracket,
    GraveAccent,
    CapsLock,
    ScrollLock,
    NumLock,
    PrintScreen,
    Pause,
    Keypad0,
    Keypad1,
    Keypad2,
    Keypad3,
    Keypad4,
    Keypad5,
    Keypad6,
    Keypad7,
    Keypad8,
    Keypad9,
    KeypadDecimal,
    KeypadDivide,
    KeypadMultiply,
    KeypadSubtract,
    KeypadAdd,
    KeypadEnter,
    KeypadEqual,
    AppBack,
    AppForward,
    Unknown,
}

/// The X11 keysym (as listed in `X11/keysymdef.h` and `XF86keysym.h`) that
/// each key stands for.
pub open spec fn key_keysym(key: Key) -> Option<u32> {
    match key {
        Key::Tab => Some(0xFF09),
        Key::LeftArrow => Some(0xFF51),
        Key::RightArrow => Some(0xFF53),
        Key::UpArrow => Some(0xFF52),
        Key::DownArrow => Some(0xFF54),
        Key::PageUp => Some(0xFF55),
        Key::PageDown => Some(0xFF56),
        Key::Home => Some(0xFF50),
        Key::End => Some(0xFF57),
        Key::Insert => Some(0xFF63),
        Key::Delete => Some(0xFFFF),
        Key::Backspace => Some(0xFF08),
        Key::Space => Some(0x20),
        Key::Enter => Some(0xFF0D),
        Key::Escape => Some(0xFF1B),
        Key::LeftCtrl => Some(0xFFE3),
        Key::LeftShift => Some(0xFFE1),
        Key::LeftAlt => Some(0xFFE9),
        Key::LeftSuper => Some(0xFFEB),
        Key::RightCtrl => Some(0xFFE4),
        Key::RightShift => Some(0xFFE2),
        Key::RightAlt => Some(0xFFEA),
        Key::RightSuper => Some(0xFFEC),
        Key::Menu => Some(0xFF67),
        Key::Num0 => Some(0x30),
        Key::Num1 => Some(0x31),
        Key::Num2 => Some(0x32),
        Key::Num3 => Some(0x33),
        Key::Num4 => Some(0x34),
        Key::Num5 => Some(0x35),
        Key::Num6 => Some(0x36),
        Key::Num7 => Some(0x37),
        Key::Num8 => Some(0x38),
        Key::Num9 => Some(0x39),
        Key::A => Some(0x61),
        Key::B => Some(0x62),
        Key::C => Some(0x63),
        Key::D => Some(0x64),
        Key::E => Some(0x65),
        Key::F => Some(0x66),
        Key::G => Some(0x67),
        Key::H => Some(0x68),
        Key::I => Some(0x69),
        Key::J => Some(0x6A),
        Key::K => Some(0x6B),
        Key::L => Some(0x6C),
        Key::M => Some(0x6D),
        Key::N => Some(0x6E),
        Key::O => Some(0x6F),
        Key::P => Some(0x70),
        Key::Q => Some(0x71),
        Key::R => Some(0x72),
        Key::S => Some(0x73),
        Key::T => Some(0x74),
        Key::U => Some(0x75),
        Key::V => Some(0x76),
        Key::W => Some(0x77),
        Key::X => Some(0x78),
        Key::Y => Some(0x79),
        Key::Z => Some(0x7A),
        Key::F1 => Some(0xFFBE),
        Key::F2 => Some(0xFFBF),
        Key::F3 => Some(0xFFC0),
        Key::F4 => Some(0xFFC1),
        Key::F5 => Some(0xFFC2),
        Key::F6 => Some(0xFFC3),
        Key::F7 => Some(0xFFC4),
        Key::F8 => Some(0xFFC5),
        Key::F9 => Some(0xFFC6),
        Key::F10 => Some(0xFFC7),
        Key::F11 => Some(0xFFC8),
        Key::F12 => Some(0xFFC9),
        Key::Apostrophe => Some(0x27),
        Key::Comma => Some(0x2C),
        Key::Minus => Some(0x2D),
        Key::Period => Some(0x2E),
        Key::Slash => Some(0x2F),
        Key::Semicolon => Some(0x3B),
        Key::Equal => Some(0x3D),
        Key::LeftBracket => Some(0x5B),
        Key::Backslash => Some(0x5C),
        Key::RightBracket => Some(0x5D),
        Key::GraveAccent => Some(0x60),
        Key::CapsLock => Some(0xFFE5),
        Key::ScrollLock => Some(0xFF14),
        Key::NumLock => Some(0xFF7F),
        Key::PrintScreen => Some(0xFF61),
        Key::Pause => Some(0xFF13),
        Key::Keypad0 => Some(0xFFB0),
        Key::Keypad1 => Some(0xFFB1),
        Key::Keypad2 => Some(0xFFB2),
        Key::Keypad3 => Some(0xFFB3),
        Key::Keypad4 => Some(0xFFB4),
        Key::Keypad5 => Some(0xFFB5),
        Key::Keypad6 => Some(0xFFB6),
        Key::Keypad7 => Some(0xFFB7),
        Key::Keypad8 => Some(0xFFB8),
        Key::Keypad9 => Some(0xFFB9),
        Key::KeypadDecimal => Some(0xFFAE),
        Key::KeypadDivide => Some(0xFFAF),
        Key::KeypadMultiply => Some(0xFFAA),
        Key::KeypadSubtract => Some(0xFFAD),
        Key::KeypadAdd => Some(0xFFAB),
        Key::KeypadEnter => Some(0xFF8D),
        Key::KeypadEqual => Some(0xFFBD),
        Key::AppBack => Some(0x1008FF26),
        Key::AppForward => Some(0x1008FF27),
        Key::Unknown => None,
    }
}

/// What a key stands for, independently of any code it is given: a
/// direction on the screen for the arrow keys (`y` up), the character it
/// types (letters in lower case), the number of a function key, the digit of
/// a keypad digit, the kind (0 Shift, 1 Control, 2 Alt, 3 Super) and side
/// (`true` for right) of a modifier, and otherwise its name.
pub enum KeyMeaning {
    Arrow(int, int),
    Char(char),
    Function(int),
    KeypadDigit(int),
    Modifier(int, bool),
    Named(Seq<char>),
}

/// What each key stands for.
pub open spec fn key_meaning(key: Key) -> KeyMeaning {
    match key {
        Key::Tab => KeyMeaning::Named("Tab"@),
        Key::LeftArrow => KeyMeaning::Arrow(-1, 0),
        Key::RightArrow => KeyMeaning::Arrow(1, 0),
        Key::UpArrow => KeyMeaning::Arrow(0, 1),
        Key::DownArrow => KeyMeaning::Arrow(0, -1),
        Key::PageUp => KeyMeaning::Named("PageUp"@),
        Key::PageDown => KeyMeaning::Named("PageDown"@),
        Key::Home => KeyMeaning::Named("Home"@),
        Key::End => KeyMeaning::Named("End"@),
        Key::Insert => KeyMeaning::Named("Insert"@),
        Key::Delete => KeyMeaning::Named("Delete"@),
        Key::Backspace => KeyMeaning::Named("Backspace"@),
        Key::Space => KeyMeaning::Char(' '),
        Key::Enter => KeyMeaning::Named("Enter"@),
        Key::Escape => KeyMeaning::Named("Escape"@),
        Key::LeftCtrl => KeyMeaning::Modifier(1, false),
        Key::LeftShift => KeyMeaning::Modifier(0, false),
        Key::LeftAlt => KeyMeaning::Modifier(2, false),
        Key::LeftSuper => KeyMeaning::Modifier(3, false),
        Key::RightCtrl => KeyMeaning::Modifier(1, true),
        Key::RightShift => KeyMeaning::Modifier(0, true),
        Key::RightAlt => KeyMeaning::Modifier(2, true),
        Key::RightSuper => KeyMeaning::Modifier(3, true),
        Key::Menu => KeyMeaning::Named("Menu"@),
        Key::Num0 => KeyMeaning::Char('0'),
        Key::Num1 => KeyMeaning::Char('1'),
        Key::Num2 => KeyMeaning::Char('2'),
        Key::Num3 => KeyMeaning::Char('3'),
        Key::Num4 => KeyMeaning::Char('4'),
        Key::Num5 => KeyMeaning::Char('5'),
        Key::Num6 => KeyMeaning::Char('6'),
        Key::Num7 => KeyMeaning::Char('7'),
        Key::Num8 => KeyMeaning::Char('8'),
        Key::Num9 => KeyMeaning::Char('9'),
        Key::A => KeyMeaning::Char('a'),
        Key::B => KeyMeaning::Char('b'),
        Key::C => KeyMeaning::Char('c'),
        Key::D => KeyMeaning::Char('d'),
        Key::E => KeyMeaning::Char('e'),
        Key::F => KeyMeaning::Char('f'),
        Key::G => KeyMeaning::Char('g'),
        Key::H => KeyMeaning::Char('h'),
        Key::I => KeyMeaning::Char('i'),
        Key::J => KeyMeaning::Char('j'),
        Key::K => KeyMeaning::Char('k'),
        Key::L => KeyMeaning::Char('l'),
        Key::M => KeyMeaning::Char('m'),
        Key::N => KeyMeaning::Char('n'),
        Key::O => KeyMeaning::Char('o'),
        Key::P => KeyMeaning::Char('p'),
        Key::Q => KeyMeaning::Char('q'),
        Key::R => KeyMeaning::Char('r'),
        Key::S => KeyMeaning::Char('s'),
        Key::T => KeyMeaning::Char('t'),
        Key::U => KeyMeaning::Char('u'),
        Key::V => KeyMeaning::Char('v'),
        Key::W => KeyMeaning::Char('w'),
        Key::X => KeyMeaning::Char('x'),
        Key::Y => KeyMeaning::Char('y'),
        Key::Z => KeyMeaning::Char('z'),
        Key::F1 => KeyMeaning::Function(1),
        Key::F2 => KeyMeaning::Function(2),
        Key::F3 => KeyMeaning::Function(3),
        Key::F4 => KeyMeaning::Function(4),
        Key::F5 => KeyMeaning::Function(5),
        Key::F6 => KeyMeaning::Function(6),
        Key::F7 => KeyMeaning::Function(7),
        Key::F8 => KeyMeaning::Function(8),
        Key::F9 => KeyMeaning::Function(9),
        Key::F10 => KeyMeaning::Function(10),
        Key::F11 => KeyMeaning::Function(11),
        Key::F12 => KeyMeaning::Function(12),
        Key::Apostrophe => KeyMeaning::Char('\''),
        Key::Comma => KeyMeaning::Char(','),
        Key::Minus => KeyMeaning::Char('-'),
        Key::Period => KeyMeaning::Char('.'),
        Key::Slash => KeyMeaning::Char('/'),
        Key::Semicolon => KeyMeaning::Char(';'),
        Key::Equal => KeyMeaning::Char('='),
        Key::LeftBracket => KeyMeaning::Char('['),
        Key::Backslash => KeyMeaning::Char('\\'),
        Key::RightBracket => KeyMeaning::Char(']'),
        Key::GraveAccent => KeyMeaning::Char('`'),
        Key::CapsLock => KeyMeaning::Named("CapsLock"@),
        Key::ScrollLock => KeyMeaning::Named("ScrollLock"@),
        Key::NumLock => KeyMeaning::Named("NumLock"@),
        Key::PrintScreen => KeyMeaning::Named("PrintScreen"@),
        Key::Pause => KeyMeaning::Named("Pause"@),
        Key::Keypad0 => KeyMeaning::KeypadDigit(0),
        Key::Keypad1 => KeyMeaning::KeypadDigit(1),
        Key::Keypad2 => KeyMeaning::KeypadDigit(2),
        Key::Keypad3 => KeyMeaning::KeypadDigit(3),
        Key::Keypad4 => KeyMeaning::KeypadDigit(4),
        Key::Keypad5 => KeyMeaning::KeypadDigit(5),
        Key::Keypad6 => KeyMeaning::KeypadDigit(6),
        Key::Keypad7 => KeyMeaning::KeypadDigit(7),
        Key::Keypad8 => KeyMeaning::KeypadDigit(8),
        Key::Keypad9 => KeyMeaning::KeypadDigit(9),
        Key::KeypadDecimal => KeyMeaning::Named("KeypadDecimal"@),
        Key::KeypadDivide => KeyMeaning::Named("KeypadDivide"@),
        Key::KeypadMultiply => KeyMeaning::Named("KeypadMultiply"@),
        Key::KeypadSubtract => KeyMeaning::Named("KeypadSubtract"@),
        Key::KeypadAdd => KeyMeaning::Named("KeypadAdd"@),
        Key::KeypadEnter => KeyMeaning::Named("KeypadEnter"@),
        Key::KeypadEqual => KeyMeaning::Named("KeypadEqual"@),
        Key::AppBack => KeyMeaning::Named("AppBack"@),
        Key::AppForward => KeyMeaning::Named("AppForward"@),
        Key::Unknown => KeyMeaning::Named("Unknown"@),
    }
}

/// Quarter turns clockwise from left to the direction, in the order in which
/// X11 numbers its arrow keysyms: left, up, right, down.
pub open spec fn quarter_turns_from_left(dx: int, dy: int) -> int {
    if dx < 0 {
        0
    } else if dy > 0 {
        1
    } else if dx > 0 {
        2
    } else {
        3
    }
}

/// First keysym of each kind of modifier in `X11/keysymdef.h`; the right-hand
/// key follows the left-hand one.
pub open spec fn modifier_keysym_base(kind: int) -> int {
    if kind == 0 {
        0xFFE1
    } else if kind == 1 {
        0xFFE3
    } else if kind == 2 {
        0xFFE9
    } else {
        0xFFEB
    }
}

/// The keysym `X11/keysymdef.h` gives a key of this meaning, where it follows
/// from the meaning: the arrows are numbered from `XK_Left` (0xFF51) by
/// quarter turns, a character's keysym is its Latin-1 code, the function
/// keys are numbered from `XK_F1` (0xFFBE), the keypad digits from `XK_KP_0`
/// (0xFFB0), and the modifiers from the left-hand key of their kind.
pub open spec fn meaning_keysym(m: KeyMeaning) -> Option<int> {
    match m {
        KeyMeaning::Arrow(dx, dy) => Some(0xFF51 + quarter_turns_from_left(dx, dy)),
        KeyMeaning::Char(c) => Some(c as int),
        KeyMeaning::Function(n) => Some(0xFFBE + n - 1),
        KeyMeaning::KeypadDigit(d) => Some(0xFFB0 + d),
        KeyMeaning::Modifier(kind, right) => Some(modifier_keysym_base(kind) + if right {
            1int
        } else {
            0int
        }),
        KeyMeaning::Named(_) => None,
    }
}

/// The keysym of every arrow, character, function, keypad-digit and modifier
/// key is the one its meaning gives it in `X11/keysymdef.h`.
pub proof fn law_keysyms_follow_meaning(key: Key)
    ensures
        meaning_keysym(key_meaning(key)) matches Some(s) ==> key_keysym(key) == Some(s as u32),
{
}

/// Whether `key` is what `Key::from_keysym` gives for `keysym`.
pub open spec fn decodes(keysym: u32, key: Key) -> bool {
    &&& key != Key::Unknown ==> key_keysym(key) == Some(keysym)
    &&& key == Key::Unknown ==> forall|k: Key| key_keysym(k) != Some(keysym)
    &&& forall|k: Key| key_keysym(k) == Some(keysym) ==> key == k
}

/// Decoding the keysym that a meaning has in `X11/keysymdef.h` gives the key
/// of that meaning: `XK_Right` the right arrow, `XK_a` the A key, and so on.
pub proof fn law_decoding_follows_meaning(keysym: u32, decoded: Key, key: Key)
    requires
        decodes(keysym, decoded),
        meaning_keysym(key_meaning(key)) == Some(keysym as int),
    ensures
        decoded == key,
{
    law_keysyms_follow_meaning(key);
}

impl Key {
    /// The key of an X11 keysym; keysyms of no key give `Key::Unknown`.
    pub fn from_keysym(keysym: u32) -> (key: Key)
        ensures
            key != Key::Unknown ==> key_keysym(key) == Some(keysym),
            key == Key::Unknown ==> forall|k: Key| key_keysym(k) != Some(keysym),
            forall|k: Key| key_keysym(k) == Some(keysym) ==> key == k,
            decodes(keysym, key),
    {
        match keysym {
            0xFF09 => Key::Tab,
            0xFF51 => Key::LeftArrow,
            0xFF53 => Key::RightArrow,
            0xFF52 => Key::UpArrow,
            0xFF54 => Key::DownArrow,
            0xFF55 => Key::PageUp,
            0xFF56 => Key::PageDown,
            0xFF50 => Key::Home,
            0xFF57 => Key::End,
            0xFF63 => Key::Insert,
            0xFFFF => Key::Delete,
            0xFF08 => Key::Backspace,
            0x20 => Key::Space,
            0xFF0D => Key::Enter,
            0xFF1B => Key::Escape,
            0xFFE3 => Key::LeftCtrl,
            0xFFE1 => Key::LeftShift,
            0xFFE9 => Key::LeftAlt,
            0xFFEB => Key::LeftSuper,
            0xFFE4 => Key::RightCtrl,
            0xFFE2 => Key::RightShift,
            0xFFEA => Key::RightAlt,
            0xFFEC => Key::RightSuper,
            0xFF67 => Key::Menu,
            0x30 => Key::Num0,
            0x31 => Key::Num1,
            0x32 => Key::Num2,
            0x33 => Key::Num3,
            0x34 => Key::Num4,
            0x35 => Key::Num5,
            0x36 => Key::Num6,
            0x37 => Key::Num7,
            0x38 => Key::Num8,
            0x39 => Key::Num9,
            0x61 => Key::A,
            0x62 => Key::B,
            0x63 => Key::C,
            0x64 => Key::D,
            0x65 => Key::E,
            0x66 => Key::F,
            0x67 => Key::G,
            0x68 => Key::H,
            0x69 => Key::I,
            0x6A => Key::J,
            0x6B => Key::K,
            0x6C => Key::L,
            0x6D => Key::M,
            0x6E => Key::N,
            0x6F => Key::O,
            0x70 => Key::P,
            0x71 => Key::Q,
            0x72 => Key::R,
            0x73 => Key::S,
            0x74 => Key::T,
            0x75 => Key::U,
            0x76 => Key::V,
            0x77 => Key::W,
            0x78 => Key::X,
            0x79 => Key::Y,
            0x7A => Key::Z,
            0xFFBE => Key::F1,
            0xFFBF => Key::F2,
            0xFFC0 => Key::F3,
            0xFFC1 => Key::F4,
            0xFFC2 => Key::F5,
            0xFFC3 => Key::F6,
            0xFFC4 => Key::F7,
            0xFFC5 => Key::F8,
            0xFFC6 => Key::F9,
            0xFFC7 => Key::F10,
            0xFFC8 => Key::F11,
            0xFFC9 => Key::F12,
            0x27 => Key::Apostrophe,
            0x2C => Key::Comma,
            0x2D => Key::Minus,
            0x2E => Key::Period,
            0x2F => Key::Slash,
            0x3B => Key::Semicolon,
            0x3D => Key::Equal,
            0x5B => Key::LeftBracket,
            0x5C => Key::Backslash,
            0x5D => Key::RightBracket,
            0x60 => Key::GraveAccent,
            0xFFE5 => Key::CapsLock,
            0xFF14 => Key::ScrollLock,
            0xFF7F => Key::NumLock,
            0xFF61 => Key::PrintScreen,
            0xFF13 => Key::Pause,
            0xFFB0 => Key::Keypad0,
            0xFFB1 => Key::Keypad1,
            0xFFB2 => Key::Keypad2,
            0xFFB3 => Key::Keypad3,
            0xFFB4 => Key::Keypad4,
            0xFFB5 => Key::Keypad5,
            0xFFB6 => Key::Keypad6,
            0xFFB7 => Key::Keypad7,
            0xFFB8 => Key::Keypad8,
            0xFFB9 => Key::Keypad9,
            0xFFAE => Key::KeypadDecimal,
            0xFFAF => Key::KeypadDivide,
            0xFFAA => Key::KeypadMultiply,
            0xFFAD => Key::KeypadSubtract,
            0xFFAB => Key::KeypadAdd,
            0xFF8D => Key::KeypadEnter,
            0xFFBD => Key::KeypadEqual,
            0x1008FF26 => Key::AppBack,
            0x1008FF27 => Key::AppForward,
            _ => Key::Unknown,
        }
    }
}

} // verus!
