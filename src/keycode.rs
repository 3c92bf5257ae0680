use vstd::prelude::*;

verus! {

/// A portable key identifier. Each key but `Unknown` stands for one kernel scan code;
/// `Unknown` covers every code that has no key of its own.
#[derive(Debug, Copy, Clone, PartialEq, Eq, Structural, Hash)]
pub enum Keycode {
    Key0,
    Key1,
    Key2,
    Key3,
    Key4,
    Key5,
    Key6,
    Key7,
    Key8,
    Key9,
    Q,
    W,
    E,
    R,
    T,
    Y,
    U,
    I,
    O,
    P,
    A,
    S,
    D,
    F,
    G,
    H,
    J,
    K,
    L,
    Z,
    X,
    C,
    V,
    B,
    N,
    M,
    Escape,
    Minus,
    Equal,
    Backspace,
    Tab,
    LeftBrace,
    RightBrace,
    Enter,
    Control,
    Semicolon,
    Apostrophe,
    Backtick,
    Shift,
    Backslash,
    Comma,
    Dot,
    Slash,
    Asterisk,
    Alt,
    Space,
    Capslock,
    F1,
    F2,
    F3,
    F4,
    F5,
    F6,
    F7,
    F8,
    F9,
    F10,
    F11,
    F12,
    KeyUp,
    KeyLeft,
    KeyRight,
    KeyDown,
    Super,
    Unknown,
}

/// The number that `Keycode::to_x11` reports for a key: its kernel scan code,
/// or 999 for `Unknown`.
pub open spec fn key_number(k: Keycode) -> int {
    match k {
        Keycode::Key0 => 11,
        Keycode::Key1 => 2,
        Keycode::Key2 => 3,
        Keycode::Key3 => 4,
        Keycode::Key4 => 5,
        Keycode::Key5 => 6,
        Keycode::Key6 => 7,
        Keycode::Key7 => 8,
        Keycode::Key8 => 9,
        Keycode::Key9 => 10,
        Keycode::Q => 16,
        Keycode::W => 17,
        Keycode::E => 18,
        Keycode::R => 19,
        Keycode::T => 20,
        Keycode::Y => 21,
        Keycode::U => 22,
        Keycode::I => 23,
        Keycode::O => 24,
        Keycode::P => 25,
        Keycode::A => 30,
        Keycode::S => 31,
        Keycode::D => 32,
        Keycode::F => 33,
        Keycode::G => 34,
        Keycode::H => 35,
        Keycode::J => 36,
        Keycode::K => 37,
        Keycode::L => 38,
        Keycode::Z => 44,
        Keycode::X => 45,
        Keycode::C => 46,
        Keycode::V => 47,
        Keycode::B => 48,
        Keycode::N => 49,
        Keycode::M => 50,
        Keycode::Escape => 1,
        Keycode::Minus => 12,
        Keycode::Equal => 13,
        Keycode::Backspace => 14,
        Keycode::Tab => 15,
        Keycode::LeftBrace => 26,
        Keycode::RightBrace => 27,
        Keycode::Enter => 28,
        Keycode::Control => 29,
        Keycode::Semicolon => 39,
        Keycode::Apostrophe => 40,
        Keycode::Backtick => 41,
        Keycode::Shift => 42,
        Keycode::Backslash => 43,
        Keycode::Comma => 51,
        Keycode::Dot => 52,
        Keycode::Slash => 53,
        Keycode::Asterisk => 55,
        Keycode::Alt => 56,
        Keycode::Space => 57,
        Keycode::Capslock => 58,
        Keycode::F1 => 59,
        Keycode::F2 => 60,
        Keycode::F3 => 61,
        Keycode::F4 => 62,
        Keycode::F5 => 63,
        Keycode::F6 => 64,
        Keycode::F7 => 65,
        Keycode::F8 => 66,
        Keycode::F9 => 67,
        Keycode::F10 => 68,
        Keycode::F11 => 69,
        Keycode::F12 => 70,
        Keycode::KeyUp => 103,
        Keycode::KeyLeft => 105,
        Keycode::KeyRight => 106,
        Keycode::KeyDown => 108,
        Keycode::Super => 125,
        Keycode::Unknown => 999,
    }
}

/// The second scan code of a key that exists twice on a keyboard (right-hand
/// Control, Shift, Alt and Super). Both sides map to the same key.
pub open spec fn alias_of(code: int) -> Option<Keycode> {
    if code == 97 {
        Some(Keycode::Control)
    } else if code == 54 {
        Some(Keycode::Shift)
    } else if code == 100 {
        Some(Keycode::Alt)
    } else if code == 126 {
        Some(Keycode::Super)
    } else {
        None
    }
}

/// The key that a scan code stands for.
pub open spec fn key_of_scan_code(code: int) -> Keycode {
    match alias_of(code) {
        Some(k) => k,
        None => {
            if code == 11 {
                Keycode::Key0
            } else if code == 2 {
                Keycode::Key1
            } else if code == 3 {
                Keycode::Key2
            } else if code == 4 {
                Keycode::Key3
            } else if code == 5 {
                Keycode::Key4
            } else if code == 6 {
                Keycode::Key5
            } else if code == 7 {
                Keycode::Key6
            } else if code == 8 {
                Keycode::Key7
            } else if code == 9 {
                Keycode::Key8
            } else if code == 10 {
                Keycode::Key9
            } else if code == 16 {
                Keycode::Q
            } else if code == 17 {
                Keycode::W
            } else if code == 18 {
                Keycode::E
            } else if code == 19 {
                Keycode::R
            } else if code == 20 {
                Keycode::T
            } else if code == 21 {
                Keycode::Y
            } else if code == 22 {
                Keycode::U
            } else if code == 23 {
                Keycode::I
            } else if code == 24 {
                Keycode::O
            } else if code == 25 {
                Keycode::P
            } else if code == 30 {
                Keycode::A
            } else if code == 31 {
                Keycode::S
            } else if code == 32 {
                Keycode::D
            } else if code == 33 {
                Keycode::F
            } else if code == 34 {
                Keycode::G
            } else if code == 35 {
                Keycode::H
            } else if code == 36 {
                Keycode::J
            } else if code == 37 {
                Keycode::K
            } else if code == 38 {
                Keycode::L
            } else if code == 44 {
                Keycode::Z
            } else if code == 45 {
                Keycode::X
            } else if code == 46 {
                Keycode::C
            } else if code == 47 {
                Keycode::V
            } else if code == 48 {
                Keycode::B
            } else if code == 49 {
                Keycode::N
            } else if code == 50 {
                Keycode::M
            } else if code == 1 {
                Keycode::Escape
            } else if code == 12 {
                Keycode::Minus
            } else if code == 13 {
                Keycode::Equal
            } else if code == 14 {
                Keycode::Backspace
            } else if code == 15 {
                Keycode::Tab
            } else if code == 26 {
                Keycode::LeftBrace
            } else if code == 27 {
                Keycode::RightBrace
            } else if code == 28 {
                Keycode::Enter
            } else if code == 29 {
                Keycode::Control
            } else if code == 39 {
                Keycode::Semicolon
            } else if code == 40 {
                Keycode::Apostrophe
            } else if code == 41 {
                Keycode::Backtick
            } else if code == 42 {
                Keycode::Shift
            } else if code == 43 {
                Keycode::Backslash
            } else if code == 51 {
                Keycode::Comma
            } else if code == 52 {
                Keycode::Dot
            } else if code == 53 {
                Keycode::Slash
            } else if code == 55 {
                Keycode::Asterisk
            } else if code == 56 {
                Keycode::Alt
            } else if code == 57 {
                Keycode::Space
            } else if code == 58 {
                Keycode::Capslock
            } else if code == 59 {
                Keycode::F1
            } else if code == 60 {
                Keycode::F2
            } else if code == 61 {
                Keycode::F3
            } else if code == 62 {
                Keycode::F4
            } else if code == 63 {
                Keycode::F5
            } else if code == 64 {
                Keycode::F6
            } else if code == 65 {
                Keycode::F7
            } else if code == 66 {
                Keycode::F8
            } else if code == 67 {
                Keycode::F9
            } else if code == 68 {
                Keycode::F10
            } else if code == 69 {
                Keycode::F11
            } else if code == 70 {
                Keycode::F12
            } else if code == 103 {
                Keycode::KeyUp
            } else if code == 105 {
                Keycode::KeyLeft
            } else if code == 106 {
                Keycode::KeyRight
            } else if code == 108 {
                Keycode::KeyDown
            } else if code == 125 {
                Keycode::Super
            } else {
                Keycode::Unknown
            }
        },
    }
}

impl Keycode {
    /// The key's number: its kernel scan code, 999 for `Unknown`.
    pub fn to_x11(&self) -> (r: u32)
        ensures
            r == key_number(*self),
    {
        match self {
            Keycode::Key0 => 11,
            Keycode::Key1 => 2,
            Keycode::Key2 => 3,
            Keycode::Key3 => 4,
            Keycode::Key4 => 5,
            Keycode::Key5 => 6,
            Keycode::Key6 => 7,
            Keycode::Key7 => 8,
            Keycode::Key8 => 9,
            Keycode::Key9 => 10,
            Keycode::Q => 16,
            Keycode::W => 17,
            Keycode::E => 18,
            Keycode::R => 19,
            Keycode::T => 20,
            Keycode::Y => 21,
            Keycode::U => 22,
            Keycode::I => 23,
            Keycode::O => 24,
            Keycode::P => 25,
            Keycode::A => 30,
            Keycode::S => 31,
            Keycode::D => 32,
            Keycode::F => 33,
            Keycode::G => 34,
            Keycode::H => 35,
            Keycode::J => 36,
            Keycode::K => 37,
            Keycode::L => 38,
            Keycode::Z => 44,
            Keycode::X => 45,
            Keycode::C => 46,
            Keycode::V => 47,
            Keycode::B => 48,
            Keycode::N => 49,
            Keycode::M => 50,
            Keycode::Escape => 1,
            Keycode::Minus => 12,
            Keycode::Equal => 13,
            Keycode::Backspace => 14,
            Keycode::Tab => 15,
            Keycode::LeftBrace => 26,
            Keycode::RightBrace => 27,
            Keycode::Enter => 28,
            Keycode::Control => 29,
            Keycode::Semicolon => 39,
            Keycode::Apostrophe => 40,
            Keycode::Backtick => 41,
            Keycode::Shift => 42,
            Keycode::Backslash => 43,
            Keycode::Comma => 51,
            Keycode::Dot => 52,
            Keycode::Slash => 53,
            Keycode::Asterisk => 55,
            Keycode::Alt => 56,
            Keycode::Space => 57,
            Keycode::Capslock => 58,
            Keycode::F1 => 59,
            Keycode::F2 => 60,
            Keycode::F3 => 61,
            Keycode::F4 => 62,
            Keycode::F5 => 63,
            Keycode::F6 => 64,
            Keycode::F7 => 65,
            Keycode::F8 => 66,
            Keycode::F9 => 67,
            Keycode::F10 => 68,
            Keycode::F11 => 69,
            Keycode::F12 => 70,
            Keycode::KeyUp => 103,
            Keycode::KeyLeft => 105,
            Keycode::KeyRight => 106,
            Keycode::KeyDown => 108,
            Keycode::Super => 125,
            Keycode::Unknown => 999,
        }
    }

    /// The key for a kernel scan code. Total: a code with no key of its own gives
    /// `Unknown`; the right-hand modifiers give the same key as the left-hand ones.
    pub fn from_scan_code(code: u8) -> (r: Keycode)
        ensures
            r == key_of_scan_code(code as int),
    {
        match code {
            1 => Keycode::Escape,
            2 => Keycode::Key1,
            3 => Keycode::Key2,
            4 => Keycode::Key3,
            5 => Keycode::Key4,
            6 => Keycode::Key5,
            7 => Keycode::Key6,
            8 => Keycode::Key7,
            9 => Keycode::Key8,
            10 => Keycode::Key9,
            11 => Keycode::Key0,
            12 => Keycode::Minus,
            13 => Keycode::Equal,
            14 => Keycode::Backspace,
            15 => Keycode::Tab,
            16 => Keycode::Q,
            17 => Keycode::W,
            18 => Keycode::E,
            19 => Keycode::R,
            20 => Keycode::T,
            21 => Keycode::Y,
            22 => Keycode::U,
            23 => Keycode::I,
            24 => Keycode::O,
            25 => Keycode::P,
            26 => Keycode::LeftBrace,
            27 => Keycode::RightBrace,
            28 => Keycode::Enter,
            29 => Keycode::Control,
            30 => Keycode::A,
            31 => Keycode::S,
            32 => Keycode::D,
            33 => Keycode::F,
            34 => Keycode::G,
            35 => Keycode::H,
            36 => Keycode::J,
            37 => Keycode::K,
            38 => Keycode::L,
            39 => Keycode::Semicolon,
            40 => Keycode::Apostrophe,
            41 => Keycode::Backtick,
            42 => Keycode::Shift,
            43 => Keycode::Backslash,
            44 => Keycode::Z,
            45 => Keycode::X,
            46 => Keycode::C,
            47 => Keycode::V,
            48 => Keycode::B,
            49 => Keycode::N,
            50 => Keycode::M,
            51 => Keycode::Comma,
            52 => Keycode::Dot,
            53 => Keycode::Slash,
            54 => Keycode::Shift,
            55 => Keycode::Asterisk,
            56 => Keycode::Alt,
            57 => Keycode::Space,
            58 => Keycode::Capslock,
            59 => Keycode::F1,
            60 => Keycode::F2,
            61 => Keycode::F3,
            62 => Keycode::F4,
            63 => Keycode::F5,
            64 => Keycode::F6,
            65 => Keycode::F7,
            66 => Keycode::F8,
            67 => Keycode::F9,
            68 => Keycode::F10,
            69 => Keycode::F11,
            70 => Keycode::F12,
            97 => Keycode::Control,
            100 => Keycode::Alt,
            103 => Keycode::KeyUp,
            105 => Keycode::KeyLeft,
            106 => Keycode::KeyRight,
            108 => Keycode::KeyDown,
            125 => Keycode::Super,
            126 => Keycode::Super,
            _ => Keycode::Unknown,
        }
    }
}


/// Every key but `Unknown` is what its own number maps back to.
pub proof fn lemma_scan_code_round_trip(k: Keycode)
    requires
        k != Keycode::Unknown,
    ensures
        key_of_scan_code(key_number(k)) == k,
{
}

/// Every scan code maps to exactly one key: `Unknown`, the key whose number it
/// is, or the key it is the second code of.
pub proof fn lemma_scan_code_total(code: u8)
    ensures
        key_of_scan_code(code as int) == Keycode::Unknown
            || key_number(key_of_scan_code(code as int)) == code as int
            || alias_of(code as int) == Some(key_of_scan_code(code as int)),
{
}

} // verus!
