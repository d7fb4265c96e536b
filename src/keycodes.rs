use vstd::prelude::*;

verus! {

/// A logical key, independent of any platform's key numbering.
#[derive(Debug, Clone, Copy, PartialEq, Eq, Structural)]
pub enum Key {
    Alt,
    AltGr,
    Backspace,
    CapsLock,
    ControlLeft,
    ControlRight,
    Delete,
    DownArrow,
    End,
    Escape,
    F1,
    F2,
    F3,
    F4,
    F5,
    F6,
    F7,
    F8,
    F9,
    F10,
    F11,
    F12,
    Home,
    LeftArrow,
    MetaLeft,
    MetaRight,
    PageDown,
    PageUp,
    Return,
    RightArrow,
    ShiftLeft,
    ShiftRight,
    Space,
    Tab,
    UpArrow,
    PrintScreen,
    ScrollLock,
    Pause,
    NumLock,
    BackQuote,
    Num0,
    Num1,
    Num2,
    Num3,
    Num4,
    Num5,
    Num6,
    Num7,
    Num8,
    Num9,
    Minus,
    Equal,
    KeyA,
    KeyB,
    KeyC,
    KeyD,
    KeyE,
    KeyF,
    KeyG,
    KeyH,
    KeyI,
    KeyJ,
    KeyK,
    KeyL,
    KeyM,
    KeyN,
    KeyO,
    KeyP,
    KeyQ,
    KeyR,
    KeyS,
    KeyT,
    KeyU,
    KeyV,
    KeyW,
    KeyX,
    KeyY,
    KeyZ,
    LeftBracket,
    RightBracket,
    SemiColon,
    Quote,
    BackSlash,
    IntlBackslash,
    Comma,
    Dot,
    Slash,
    Insert,
    KpMinus,
    KpPlus,
    KpMultiply,
    KpDivide,
    Kp0,
    Kp1,
    Kp2,
    Kp3,
    Kp4,
    Kp5,
    Kp6,
    Kp7,
    Kp8,
    Kp9,
    KpDelete,
    KpReturn,
    Function,
    /// A key whose native code has no logical name; it carries that code.
    Unknown(u32),
}

/// The logical key of a native virtual-key code; a code without a name is `Unknown(code)`.
pub open spec fn key_of_code(code: u16) -> Key {
    match code {
        8 => Key::Backspace,
        9 => Key::Tab,
        13 => Key::Return,
        19 => Key::Pause,
        20 => Key::CapsLock,
        27 => Key::Escape,
        32 => Key::Space,
        33 => Key::PageUp,
        34 => Key::PageDown,
        35 => Key::End,
        36 => Key::Home,
        37 => Key::LeftArrow,
        38 => Key::UpArrow,
        39 => Key::RightArrow,
        40 => Key::DownArrow,
        44 => Key::PrintScreen,
        45 => Key::Insert,
        46 => Key::Delete,
        48 => Key::Num0,
        49 => Key::Num1,
        50 => Key::Num2,
        51 => Key::Num3,
        52 => Key::Num4,
        53 => Key::Num5,
        54 => Key::Num6,
        55 => Key::Num7,
        56 => Key::Num8,
        57 => Key::Num9,
        65 => Key::KeyA,
        66 => Key::KeyB,
        67 => Key::KeyC,
        68 => Key::KeyD,
        69 => Key::KeyE,
        70 => Key::KeyF,
        71 => Key::KeyG,
        72 => Key::KeyH,
        73 => Key::KeyI,
        74 => Key::KeyJ,
        75 => Key::KeyK,
        76 => Key::KeyL,
        77 => Key::KeyM,
        78 => Key::KeyN,
        79 => Key::KeyO,
        80 => Key::KeyP,
        81 => Key::KeyQ,
        82 => Key::KeyR,
        83 => Key::KeyS,
        84 => Key::KeyT,
        85 => Key::KeyU,
        86 => Key::KeyV,
        87 => Key::KeyW,
        88 => Key::KeyX,
        89 => Key::KeyY,
        90 => Key::KeyZ,
        91 => Key::MetaLeft,
        92 => Key::MetaRight,
        96 => Key::Kp0,
        97 => Key::Kp1,
        98 => Key::Kp2,
        99 => Key::Kp3,
        100 => Key::Kp4,
        101 => Key::Kp5,
        102 => Key::Kp6,
        103 => Key::Kp7,
        104 => Key::Kp8,
        105 => Key::Kp9,
        106 => Key::KpMultiply,
        107 => Key::KpPlus,
        109 => Key::KpMinus,
        110 => Key::KpDelete,
        111 => Key::KpDivide,
        112 => Key::F1,
        113 => Key::F2,
        114 => Key::F3,
        115 => Key::F4,
        116 => Key::F5,
        117 => Key::F6,
        118 => Key::F7,
        119 => Key::F8,
        120 => Key::F9,
        121 => Key::F10,
        122 => Key::F11,
        123 => Key::F12,
        144 => Key::NumLock,
        145 => Key::ScrollLock,
        160 => Key::ShiftLeft,
        161 => Key::ShiftRight,
        162 => Key::ControlLeft,
        163 => Key::ControlRight,
        164 => Key::Alt,
        165 => Key::AltGr,
        186 => Key::SemiColon,
        187 => Key::Equal,
        188 => Key::Comma,
        189 => Key::Minus,
        190 => Key::Dot,
        191 => Key::Slash,
        192 => Key::BackQuote,
        219 => Key::LeftBracket,
        220 => Key::BackSlash,
        221 => Key::RightBracket,
        222 => Key::Quote,
        226 => Key::IntlBackslash,
        _ => Key::Unknown(code as u32),
    }
}

/// The native virtual-key code of a logical key, where it has one.
pub open spec fn code_of_key(key: Key) -> Option<u16> {
    match key {
        Key::Alt => Some(164),
        Key::AltGr => Some(165),
        Key::Backspace => Some(8),
        Key::CapsLock => Some(20),
        Key::ControlLeft => Some(162),
        Key::ControlRight => Some(163),
        Key::Delete => Some(46),
        Key::DownArrow => Some(40),
        Key::End => Some(35),
        Key::Escape => Some(27),
        Key::F1 => Some(112),
        Key::F2 => Some(113),
        Key::F3 => Some(114),
        Key::F4 => Some(115),
        Key::F5 => Some(116),
        Key::F6 => Some(117),
        Key::F7 => Some(118),
        Key::F8 => Some(119),
        Key::F9 => Some(120),
        Key::F10 => Some(121),
        Key::F11 => Some(122),
        Key::F12 => Some(123),
        Key::Home => Some(36),
        Key::LeftArrow => Some(37),
        Key::MetaLeft => Some(91),
        Key::MetaRight => Some(92),
        Key::PageDown => Some(34),
        Key::PageUp => Some(33),
        Key::Return => Some(13),
        Key::RightArrow => Some(39),
        Key::ShiftLeft => Some(160),
        Key::ShiftRight => Some(161),
        Key::Space => Some(32),
        Key::Tab => Some(9),
        Key::UpArrow => Some(38),
        Key::PrintScreen => Some(44),
        Key::ScrollLock => Some(145),
        Key::Pause => Some(19),
        Key::NumLock => Some(144),
        Key::BackQuote => Some(192),
        Key::Num0 => Some(48),
        Key::Num1 => Some(49),
        Key::Num2 => Some(50),
        Key::Num3 => Some(51),
        Key::Num4 => Some(52),
        Key::Num5 => Some(53),
        Key::Num6 => Some(54),
        Key::Num7 => Some(55),
        Key::Num8 => Some(56),
        Key::Num9 => Some(57),
        Key::Minus => Some(189),
        Key::Equal => Some(187),
        Key::KeyA => Some(65),
        Key::KeyB => Some(66),
        Key::KeyC => Some(67),
        Key::KeyD => Some(68),
        Key::KeyE => Some(69),
        Key::KeyF => Some(70),
        Key::KeyG => Some(71),
        Key::KeyH => Some(72),
        Key::KeyI => Some(73),
        Key::KeyJ => Some(74),
        Key::KeyK => Some(75),
        Key::KeyL => Some(76),
        Key::KeyM => Some(77),
        Key::KeyN => Some(78),
        Key::KeyO => Some(79),
        Key::KeyP => Some(80),
        Key::KeyQ => Some(81),
        Key::KeyR => Some(82),
        Key::KeyS => Some(83),
        Key::KeyT => Some(84),
        Key::KeyU => Some(85),
        Key::KeyV => Some(86),
        Key::KeyW => Some(87),
        Key::KeyX => Some(88),
        Key::KeyY => Some(89),
        Key::KeyZ => Some(90),
        Key::LeftBracket => Some(219),
        Key::RightBracket => Some(221),
        Key::SemiColon => Some(186),
        Key::Quote => Some(222),
        Key::BackSlash => Some(220),
        Key::IntlBackslash => Some(226),
        Key::Comma => Some(188),
        Key::Dot => Some(190),
        Key::Slash => Some(191),
        Key::Insert => Some(45),
        Key::KpMinus => Some(109),
        Key::KpPlus => Some(107),
        Key::KpMultiply => Some(106),
        Key::KpDivide => Some(111),
        Key::Kp0 => Some(96),
        Key::Kp1 => Some(97),
        Key::Kp2 => Some(98),
        Key::Kp3 => Some(99),
        Key::Kp4 => Some(100),
        Key::Kp5 => Some(101),
        Key::Kp6 => Some(102),
        Key::Kp7 => Some(103),
        Key::Kp8 => Some(104),
        Key::Kp9 => Some(105),
        Key::KpDelete => Some(110),
        Key::Unknown(code) => if code <= 0xffff {
            Some(code as u16)
        } else {
            None
        },
        _ => None,
    }
}

/// Maps a native virtual-key code to its logical key; never fails.
pub fn key_from_code(code: u16) -> (key: Key)
    ensures
        key == key_of_code(code),
{
    match code {
        8 => Key::Backspace,
        9 => Key::Tab,
        13 => Key::Return,
        19 => Key::Pause,
        20 => Key::CapsLock,
        27 => Key::Escape,
        32 => Key::Space,
        33 => Key::PageUp,
        34 => Key::PageDown,
        35 => Key::End,
        36 => Key::Home,
        37 => Key::LeftArrow,
        38 => Key::UpArrow,
        39 => Key::RightArrow,
        40 => Key::DownArrow,
        44 => Key::PrintScreen,
        45 => Key::Insert,
        46 => Key::Delete,
        48 => Key::Num0,
        49 => Key::Num1,
        50 => Key::Num2,
        51 => Key::Num3,
        52 => Key::Num4,
        53 => Key::Num5,
        54 => Key::Num6,
        55 => Key::Num7,
        56 => Key::Num8,
        57 => Key::Num9,
        65 => Key::KeyA,
        66 => Key::KeyB,
        67 => Key::KeyC,
        68 => Key::KeyD,
        69 => Key::KeyE,
        70 => Key::KeyF,
        71 => Key::KeyG,
        72 => Key::KeyH,
        73 => Key::KeyI,
        74 => Key::KeyJ,
        75 => Key::KeyK,
        76 => Key::KeyL,
        77 => Key::KeyM,
        78 => Key::KeyN,
        79 => Key::KeyO,
        80 => Key::KeyP,
        81 => Key::KeyQ,
        82 => Key::KeyR,
        83 => Key::KeyS,
        84 => Key::KeyT,
        85 => Key::KeyU,
        86 => Key::KeyV,
        87 => Key::KeyW,
        88 => Key::KeyX,
        89 => Key::KeyY,
        90 => Key::KeyZ,
        91 => Key::MetaLeft,
        92 => Key::MetaRight,
        96 => Key::Kp0,
        97 => Key::Kp1,
        98 => Key::Kp2,
        99 => Key::Kp3,
        100 => Key::Kp4,
        101 => Key::Kp5,
        102 => Key::Kp6,
        103 => Key::Kp7,
        104 => Key::Kp8,
        105 => Key::Kp9,
        106 => Key::KpMultiply,
        107 => Key::KpPlus,
        109 => Key::KpMinus,
        110 => Key::KpDelete,
        111 => Key::KpDivide,
        112 => Key::F1,
        113 => Key::F2,
        114 => Key::F3,
        115 => Key::F4,
        116 => Key::F5,
        117 => Key::F6,
        118 => Key::F7,
        119 => Key::F8,
        120 => Key::F9,
        121 => Key::F10,
        122 => Key::F11,
        123 => Key::F12,
        144 => Key::NumLock,
        145 => Key::ScrollLock,
        160 => Key::ShiftLeft,
        161 => Key::ShiftRight,
        162 => Key::ControlLeft,
        163 => Key::ControlRight,
        164 => Key::Alt,
        165 => Key::AltGr,
        186 => Key::SemiColon,
        187 => Key::Equal,
        188 => Key::Comma,
        189 => Key::Minus,
        190 => Key::Dot,
        191 => Key::Slash,
        192 => Key::BackQuote,
        219 => Key::LeftBracket,
        220 => Key::BackSlash,
        221 => Key::RightBracket,
        222 => Key::Quote,
        226 => Key::IntlBackslash,
        _ => Key::Unknown(code as u32),
    }
}

/// Maps a logical key back to its native virtual-key code, where it has one.
pub fn code_from_key(key: Key) -> (code: Option<u16>)
    ensures
        code == code_of_key(key),
{
    match key {
        Key::Alt => Some(164),
        Key::AltGr => Some(165),
        Key::Backspace => Some(8),
        Key::CapsLock => Some(20),
        Key::ControlLeft => Some(162),
        Key::ControlRight => Some(163),
        Key::Delete => Some(46),
        Key::DownArrow => Some(40),
        Key::End => Some(35),
        Key::Escape => Some(27),
        Key::F1 => Some(112),
        Key::F2 => Some(113),
        Key::F3 => Some(114),
        Key::F4 => Some(115),
        Key::F5 => Some(116),
        Key::F6 => Some(117),
        Key::F7 => Some(118),
        Key::F8 => Some(119),
        Key::F9 => Some(120),
        Key::F10 => Some(121),
        Key::F11 => Some(122),
        Key::F12 => Some(123),
        Key::Home => Some(36),
        Key::LeftArrow => Some(37),
        Key::MetaLeft => Some(91),
        Key::MetaRight => Some(92),
        Key::PageDown => Some(34),
        Key::PageUp => Some(33),
        Key::Return => Some(13),
        Key::RightArrow => Some(39),
        Key::ShiftLeft => Some(160),
        Key::ShiftRight => Some(161),
        Key::Space => Some(32),
        Key::Tab => Some(9),
        Key::UpArrow => Some(38),
        Key::PrintScreen => Some(44),
        Key::ScrollLock => Some(145),
        Key::Pause => Some(19),
        Key::NumLock => Some(144),
        Key::BackQuote => Some(192),
        Key::Num0 => Some(48),
        Key::Num1 => Some(49),
        Key::Num2 => Some(50),
        Key::Num3 => Some(51),
        Key::Num4 => Some(52),
        Key::Num5 => Some(53),
        Key::Num6 => Some(54),
        Key::Num7 => Some(55),
        Key::Num8 => Some(56),
        Key::Num9 => Some(57),
        Key::Minus => Some(189),
        Key::Equal => Some(187),
        Key::KeyA => Some(65),
        Key::KeyB => Some(66),
        Key::KeyC => Some(67),
        Key::KeyD => Some(68),
        Key::KeyE => Some(69),
        Key::KeyF => Some(70),
        Key::KeyG => Some(71),
        Key::KeyH => Some(72),
        Key::KeyI => Some(73),
        Key::KeyJ => Some(74),
        Key::KeyK => Some(75),
        Key::KeyL => Some(76),
        Key::KeyM => Some(77),
        Key::KeyN => Some(78),
        Key::KeyO => Some(79),
        Key::KeyP => Some(80),
        Key::KeyQ => Some(81),
        Key::KeyR => Some(82),
        Key::KeyS => Some(83),
        Key::KeyT => Some(84),
        Key::KeyU => Some(85),
        Key::KeyV => Some(86),
        Key::KeyW => Some(87),
        Key::KeyX => Some(88),
        Key::KeyY => Some(89),
        Key::KeyZ => Some(90),
        Key::LeftBracket => Some(219),
        Key::RightBracket => Some(221),
        Key::SemiColon => Some(186),
        Key::Quote => Some(222),
        Key::BackSlash => Some(220),
        Key::IntlBackslash => Some(226),
        Key::Comma => Some(188),
        Key::Dot => Some(190),
        Key::Slash => Some(191),
        Key::Insert => Some(45),
        Key::KpMinus => Some(109),
        Key::KpPlus => Some(107),
        Key::KpMultiply => Some(106),
        Key::KpDivide => Some(111),
        Key::Kp0 => Some(96),
        Key::Kp1 => Some(97),
        Key::Kp2 => Some(98),
        Key::Kp3 => Some(99),
        Key::Kp4 => Some(100),
        Key::Kp5 => Some(101),
        Key::Kp6 => Some(102),
        Key::Kp7 => Some(103),
        Key::Kp8 => Some(104),
        Key::Kp9 => Some(105),
        Key::KpDelete => Some(110),
        Key::Unknown(code) => if code <= 0xffff {
            Some(code as u16)
        } else {
            None
        },
        _ => None,
    }
}

/// Every native code maps to a key that maps back to the same code, so that
/// decoding, encoding and decoding again yields the key of the first decoding.
pub proof fn lemma_code_round_trip(code: u16)
    ensures
        code_of_key(key_of_code(code)) == Some(code),
        key_of_code(code_of_key(key_of_code(code)).unwrap()) == key_of_code(code),
{
}

/// A key that has a native code and is not `Unknown` is the key of that code.
pub proof fn lemma_key_round_trip(key: Key)
    requires
        !(key is Unknown),
        code_of_key(key) is Some,
    ensures
        key_of_code(code_of_key(key).unwrap()) == key,
{
}

} // verus!
