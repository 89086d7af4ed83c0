//! Linux evdev `KEY_*` code to [`Key`] mapping.
//!
//! Source: `<linux/input-event-codes.h>`. Left/right modifiers are distinct
//! at the kernel level (`KEY_LEFTSHIFT` vs `KEY_RIGHTSHIFT`, etc.), so no
//! additional disambiguation is needed. The Fn key, where the keyboard
//! reports it at all, arrives as `KEY_FN` (0x1D0 = 464).

use vstd::prelude::*;

use crate::key::{Key, RawCode};

verus! {

/// The evdev code of each key this table names; `None` for keys evdev
/// reports under a code the table does not cover.
pub open spec fn evdev_code(key: Key) -> Option<u16> {
    match key {
        Key::Escape => Some(1u16),
        Key::Digit1 => Some(2u16),
        Key::Digit2 => Some(3u16),
        Key::Digit3 => Some(4u16),
        Key::Digit4 => Some(5u16),
        Key::Digit5 => Some(6u16),
        Key::Digit6 => Some(7u16),
        Key::Digit7 => Some(8u16),
        Key::Digit8 => Some(9u16),
        Key::Digit9 => Some(10u16),
        Key::Digit0 => Some(11u16),
        Key::Minus => Some(12u16),
        Key::Equal => Some(13u16),
        Key::Backspace => Some(14u16),
        Key::Tab => Some(15u16),
        Key::Q => Some(16u16),
        Key::W => Some(17u16),
        Key::E => Some(18u16),
        Key::R => Some(19u16),
        Key::T => Some(20u16),
        Key::Y => Some(21u16),
        Key::U => Some(22u16),
        Key::I => Some(23u16),
        Key::O => Some(24u16),
        Key::P => Some(25u16),
        Key::BracketLeft => Some(26u16),
        Key::BracketRight => Some(27u16),
        Key::Enter => Some(28u16),
        Key::ControlLeft => Some(29u16),
        Key::A => Some(30u16),
        Key::S => Some(31u16),
        Key::D => Some(32u16),
        Key::F => Some(33u16),
        Key::G => Some(34u16),
        Key::H => Some(35u16),
        Key::J => Some(36u16),
        Key::K => Some(37u16),
        Key::L => Some(38u16),
        Key::Semicolon => Some(39u16),
        Key::Quote => Some(40u16),
        Key::Backtick => Some(41u16),
        Key::ShiftLeft => Some(42u16),
        Key::Backslash => Some(43u16),
        Key::Z => Some(44u16),
        Key::X => Some(45u16),
        Key::C => Some(46u16),
        Key::V => Some(47u16),
        Key::B => Some(48u16),
        Key::N => Some(49u16),
        Key::M => Some(50u16),
        Key::Comma => Some(51u16),
        Key::Period => Some(52u16),
        Key::Slash => Some(53u16),
        Key::ShiftRight => Some(54u16),
        Key::NumpadMultiply => Some(55u16),
        Key::AltLeft => Some(56u16),
        Key::Space => Some(57u16),
        Key::CapsLock => Some(58u16),
        Key::F1 => Some(59u16),
        Key::F2 => Some(60u16),
        Key::F3 => Some(61u16),
        Key::F4 => Some(62u16),
        Key::F5 => Some(63u16),
        Key::F6 => Some(64u16),
        Key::F7 => Some(65u16),
        Key::F8 => Some(66u16),
        Key::F9 => Some(67u16),
        Key::F10 => Some(68u16),
        Key::NumLock => Some(69u16),
        Key::ScrollLock => Some(70u16),
        Key::Numpad7 => Some(71u16),
        Key::Numpad8 => Some(72u16),
        Key::Numpad9 => Some(73u16),
        Key::NumpadSubtract => Some(74u16),
        Key::Numpad4 => Some(75u16),
        Key::Numpad5 => Some(76u16),
        Key::Numpad6 => Some(77u16),
        Key::NumpadAdd => Some(78u16),
        Key::Numpad1 => Some(79u16),
        Key::Numpad2 => Some(80u16),
        Key::Numpad3 => Some(81u16),
        Key::Numpad0 => Some(82u16),
        Key::NumpadDecimal => Some(83u16),
        Key::F11 => Some(87u16),
        Key::F12 => Some(88u16),
        Key::NumpadEnter => Some(96u16),
        Key::ControlRight => Some(97u16),
        Key::NumpadDivide => Some(98u16),
        Key::PrintScreen => Some(99u16),
        Key::AltRight => Some(100u16),
        Key::Home => Some(102u16),
        Key::ArrowUp => Some(103u16),
        Key::PageUp => Some(104u16),
        Key::ArrowLeft => Some(105u16),
        Key::ArrowRight => Some(106u16),
        Key::End => Some(107u16),
        Key::ArrowDown => Some(108u16),
        Key::PageDown => Some(109u16),
        Key::Insert => Some(110u16),
        Key::Delete => Some(111u16),
        Key::Pause => Some(119u16),
        Key::MetaLeft => Some(125u16),
        Key::MetaRight => Some(126u16),
        Key::Menu => Some(127u16),
        Key::F13 => Some(183u16),
        Key::F14 => Some(184u16),
        Key::F15 => Some(185u16),
        Key::F16 => Some(186u16),
        Key::F17 => Some(187u16),
        Key::F18 => Some(188u16),
        Key::F19 => Some(189u16),
        Key::F20 => Some(190u16),
        Key::F21 => Some(191u16),
        Key::F22 => Some(192u16),
        Key::F23 => Some(193u16),
        Key::F24 => Some(194u16),
        Key::Function => Some(464u16),
        _ => None,
    }
}

/// The key an evdev code stands for: the named key with that code, or
/// `Unknown` carrying the raw code.
pub open spec fn key_for_code(code: u16) -> Key {
    if exists|k: Key| evdev_code(k) == Some(code) {
        choose|k: Key| evdev_code(k) == Some(code)
    } else {
        Key::Unknown(RawCode(code as u32))
    }
}

/// Maps an evdev `KEY_*` code to a [`Key`]. Codes without a named key
/// round-trip through [`Key::Unknown`].
pub fn key_from_code(code: u16) -> (key: Key)
    ensures
        key == key_for_code(code),
        key.is_named() ==> evdev_code(key) == Some(code),
        forall|k: Key| evdev_code(k) == Some(code) ==> key == k,
{
    let key = match code {
        1 => Key::Escape,
        2 => Key::Digit1,
        3 => Key::Digit2,
        4 => Key::Digit3,
        5 => Key::Digit4,
        6 => Key::Digit5,
        7 => Key::Digit6,
        8 => Key::Digit7,
        9 => Key::Digit8,
        10 => Key::Digit9,
        11 => Key::Digit0,
        12 => Key::Minus,
        13 => Key::Equal,
        14 => Key::Backspace,
        15 => Key::Tab,
        16 => Key::Q,
        17 => Key::W,
        18 => Key::E,
        19 => Key::R,
        20 => Key::T,
        21 => Key::Y,
        22 => Key::U,
        23 => Key::I,
        24 => Key::O,
        25 => Key::P,
        26 => Key::BracketLeft,
        27 => Key::BracketRight,
        28 => Key::Enter,
        29 => Key::ControlLeft,
        30 => Key::A,
        31 => Key::S,
        32 => Key::D,
        33 => Key::F,
        34 => Key::G,
        35 => Key::H,
        36 => Key::J,
        37 => Key::K,
        38 => Key::L,
        39 => Key::Semicolon,
        40 => Key::Quote,
        41 => Key::Backtick,
        42 => Key::ShiftLeft,
        43 => Key::Backslash,
        44 => Key::Z,
        45 => Key::X,
        46 => Key::C,
        47 => Key::V,
        48 => Key::B,
        49 => Key::N,
        50 => Key::M,
        51 => Key::Comma,
        52 => Key::Period,
        53 => Key::Slash,
        54 => Key::ShiftRight,
        55 => Key::NumpadMultiply,
        56 => Key::AltLeft,
        57 => Key::Space,
        58 => Key::CapsLock,
        59 => Key::F1,
        60 => Key::F2,
        61 => Key::F3,
        62 => Key::F4,
        63 => Key::F5,
        64 => Key::F6,
        65 => Key::F7,
        66 => Key::F8,
        67 => Key::F9,
        68 => Key::F10,
        69 => Key::NumLock,
        70 => Key::ScrollLock,
        71 => Key::Numpad7,
        72 => Key::Numpad8,
        73 => Key::Numpad9,
        74 => Key::NumpadSubtract,
        75 => Key::Numpad4,
        76 => Key::Numpad5,
        77 => Key::Numpad6,
        78 => Key::NumpadAdd,
        79 => Key::Numpad1,
        80 => Key::Numpad2,
        81 => Key::Numpad3,
        82 => Key::Numpad0,
        83 => Key::NumpadDecimal,
        87 => Key::F11,
        88 => Key::F12,
        96 => Key::NumpadEnter,
        97 => Key::ControlRight,
        98 => Key::NumpadDivide,
        99 => Key::PrintScreen,
        100 => Key::AltRight,
        102 => Key::Home,
        103 => Key::ArrowUp,
        104 => Key::PageUp,
        105 => Key::ArrowLeft,
        106 => Key::ArrowRight,
        107 => Key::End,
        108 => Key::ArrowDown,
        109 => Key::PageDown,
        110 => Key::Insert,
        111 => Key::Delete,
        119 => Key::Pause,
        125 => Key::MetaLeft,
        126 => Key::MetaRight,
        127 => Key::Menu,
        183 => Key::F13,
        184 => Key::F14,
        185 => Key::F15,
        186 => Key::F16,
        187 => Key::F17,
        188 => Key::F18,
        189 => Key::F19,
        190 => Key::F20,
        191 => Key::F21,
        192 => Key::F22,
        193 => Key::F23,
        194 => Key::F24,
        464 => Key::Function,
        other => Key::Unknown(RawCode(other as u32)),
    };
    proof {
        if key.is_named() {
            assert(evdev_code(key) == Some(code));
        }
    }
    key
}

/// Distinct keys have distinct codes in the table.
pub proof fn lemma_evdev_code_injective(a: Key, b: Key)
    requires
        evdev_code(a) is Some,
        evdev_code(a) == evdev_code(b),
    ensures
        a == b,
{
}

/// The key for a code is the key the table gives that code.
pub proof fn lemma_key_for_code_of(k: Key, c: u16)
    requires
        evdev_code(k) == Some(c),
    ensures
        key_for_code(c) == k,
{
    let w = choose|w: Key| evdev_code(w) == Some(c);
    lemma_evdev_code_injective(w, k);
}

/// `keys` are the keys of consecutive evdev codes from `start` on, in order.
pub open spec fn codes_from(start: int, keys: Seq<Key>) -> bool {
    forall|i: int| 0 <= i < keys.len() ==> key_for_code((start + i) as u16) == keys[i]
}

/// The table agrees with `<linux/input-event-codes.h>`: the header numbers
/// the keyboard block by block, and each run of consecutive `KEY_*` codes
/// stands for these keys in this order (for example `KEY_ESC` = 1,
/// `KEY_1` = 2, ..., `KEY_LEFT` = 105, `KEY_RIGHT` = 106).
pub proof fn lemma_evdev_header_layout()
    ensures
        codes_from(1, seq![Key::Escape, Key::Digit1, Key::Digit2, Key::Digit3, Key::Digit4, Key::Digit5, Key::Digit6, Key::Digit7, Key::Digit8, Key::Digit9, Key::Digit0, Key::Minus]),
        codes_from(13, seq![Key::Equal, Key::Backspace, Key::Tab, Key::Q, Key::W, Key::E, Key::R, Key::T, Key::Y, Key::U, Key::I, Key::O]),
        codes_from(25, seq![Key::P, Key::BracketLeft, Key::BracketRight, Key::Enter, Key::ControlLeft, Key::A, Key::S, Key::D, Key::F, Key::G, Key::H, Key::J]),
        codes_from(37, seq![Key::K, Key::L, Key::Semicolon, Key::Quote, Key::Backtick, Key::ShiftLeft, Key::Backslash, Key::Z, Key::X, Key::C, Key::V, Key::B]),
        codes_from(49, seq![Key::N, Key::M, Key::Comma, Key::Period, Key::Slash, Key::ShiftRight, Key::NumpadMultiply, Key::AltLeft, Key::Space, Key::CapsLock, Key::F1, Key::F2]),
        codes_from(61, seq![Key::F3, Key::F4, Key::F5, Key::F6, Key::F7, Key::F8, Key::F9, Key::F10, Key::NumLock, Key::ScrollLock, Key::Numpad7, Key::Numpad8]),
        codes_from(73, seq![Key::Numpad9, Key::NumpadSubtract, Key::Numpad4, Key::Numpad5, Key::Numpad6, Key::NumpadAdd, Key::Numpad1, Key::Numpad2, Key::Numpad3, Key::Numpad0, Key::NumpadDecimal]),
        codes_from(87, seq![Key::F11, Key::F12]),
        codes_from(96, seq![Key::NumpadEnter, Key::ControlRight, Key::NumpadDivide, Key::PrintScreen, Key::AltRight]),
        codes_from(102, seq![Key::Home, Key::ArrowUp, Key::PageUp, Key::ArrowLeft, Key::ArrowRight, Key::End, Key::ArrowDown, Key::PageDown, Key::Insert, Key::Delete]),
        codes_from(119, seq![Key::Pause]),
        codes_from(125, seq![Key::MetaLeft, Key::MetaRight, Key::Menu]),
        codes_from(183, seq![Key::F13, Key::F14, Key::F15, Key::F16, Key::F17, Key::F18, Key::F19, Key::F20, Key::F21, Key::F22, Key::F23, Key::F24]),
        codes_from(464, seq![Key::Function]),
{
    lemma_run_1();
    lemma_run_13();
    lemma_run_25();
    lemma_run_37();
    lemma_run_49();
    lemma_run_61();
    lemma_run_73();
    lemma_run_87();
    lemma_run_96();
    lemma_run_102();
    lemma_run_119();
    lemma_run_125();
    lemma_run_183();
    lemma_run_464();
}

proof fn lemma_run_1()
    ensures
        codes_from(1, seq![Key::Escape, Key::Digit1, Key::Digit2, Key::Digit3, Key::Digit4, Key::Digit5, Key::Digit6, Key::Digit7, Key::Digit8, Key::Digit9, Key::Digit0, Key::Minus]),
{
    assert forall|i: int| 0 <= i < 12 implies key_for_code((1 + i) as u16) == seq![Key::Escape, Key::Digit1, Key::Digit2, Key::Digit3, Key::Digit4, Key::Digit5, Key::Digit6, Key::Digit7, Key::Digit8, Key::Digit9, Key::Digit0, Key::Minus][i] by {
        if i == 0 {
            lemma_key_for_code_of(Key::Escape, 1u16);
        } else if i == 1 {
            lemma_key_for_code_of(Key::Digit1, 2u16);
        } else if i == 2 {
            lemma_key_for_code_of(Key::Digit2, 3u16);
        } else if i == 3 {
            lemma_key_for_code_of(Key::Digit3, 4u16);
        } else if i == 4 {
            lemma_key_for_code_of(Key::Digit4, 5u16);
        } else if i == 5 {
            lemma_key_for_code_of(Key::Digit5, 6u16);
        } else if i == 6 {
            lemma_key_for_code_of(Key::Digit6, 7u16);
        } else if i == 7 {
            lemma_key_for_code_of(Key::Digit7, 8u16);
        } else if i == 8 {
            lemma_key_for_code_of(Key::Digit8, 9u16);
        } else if i == 9 {
            lemma_key_for_code_of(Key::Digit9, 10u16);
        } else if i == 10 {
            lemma_key_for_code_of(Key::Digit0, 11u16);
        } else if i == 11 {
            lemma_key_for_code_of(Key::Minus, 12u16);
        }
    }
}

proof fn lemma_run_13()
    ensures
        codes_from(13, seq![Key::Equal, Key::Backspace, Key::Tab, Key::Q, Key::W, Key::E, Key::R, Key::T, Key::Y, Key::U, Key::I, Key::O]),
{
    assert forall|i: int| 0 <= i < 12 implies key_for_code((13 + i) as u16) == seq![Key::Equal, Key::Backspace, Key::Tab, Key::Q, Key::W, Key::E, Key::R, Key::T, Key::Y, Key::U, Key::I, Key::O][i] by {
        if i == 0 {
            lemma_key_for_code_of(Key::Equal, 13u16);
        } else if i == 1 {
            lemma_key_for_code_of(Key::Backspace, 14u16);
        } else if i == 2 {
            lemma_key_for_code_of(Key::Tab, 15u16);
        } else if i == 3 {
            lemma_key_for_code_of(Key::Q, 16u16);
        } else if i == 4 {
            lemma_key_for_code_of(Key::W, 17u16);
        } else if i == 5 {
            lemma_key_for_code_of(Key::E, 18u16);
        } else if i == 6 {
            lemma_key_for_code_of(Key::R, 19u16);
        } else if i == 7 {
            lemma_key_for_code_of(Key::T, 20u16);
        } else if i == 8 {
            lemma_key_for_code_of(Key::Y, 21u16);
        } else if i == 9 {
            lemma_key_for_code_of(Key::U, 22u16);
        } else if i == 10 {
            lemma_key_for_code_of(Key::I, 23u16);
        } else if i == 11 {
            lemma_key_for_code_of(Key::O, 24u16);
        }
    }
}

proof fn lemma_run_25()
    ensures
        codes_from(25, seq![Key::P, Key::BracketLeft, Key::BracketRight, Key::Enter, Key::ControlLeft, Key::A, Key::S, Key::D, Key::F, Key::G, Key::H, Key::J]),
{
    assert forall|i: int| 0 <= i < 12 implies key_for_code((25 + i) as u16) == seq![Key::P, Key::BracketLeft, Key::BracketRight, Key::Enter, Key::ControlLeft, Key::A, Key::S, Key::D, Key::F, Key::G, Key::H, Key::J][i] by {
        if i == 0 {
            lemma_key_for_code_of(Key::P, 25u16);
        } else if i == 1 {
            lemma_key_for_code_of(Key::BracketLeft, 26u16);
        } else if i == 2 {
            lemma_key_for_code_of(Key::BracketRight, 27u16);
        } else if i == 3 {
            lemma_key_for_code_of(Key::Enter, 28u16);
        } else if i == 4 {
            lemma_key_for_code_of(Key::ControlLeft, 29u16);
        } else if i == 5 {
            lemma_key_for_code_of(Key::A, 30u16);
        } else if i == 6 {
            lemma_key_for_code_of(Key::S, 31u16);
        } else if i == 7 {
            lemma_key_for_code_of(Key::D, 32u16);
        } else if i == 8 {
            lemma_key_for_code_of(Key::F, 33u16);
        } else if i == 9 {
            lemma_key_for_code_of(Key::G, 34u16);
        } else if i == 10 {
            lemma_key_for_code_of(Key::H, 35u16);
        } else if i == 11 {
            lemma_key_for_code_of(Key::J, 36u16);
        }
    }
}

proof fn lemma_run_37()
    ensures
        codes_from(37, seq![Key::K, Key::L, Key::Semicolon, Key::Quote, Key::Backtick, Key::ShiftLeft, Key::Backslash, Key::Z, Key::X, Key::C, Key::V, Key::B]),
{
    assert forall|i: int| 0 <= i < 12 implies key_for_code((37 + i) as u16) == seq![Key::K, Key::L, Key::Semicolon, Key::Quote, Key::Backtick, Key::ShiftLeft, Key::Backslash, Key::Z, Key::X, Key::C, Key::V, Key::B][i] by {
        if i == 0 {
            lemma_key_for_code_of(Key::K, 37u16);
        } else if i == 1 {
            lemma_key_for_code_of(Key::L, 38u16);
        } else if i == 2 {
            lemma_key_for_code_of(Key::Semicolon, 39u16);
        } else if i == 3 {
            lemma_key_for_code_of(Key::Quote, 40u16);
        } else if i == 4 {
            lemma_key_for_code_of(Key::Backtick, 41u16);
        } else if i == 5 {
            lemma_key_for_code_of(Key::ShiftLeft, 42u16);
        } else if i == 6 {
            lemma_key_for_code_of(Key::Backslash, 43u16);
        } else if i == 7 {
            lemma_key_for_code_of(Key::Z, 44u16);
        } else if i == 8 {
            lemma_key_for_code_of(Key::X, 45u16);
        } else if i == 9 {
            lemma_key_for_code_of(Key::C, 46u16);
        } else if i == 10 {
            lemma_key_for_code_of(Key::V, 47u16);
        } else if i == 11 {
            lemma_key_for_code_of(Key::B, 48u16);
        }
    }
}

proof fn lemma_run_49()
    ensures
        codes_from(49, seq![Key::N, Key::M, Key::Comma, Key::Period, Key::Slash, Key::ShiftRight, Key::NumpadMultiply, Key::AltLeft, Key::Space, Key::CapsLock, Key::F1, Key::F2]),
{
    assert forall|i: int| 0 <= i < 12 implies key_for_code((49 + i) as u16) == seq![Key::N, Key::M, Key::Comma, Key::Period, Key::Slash, Key::ShiftRight, Key::NumpadMultiply, Key::AltLeft, Key::Space, Key::CapsLock, Key::F1, Key::F2][i] by {
        if i == 0 {
            lemma_key_for_code_of(Key::N, 49u16);
        } else if i == 1 {
            lemma_key_for_code_of(Key::M, 50u16);
        } else if i == 2 {
            lemma_key_for_code_of(Key::Comma, 51u16);
        } else if i == 3 {
            lemma_key_for_code_of(Key::Period, 52u16);
        } else if i == 4 {
            lemma_key_for_code_of(Key::Slash, 53u16);
        } else if i == 5 {
            lemma_key_for_code_of(Key::ShiftRight, 54u16);
        } else if i == 6 {
            lemma_key_for_code_of(Key::NumpadMultiply, 55u16);
        } else if i == 7 {
            lemma_key_for_code_of(Key::AltLeft, 56u16);
        } else if i == 8 {
            lemma_key_for_code_of(Key::Space, 57u16);
        } else if i == 9 {
            lemma_key_for_code_of(Key::CapsLock, 58u16);
        } else if i == 10 {
            lemma_key_for_code_of(Key::F1, 59u16);
        } else if i == 11 {
            lemma_key_for_code_of(Key::F2, 60u16);
        }
    }
}

proof fn lemma_run_61()
    ensures
        codes_from(61, seq![Key::F3, Key::F4, Key::F5, Key::F6, Key::F7, Key::F8, Key::F9, Key::F10, Key::NumLock, Key::ScrollLock, Key::Numpad7, Key::Numpad8]),
{
    assert forall|i: int| 0 <= i < 12 implies key_for_code((61 + i) as u16) == seq![Key::F3, Key::F4, Key::F5, Key::F6, Key::F7, Key::F8, Key::F9, Key::F10, Key::NumLock, Key::ScrollLock, Key::Numpad7, Key::Numpad8][i] by {
        if i == 0 {
            lemma_key_for_code_of(Key::F3, 61u16);
        } else if i == 1 {
            lemma_key_for_code_of(Key::F4, 62u16);
        } else if i == 2 {
            lemma_key_for_code_of(Key::F5, 63u16);
        } else if i == 3 {
            lemma_key_for_code_of(Key::F6, 64u16);
        } else if i == 4 {
            lemma_key_for_code_of(Key::F7, 65u16);
        } else if i == 5 {
            lemma_key_for_code_of(Key::F8, 66u16);
        } else if i == 6 {
            lemma_key_for_code_of(Key::F9, 67u16);
        } else if i == 7 {
            lemma_key_for_code_of(Key::F10, 68u16);
        } else if i == 8 {
            lemma_key_for_code_of(Key::NumLock, 69u16);
        } else if i == 9 {
            lemma_key_for_code_of(Key::ScrollLock, 70u16);
        } else if i == 10 {
            lemma_key_for_code_of(Key::Numpad7, 71u16);
        } else if i == 11 {
            lemma_key_for_code_of(Key::Numpad8, 72u16);
        }
    }
}

proof fn lemma_run_73()
    ensures
        codes_from(73, seq![Key::Numpad9, Key::NumpadSubtract, Key::Numpad4, Key::Numpad5, Key::Numpad6, Key::NumpadAdd, Key::Numpad1, Key::Numpad2, Key::Numpad3, Key::Numpad0, Key::NumpadDecimal]),
{
    assert forall|i: int| 0 <= i < 11 implies key_for_code((73 + i) as u16) == seq![Key::Numpad9, Key::NumpadSubtract, Key::Numpad4, Key::Numpad5, Key::Numpad6, Key::NumpadAdd, Key::Numpad1, Key::Numpad2, Key::Numpad3, Key::Numpad0, Key::NumpadDecimal][i] by {
        if i == 0 {
            lemma_key_for_code_of(Key::Numpad9, 73u16);
        } else if i == 1 {
            lemma_key_for_code_of(Key::NumpadSubtract, 74u16);
        } else if i == 2 {
            lemma_key_for_code_of(Key::Numpad4, 75u16);
        } else if i == 3 {
            lemma_key_for_code_of(Key::Numpad5, 76u16);
        } else if i == 4 {
            lemma_key_for_code_of(Key::Numpad6, 77u16);
        } else if i == 5 {
            lemma_key_for_code_of(Key::NumpadAdd, 78u16);
        } else if i == 6 {
            lemma_key_for_code_of(Key::Numpad1, 79u16);
        } else if i == 7 {
            lemma_key_for_code_of(Key::Numpad2, 80u16);
        } else if i == 8 {
            lemma_key_for_code_of(Key::Numpad3, 81u16);
        } else if i == 9 {
            lemma_key_for_code_of(Key::Numpad0, 82u16);
        } else if i == 10 {
            lemma_key_for_code_of(Key::NumpadDecimal, 83u16);
        }
    }
}

proof fn lemma_run_87()
    ensures
        codes_from(87, seq![Key::F11, Key::F12]),
{
    assert forall|i: int| 0 <= i < 2 implies key_for_code((87 + i) as u16) == seq![Key::F11, Key::F12][i] by {
        if i == 0 {
            lemma_key_for_code_of(Key::F11, 87u16);
        } else if i == 1 {
            lemma_key_for_code_of(Key::F12, 88u16);
        }
    }
}

proof fn lemma_run_96()
    ensures
        codes_from(96, seq![Key::NumpadEnter, Key::ControlRight, Key::NumpadDivide, Key::PrintScreen, Key::AltRight]),
{
    assert forall|i: int| 0 <= i < 5 implies key_for_code((96 + i) as u16) == seq![Key::NumpadEnter, Key::ControlRight, Key::NumpadDivide, Key::PrintScreen, Key::AltRight][i] by {
        if i == 0 {
            lemma_key_for_code_of(Key::NumpadEnter, 96u16);
        } else if i == 1 {
            lemma_key_for_code_of(Key::ControlRight, 97u16);
        } else if i == 2 {
            lemma_key_for_code_of(Key::NumpadDivide, 98u16);
        } else if i == 3 {
            lemma_key_for_code_of(Key::PrintScreen, 99u16);
        } else if i == 4 {
            lemma_key_for_code_of(Key::AltRight, 100u16);
        }
    }
}

proof fn lemma_run_102()
    ensures
        codes_from(102, seq![Key::Home, Key::ArrowUp, Key::PageUp, Key::ArrowLeft, Key::ArrowRight, Key::End, Key::ArrowDown, Key::PageDown, Key::Insert, Key::Delete]),
{
    assert forall|i: int| 0 <= i < 10 implies key_for_code((102 + i) as u16) == seq![Key::Home, Key::ArrowUp, Key::PageUp, Key::ArrowLeft, Key::ArrowRight, Key::End, Key::ArrowDown, Key::PageDown, Key::Insert, Key::Delete][i] by {
        if i == 0 {
            lemma_key_for_code_of(Key::Home, 102u16);
        } else if i == 1 {
            lemma_key_for_code_of(Key::ArrowUp, 103u16);
        } else if i == 2 {
            lemma_key_for_code_of(Key::PageUp, 104u16);
        } else if i == 3 {
            lemma_key_for_code_of(Key::ArrowLeft, 105u16);
        } else if i == 4 {
            lemma_key_for_code_of(Key::ArrowRight, 106u16);
        } else if i == 5 {
            lemma_key_for_code_of(Key::End, 107u16);
        } else if i == 6 {
            lemma_key_for_code_of(Key::ArrowDown, 108u16);
        } else if i == 7 {
            lemma_key_for_code_of(Key::PageDown, 109u16);
        } else if i == 8 {
            lemma_key_for_code_of(Key::Insert, 110u16);
        } else if i == 9 {
            lemma_key_for_code_of(Key::Delete, 111u16);
        }
    }
}

proof fn lemma_run_119()
    ensures
        codes_from(119, seq![Key::Pause]),
{
    assert forall|i: int| 0 <= i < 1 implies key_for_code((119 + i) as u16) == seq![Key::Pause][i] by {
        if i == 0 {
            lemma_key_for_code_of(Key::Pause, 119u16);
        }
    }
}

proof fn lemma_run_125()
    ensures
        codes_from(125, seq![Key::MetaLeft, Key::MetaRight, Key::Menu]),
{
    assert forall|i: int| 0 <= i < 3 implies key_for_code((125 + i) as u16) == seq![Key::MetaLeft, Key::MetaRight, Key::Menu][i] by {
        if i == 0 {
            lemma_key_for_code_of(Key::MetaLeft, 125u16);
        } else if i == 1 {
            lemma_key_for_code_of(Key::MetaRight, 126u16);
        } else if i == 2 {
            lemma_key_for_code_of(Key::Menu, 127u16);
        }
    }
}

proof fn lemma_run_183()
    ensures
        codes_from(183, seq![Key::F13, Key::F14, Key::F15, Key::F16, Key::F17, Key::F18, Key::F19, Key::F20, Key::F21, Key::F22, Key::F23, Key::F24]),
{
    assert forall|i: int| 0 <= i < 12 implies key_for_code((183 + i) as u16) == seq![Key::F13, Key::F14, Key::F15, Key::F16, Key::F17, Key::F18, Key::F19, Key::F20, Key::F21, Key::F22, Key::F23, Key::F24][i] by {
        if i == 0 {
            lemma_key_for_code_of(Key::F13, 183u16);
        } else if i == 1 {
            lemma_key_for_code_of(Key::F14, 184u16);
        } else if i == 2 {
            lemma_key_for_code_of(Key::F15, 185u16);
        } else if i == 3 {
            lemma_key_for_code_of(Key::F16, 186u16);
        } else if i == 4 {
            lemma_key_for_code_of(Key::F17, 187u16);
        } else if i == 5 {
            lemma_key_for_code_of(Key::F18, 188u16);
        } else if i == 6 {
            lemma_key_for_code_of(Key::F19, 189u16);
        } else if i == 7 {
            lemma_key_for_code_of(Key::F20, 190u16);
        } else if i == 8 {
            lemma_key_for_code_of(Key::F21, 191u16);
        } else if i == 9 {
            lemma_key_for_code_of(Key::F22, 192u16);
        } else if i == 10 {
            lemma_key_for_code_of(Key::F23, 193u16);
        } else if i == 11 {
            lemma_key_for_code_of(Key::F24, 194u16);
        }
    }
}

proof fn lemma_run_464()
    ensures
        codes_from(464, seq![Key::Function]),
{
    assert forall|i: int| 0 <= i < 1 implies key_for_code((464 + i) as u16) == seq![Key::Function][i] by {
        if i == 0 {
            lemma_key_for_code_of(Key::Function, 464u16);
        }
    }
}

} // verus!
