//! macOS Core Graphics keycode to [`Key`] mapping.
//!
//! Source: Apple's `HIToolbox/Events.h` (`kVK_*` constants).

use vstd::prelude::*;

use crate::key::{Key, RawCode};

verus! {

// Letters
pub const KEY_A: u32 = 0;
pub const KEY_S: u32 = 1;
pub const KEY_D: u32 = 2;
pub const KEY_F: u32 = 3;
pub const KEY_H: u32 = 4;
pub const KEY_G: u32 = 5;
pub const KEY_Z: u32 = 6;
pub const KEY_X: u32 = 7;
pub const KEY_C: u32 = 8;
pub const KEY_V: u32 = 9;
pub const KEY_B: u32 = 11;
pub const KEY_Q: u32 = 12;
pub const KEY_W: u32 = 13;
pub const KEY_E: u32 = 14;
pub const KEY_R: u32 = 15;
pub const KEY_Y: u32 = 16;
pub const KEY_T: u32 = 17;
pub const KEY_U: u32 = 32;
pub const KEY_I: u32 = 34;
pub const KEY_O: u32 = 31;
pub const KEY_P: u32 = 35;
pub const KEY_J: u32 = 38;
pub const KEY_K: u32 = 40;
pub const KEY_L: u32 = 37;
pub const KEY_N: u32 = 45;
pub const KEY_M: u32 = 46;

// Digits (top row)
pub const DIGIT_0: u32 = 29;
pub const DIGIT_1: u32 = 18;
pub const DIGIT_2: u32 = 19;
pub const DIGIT_3: u32 = 20;
pub const DIGIT_4: u32 = 21;
pub const DIGIT_5: u32 = 23;
pub const DIGIT_6: u32 = 22;
pub const DIGIT_7: u32 = 26;
pub const DIGIT_8: u32 = 28;
pub const DIGIT_9: u32 = 25;

// Punctuation
pub const MINUS: u32 = 27;
pub const EQUAL: u32 = 24;
pub const BRACKET_LEFT: u32 = 33;
pub const BRACKET_RIGHT: u32 = 30;
pub const BACKSLASH: u32 = 42;
pub const SEMICOLON: u32 = 41;
pub const QUOTE: u32 = 39;
pub const COMMA: u32 = 43;
pub const PERIOD: u32 = 47;
pub const SLASH: u32 = 44;
pub const BACKTICK: u32 = 50;

// Modifiers (left/right distinguished)
pub const SHIFT_LEFT: u32 = 56;
pub const SHIFT_RIGHT: u32 = 60;
pub const CONTROL_LEFT: u32 = 59;
pub const CONTROL_RIGHT: u32 = 62;
pub const ALT_LEFT: u32 = 58;
pub const ALT_RIGHT: u32 = 61;
pub const META_LEFT: u32 = 55;
pub const META_RIGHT: u32 = 54;
pub const CAPS_LOCK: u32 = 57;

// Editing / navigation
pub const RETURN: u32 = 36;
pub const TAB: u32 = 48;
pub const SPACE: u32 = 49;
pub const BACKSPACE: u32 = 51;
pub const ESCAPE: u32 = 53;

// Arrows
pub const ARROW_LEFT: u32 = 123;
pub const ARROW_RIGHT: u32 = 124;
pub const ARROW_DOWN: u32 = 125;
pub const ARROW_UP: u32 = 126;

// Navigation
pub const HOME: u32 = 115;
pub const PAGE_UP: u32 = 116;
pub const DELETE: u32 = 117;
pub const END: u32 = 119;
pub const PAGE_DOWN: u32 = 121;

// Function row
pub const F1: u32 = 122;
pub const F2: u32 = 120;
pub const F3: u32 = 99;
pub const F4: u32 = 118;
pub const F5: u32 = 96;
pub const F6: u32 = 97;
pub const F7: u32 = 98;
pub const F8: u32 = 100;
pub const F9: u32 = 101;
pub const F10: u32 = 109;
pub const F11: u32 = 103;
pub const F12: u32 = 111;
pub const F13: u32 = 105;
pub const F14: u32 = 107;
pub const F15: u32 = 113;
pub const F16: u32 = 106;
pub const F17: u32 = 64;
pub const F18: u32 = 79;
pub const F19: u32 = 80;
pub const F20: u32 = 90;
// F21-F24 have no kVK_* constants on Apple keyboards.

// ISO / layout extras
pub const ISO_SECTION: u32 = 10; // kVK_ISO_Section - physical key between LShift and Z on ISO
pub const FUNCTION: u32 = 63; // kVK_Function - macOS Fn

// Numpad
pub const NUMPAD_DECIMAL: u32 = 65;
pub const NUMPAD_MULTIPLY: u32 = 67;
pub const NUMPAD_ADD: u32 = 69;
pub const NUM_LOCK: u32 = 71; // kVK_ANSI_KeypadClear - maps to NumLock
pub const NUMPAD_DIVIDE: u32 = 75;
pub const NUMPAD_ENTER: u32 = 76;
pub const NUMPAD_SUBTRACT: u32 = 78;
pub const NUMPAD_0: u32 = 82;
pub const NUMPAD_1: u32 = 83;
pub const NUMPAD_2: u32 = 84;
pub const NUMPAD_3: u32 = 85;
pub const NUMPAD_4: u32 = 86;
pub const NUMPAD_5: u32 = 87;
pub const NUMPAD_6: u32 = 88;
pub const NUMPAD_7: u32 = 89;
pub const NUMPAD_8: u32 = 91;
pub const NUMPAD_9: u32 = 92;

/// The `kVK_*` virtual keycode of each key this table names; `None` for
/// keys without one.
pub open spec fn mac_code(key: Key) -> Option<u32> {
    match key {
        Key::A => Some(KEY_A),
        Key::B => Some(KEY_B),
        Key::C => Some(KEY_C),
        Key::D => Some(KEY_D),
        Key::E => Some(KEY_E),
        Key::F => Some(KEY_F),
        Key::G => Some(KEY_G),
        Key::H => Some(KEY_H),
        Key::I => Some(KEY_I),
        Key::J => Some(KEY_J),
        Key::K => Some(KEY_K),
        Key::L => Some(KEY_L),
        Key::M => Some(KEY_M),
        Key::N => Some(KEY_N),
        Key::O => Some(KEY_O),
        Key::P => Some(KEY_P),
        Key::Q => Some(KEY_Q),
        Key::R => Some(KEY_R),
        Key::S => Some(KEY_S),
        Key::T => Some(KEY_T),
        Key::U => Some(KEY_U),
        Key::V => Some(KEY_V),
        Key::W => Some(KEY_W),
        Key::X => Some(KEY_X),
        Key::Y => Some(KEY_Y),
        Key::Z => Some(KEY_Z),
        Key::Digit0 => Some(DIGIT_0),
        Key::Digit1 => Some(DIGIT_1),
        Key::Digit2 => Some(DIGIT_2),
        Key::Digit3 => Some(DIGIT_3),
        Key::Digit4 => Some(DIGIT_4),
        Key::Digit5 => Some(DIGIT_5),
        Key::Digit6 => Some(DIGIT_6),
        Key::Digit7 => Some(DIGIT_7),
        Key::Digit8 => Some(DIGIT_8),
        Key::Digit9 => Some(DIGIT_9),
        Key::Minus => Some(MINUS),
        Key::Equal => Some(EQUAL),
        Key::BracketLeft => Some(BRACKET_LEFT),
        Key::BracketRight => Some(BRACKET_RIGHT),
        Key::Backslash => Some(BACKSLASH),
        Key::Semicolon => Some(SEMICOLON),
        Key::Quote => Some(QUOTE),
        Key::Comma => Some(COMMA),
        Key::Period => Some(PERIOD),
        Key::Slash => Some(SLASH),
        Key::Backtick => Some(BACKTICK),
        Key::ShiftLeft => Some(SHIFT_LEFT),
        Key::ShiftRight => Some(SHIFT_RIGHT),
        Key::ControlLeft => Some(CONTROL_LEFT),
        Key::ControlRight => Some(CONTROL_RIGHT),
        Key::AltLeft => Some(ALT_LEFT),
        Key::AltRight => Some(ALT_RIGHT),
        Key::MetaLeft => Some(META_LEFT),
        Key::MetaRight => Some(META_RIGHT),
        Key::CapsLock => Some(CAPS_LOCK),
        Key::Enter => Some(RETURN),
        Key::Tab => Some(TAB),
        Key::Space => Some(SPACE),
        Key::Backspace => Some(BACKSPACE),
        Key::Escape => Some(ESCAPE),
        Key::ArrowLeft => Some(ARROW_LEFT),
        Key::ArrowRight => Some(ARROW_RIGHT),
        Key::ArrowDown => Some(ARROW_DOWN),
        Key::ArrowUp => Some(ARROW_UP),
        Key::Home => Some(HOME),
        Key::End => Some(END),
        Key::PageUp => Some(PAGE_UP),
        Key::PageDown => Some(PAGE_DOWN),
        Key::Delete => Some(DELETE),
        Key::F1 => Some(F1),
        Key::F2 => Some(F2),
        Key::F3 => Some(F3),
        Key::F4 => Some(F4),
        Key::F5 => Some(F5),
        Key::F6 => Some(F6),
        Key::F7 => Some(F7),
        Key::F8 => Some(F8),
        Key::F9 => Some(F9),
        Key::F10 => Some(F10),
        Key::F11 => Some(F11),
        Key::F12 => Some(F12),
        Key::F13 => Some(F13),
        Key::F14 => Some(F14),
        Key::F15 => Some(F15),
        Key::F16 => Some(F16),
        Key::F17 => Some(F17),
        Key::F18 => Some(F18),
        Key::F19 => Some(F19),
        Key::F20 => Some(F20),
        Key::Numpad0 => Some(NUMPAD_0),
        Key::Numpad1 => Some(NUMPAD_1),
        Key::Numpad2 => Some(NUMPAD_2),
        Key::Numpad3 => Some(NUMPAD_3),
        Key::Numpad4 => Some(NUMPAD_4),
        Key::Numpad5 => Some(NUMPAD_5),
        Key::Numpad6 => Some(NUMPAD_6),
        Key::Numpad7 => Some(NUMPAD_7),
        Key::Numpad8 => Some(NUMPAD_8),
        Key::Numpad9 => Some(NUMPAD_9),
        Key::NumpadAdd => Some(NUMPAD_ADD),
        Key::NumpadSubtract => Some(NUMPAD_SUBTRACT),
        Key::NumpadMultiply => Some(NUMPAD_MULTIPLY),
        Key::NumpadDivide => Some(NUMPAD_DIVIDE),
        Key::NumpadEnter => Some(NUMPAD_ENTER),
        Key::NumpadDecimal => Some(NUMPAD_DECIMAL),
        Key::NumLock => Some(NUM_LOCK),
        Key::IntlBackslash => Some(ISO_SECTION),
        Key::Function => Some(FUNCTION),
        _ => None,
    }
}

/// The key a CGEventTap keycode stands for: the named key with that code,
/// or `Unknown` carrying the raw code.
pub open spec fn key_for_code(code: u32) -> Key {
    if exists|k: Key| mac_code(k) == Some(code) {
        choose|k: Key| mac_code(k) == Some(code)
    } else {
        Key::Unknown(RawCode(code))
    }
}

/// Maps a CGEventTap keycode to a [`Key`]. Unknown codes round-trip via
/// [`Key::Unknown`].
pub fn key_from_code(code: u32) -> (key: Key)
    ensures
        key == key_for_code(code),
        key.is_named() ==> mac_code(key) == Some(code),
        forall|k: Key| mac_code(k) == Some(code) ==> key == k,
{
    let key = match code {
        KEY_A => Key::A,
        KEY_B => Key::B,
        KEY_C => Key::C,
        KEY_D => Key::D,
        KEY_E => Key::E,
        KEY_F => Key::F,
        KEY_G => Key::G,
        KEY_H => Key::H,
        KEY_I => Key::I,
        KEY_J => Key::J,
        KEY_K => Key::K,
        KEY_L => Key::L,
        KEY_M => Key::M,
        KEY_N => Key::N,
        KEY_O => Key::O,
        KEY_P => Key::P,
        KEY_Q => Key::Q,
        KEY_R => Key::R,
        KEY_S => Key::S,
        KEY_T => Key::T,
        KEY_U => Key::U,
        KEY_V => Key::V,
        KEY_W => Key::W,
        KEY_X => Key::X,
        KEY_Y => Key::Y,
        KEY_Z => Key::Z,
        DIGIT_0 => Key::Digit0,
        DIGIT_1 => Key::Digit1,
        DIGIT_2 => Key::Digit2,
        DIGIT_3 => Key::Digit3,
        DIGIT_4 => Key::Digit4,
        DIGIT_5 => Key::Digit5,
        DIGIT_6 => Key::Digit6,
        DIGIT_7 => Key::Digit7,
        DIGIT_8 => Key::Digit8,
        DIGIT_9 => Key::Digit9,
        MINUS => Key::Minus,
        EQUAL => Key::Equal,
        BRACKET_LEFT => Key::BracketLeft,
        BRACKET_RIGHT => Key::BracketRight,
        BACKSLASH => Key::Backslash,
        SEMICOLON => Key::Semicolon,
        QUOTE => Key::Quote,
        COMMA => Key::Comma,
        PERIOD => Key::Period,
        SLASH => Key::Slash,
        BACKTICK => Key::Backtick,
        SHIFT_LEFT => Key::ShiftLeft,
        SHIFT_RIGHT => Key::ShiftRight,
        CONTROL_LEFT => Key::ControlLeft,
        CONTROL_RIGHT => Key::ControlRight,
        ALT_LEFT => Key::AltLeft,
        ALT_RIGHT => Key::AltRight,
        META_LEFT => Key::MetaLeft,
        META_RIGHT => Key::MetaRight,
        CAPS_LOCK => Key::CapsLock,
        RETURN => Key::Enter,
        TAB => Key::Tab,
        SPACE => Key::Space,
        BACKSPACE => Key::Backspace,
        ESCAPE => Key::Escape,
        ARROW_LEFT => Key::ArrowLeft,
        ARROW_RIGHT => Key::ArrowRight,
        ARROW_DOWN => Key::ArrowDown,
        ARROW_UP => Key::ArrowUp,
        HOME => Key::Home,
        END => Key::End,
        PAGE_UP => Key::PageUp,
        PAGE_DOWN => Key::PageDown,
        DELETE => Key::Delete,
        F1 => Key::F1,
        F2 => Key::F2,
        F3 => Key::F3,
        F4 => Key::F4,
        F5 => Key::F5,
        F6 => Key::F6,
        F7 => Key::F7,
        F8 => Key::F8,
        F9 => Key::F9,
        F10 => Key::F10,
        F11 => Key::F11,
        F12 => Key::F12,
        F13 => Key::F13,
        F14 => Key::F14,
        F15 => Key::F15,
        F16 => Key::F16,
        F17 => Key::F17,
        F18 => Key::F18,
        F19 => Key::F19,
        F20 => Key::F20,
        NUMPAD_0 => Key::Numpad0,
        NUMPAD_1 => Key::Numpad1,
        NUMPAD_2 => Key::Numpad2,
        NUMPAD_3 => Key::Numpad3,
        NUMPAD_4 => Key::Numpad4,
        NUMPAD_5 => Key::Numpad5,
        NUMPAD_6 => Key::Numpad6,
        NUMPAD_7 => Key::Numpad7,
        NUMPAD_8 => Key::Numpad8,
        NUMPAD_9 => Key::Numpad9,
        NUMPAD_ADD => Key::NumpadAdd,
        NUMPAD_SUBTRACT => Key::NumpadSubtract,
        NUMPAD_MULTIPLY => Key::NumpadMultiply,
        NUMPAD_DIVIDE => Key::NumpadDivide,
        NUMPAD_ENTER => Key::NumpadEnter,
        NUMPAD_DECIMAL => Key::NumpadDecimal,
        NUM_LOCK => Key::NumLock,
        ISO_SECTION => Key::IntlBackslash,
        FUNCTION => Key::Function,
        other => Key::Unknown(RawCode(other)),
    };
    proof {
        if key.is_named() {
            assert(mac_code(key) == Some(code));
        }
    }
    key
}

/// Distinct keys have distinct codes in the table.
pub proof fn lemma_mac_code_injective(a: Key, b: Key)
    requires
        mac_code(a) is Some,
        mac_code(a) == mac_code(b),
    ensures
        a == b,
{
}

/// The key for a code is the key the table gives that code.
pub proof fn lemma_key_for_code_of(k: Key, c: u32)
    requires
        mac_code(k) == Some(c),
    ensures
        key_for_code(c) == k,
{
    let w = choose|w: Key| mac_code(w) == Some(c);
    lemma_mac_code_injective(w, k);
}

/// `keys` are the keys of consecutive `kVK_*` codes from `start` on, in
/// order.
pub open spec fn codes_from(start: int, keys: Seq<Key>) -> bool {
    forall|i: int| 0 <= i < keys.len() ==> key_for_code((start + i) as u32) == keys[i]
}

/// The table agrees with `HIToolbox/Events.h`: each run of consecutive
/// `kVK_*` codes stands for these keys in this order (for example
/// `kVK_ANSI_A` = 0, `kVK_ANSI_6` = 22, `kVK_ANSI_5` = 23, `kVK_Option` =
/// 58, `kVK_RightOption` = 61).
pub proof fn lemma_kvk_layout()
    ensures
        codes_from(0, seq![Key::A, Key::S, Key::D, Key::F, Key::H, Key::G, Key::Z, Key::X, Key::C, Key::V, Key::IntlBackslash, Key::B]),
        codes_from(12, seq![Key::Q, Key::W, Key::E, Key::R, Key::Y, Key::T, Key::Digit1, Key::Digit2, Key::Digit3, Key::Digit4, Key::Digit6, Key::Digit5]),
        codes_from(24, seq![Key::Equal, Key::Digit9, Key::Digit7, Key::Minus, Key::Digit8, Key::Digit0, Key::BracketRight, Key::O, Key::U, Key::BracketLeft, Key::I, Key::P]),
        codes_from(36, seq![Key::Enter, Key::L, Key::J, Key::Quote, Key::K, Key::Semicolon, Key::Backslash, Key::Comma, Key::Slash, Key::N, Key::M, Key::Period]),
        codes_from(48, seq![Key::Tab, Key::Space, Key::Backtick, Key::Backspace]),
        codes_from(53, seq![Key::Escape, Key::MetaRight, Key::MetaLeft, Key::ShiftLeft, Key::CapsLock, Key::AltLeft, Key::ControlLeft, Key::ShiftRight, Key::AltRight, Key::ControlRight, Key::Function, Key::F17]),
        codes_from(65, seq![Key::NumpadDecimal]),
        codes_from(67, seq![Key::NumpadMultiply]),
        codes_from(69, seq![Key::NumpadAdd]),
        codes_from(71, seq![Key::NumLock]),
        codes_from(75, seq![Key::NumpadDivide, Key::NumpadEnter]),
        codes_from(78, seq![Key::NumpadSubtract, Key::F18, Key::F19]),
        codes_from(82, seq![Key::Numpad0, Key::Numpad1, Key::Numpad2, Key::Numpad3, Key::Numpad4, Key::Numpad5, Key::Numpad6, Key::Numpad7, Key::F20, Key::Numpad8, Key::Numpad9]),
        codes_from(96, seq![Key::F5, Key::F6, Key::F7, Key::F3, Key::F8, Key::F9]),
        codes_from(103, seq![Key::F11]),
        codes_from(105, seq![Key::F13, Key::F16, Key::F14]),
        codes_from(109, seq![Key::F10]),
        codes_from(111, seq![Key::F12]),
        codes_from(113, seq![Key::F15]),
        codes_from(115, seq![Key::Home, Key::PageUp, Key::Delete, Key::F4, Key::End, Key::F2, Key::PageDown, Key::F1, Key::ArrowLeft, Key::ArrowRight, Key::ArrowDown, Key::ArrowUp]),
{
    lemma_run_0();
    lemma_run_12();
    lemma_run_24();
    lemma_run_36();
    lemma_run_48();
    lemma_run_53();
    lemma_run_65();
    lemma_run_67();
    lemma_run_69();
    lemma_run_71();
    lemma_run_75();
    lemma_run_78();
    lemma_run_82();
    lemma_run_96();
    lemma_run_103();
    lemma_run_105();
    lemma_run_109();
    lemma_run_111();
    lemma_run_113();
    lemma_run_115();
}

proof fn lemma_run_0()
    ensures
        codes_from(0, seq![Key::A, Key::S, Key::D, Key::F, Key::H, Key::G, Key::Z, Key::X, Key::C, Key::V, Key::IntlBackslash, Key::B]),
{
    assert forall|i: int| 0 <= i < 12 implies key_for_code((0 + i) as u32) == seq![Key::A, Key::S, Key::D, Key::F, Key::H, Key::G, Key::Z, Key::X, Key::C, Key::V, Key::IntlBackslash, Key::B][i] by {
        if i == 0 {
            lemma_key_for_code_of(Key::A, 0u32);
        } else if i == 1 {
            lemma_key_for_code_of(Key::S, 1u32);
        } else if i == 2 {
            lemma_key_for_code_of(Key::D, 2u32);
        } else if i == 3 {
            lemma_key_for_code_of(Key::F, 3u32);
        } else if i == 4 {
            lemma_key_for_code_of(Key::H, 4u32);
        } else if i == 5 {
            lemma_key_for_code_of(Key::G, 5u32);
        } else if i == 6 {
            lemma_key_for_code_of(Key::Z, 6u32);
        } else if i == 7 {
            lemma_key_for_code_of(Key::X, 7u32);
        } else if i == 8 {
            lemma_key_for_code_of(Key::C, 8u32);
        } else if i == 9 {
            lemma_key_for_code_of(Key::V, 9u32);
        } else if i == 10 {
            lemma_key_for_code_of(Key::IntlBackslash, 10u32);
        } else if i == 11 {
            lemma_key_for_code_of(Key::B, 11u32);
        }
    }
}

proof fn lemma_run_12()
    ensures
        codes_from(12, seq![Key::Q, Key::W, Key::E, Key::R, Key::Y, Key::T, Key::Digit1, Key::Digit2, Key::Digit3, Key::Digit4, Key::Digit6, Key::Digit5]),
{
    assert forall|i: int| 0 <= i < 12 implies key_for_code((12 + i) as u32) == seq![Key::Q, Key::W, Key::E, Key::R, Key::Y, Key::T, Key::Digit1, Key::Digit2, Key::Digit3, Key::Digit4, Key::Digit6, Key::Digit5][i] by {
        if i == 0 {
            lemma_key_for_code_of(Key::Q, 12u32);
        } else if i == 1 {
            lemma_key_for_code_of(Key::W, 13u32);
        } else if i == 2 {
            lemma_key_for_code_of(Key::E, 14u32);
        } else if i == 3 {
            lemma_key_for_code_of(Key::R, 15u32);
        } else if i == 4 {
            lemma_key_for_code_of(Key::Y, 16u32);
        } else if i == 5 {
            lemma_key_for_code_of(Key::T, 17u32);
        } else if i == 6 {
            lemma_key_for_code_of(Key::Digit1, 18u32);
        } else if i == 7 {
            lemma_key_for_code_of(Key::Digit2, 19u32);
        } else if i == 8 {
            lemma_key_for_code_of(Key::Digit3, 20u32);
        } else if i == 9 {
            lemma_key_for_code_of(Key::Digit4, 21u32);
        } else if i == 10 {
            lemma_key_for_code_of(Key::Digit6, 22u32);
        } else if i == 11 {
            lemma_key_for_code_of(Key::Digit5, 23u32);
        }
    }
}

proof fn lemma_run_24()
    ensures
        codes_from(24, seq![Key::Equal, Key::Digit9, Key::Digit7, Key::Minus, Key::Digit8, Key::Digit0, Key::BracketRight, Key::O, Key::U, Key::BracketLeft, Key::I, Key::P]),
{
    assert forall|i: int| 0 <= i < 12 implies key_for_code((24 + i) as u32) == seq![Key::Equal, Key::Digit9, Key::Digit7, Key::Minus, Key::Digit8, Key::Digit0, Key::BracketRight, Key::O, Key::U, Key::BracketLeft, Key::I, Key::P][i] by {
        if i == 0 {
            lemma_key_for_code_of(Key::Equal, 24u32);
        } else if i == 1 {
            lemma_key_for_code_of(Key::Digit9, 25u32);
        } else if i == 2 {
            lemma_key_for_code_of(Key::Digit7, 26u32);
        } else if i == 3 {
            lemma_key_for_code_of(Key::Minus, 27u32);
        } else if i == 4 {
            lemma_key_for_code_of(Key::Digit8, 28u32);
        } else if i == 5 {
            lemma_key_for_code_of(Key::Digit0, 29u32);
        } else if i == 6 {
            lemma_key_for_code_of(Key::BracketRight, 30u32);
        } else if i == 7 {
            lemma_key_for_code_of(Key::O, 31u32);
        } else if i == 8 {
            lemma_key_for_code_of(Key::U, 32u32);
        } else if i == 9 {
            lemma_key_for_code_of(Key::BracketLeft, 33u32);
        } else if i == 10 {
            lemma_key_for_code_of(Key::I, 34u32);
        } else if i == 11 {
            lemma_key_for_code_of(Key::P, 35u32);
        }
    }
}

proof fn lemma_run_36()
    ensures
        codes_from(36, seq![Key::Enter, Key::L, Key::J, Key::Quote, Key::K, Key::Semicolon, Key::Backslash, Key::Comma, Key::Slash, Key::N, Key::M, Key::Period]),
{
    assert forall|i: int| 0 <= i < 12 implies key_for_code((36 + i) as u32) == seq![Key::Enter, Key::L, Key::J, Key::Quote, Key::K, Key::Semicolon, Key::Backslash, Key::Comma, Key::Slash, Key::N, Key::M, Key::Period][i] by {
        if i == 0 {
            lemma_key_for_code_of(Key::Enter, 36u32);
        } else if i == 1 {
            lemma_key_for_code_of(Key::L, 37u32);
        } else if i == 2 {
            lemma_key_for_code_of(Key::J, 38u32);
        } else if i == 3 {
            lemma_key_for_code_of(Key::Quote, 39u32);
        } else if i == 4 {
            lemma_key_for_code_of(Key::K, 40u32);
        } else if i == 5 {
            lemma_key_for_code_of(Key::Semicolon, 41u32);
        } else if i == 6 {
            lemma_key_for_code_of(Key::Backslash, 42u32);
        } else if i == 7 {
            lemma_key_for_code_of(Key::Comma, 43u32);
        } else if i == 8 {
            lemma_key_for_code_of(Key::Slash, 44u32);
        } else if i == 9 {
            lemma_key_for_code_of(Key::N, 45u32);
        } else if i == 10 {
            lemma_key_for_code_of(Key::M, 46u32);
        } else if i == 11 {
            lemma_key_for_code_of(Key::Period, 47u32);
        }
    }
}

proof fn lemma_run_48()
    ensures
        codes_from(48, seq![Key::Tab, Key::Space, Key::Backtick, Key::Backspace]),
{
    assert forall|i: int| 0 <= i < 4 implies key_for_code((48 + i) as u32) == seq![Key::Tab, Key::Space, Key::Backtick, Key::Backspace][i] by {
        if i == 0 {
            lemma_key_for_code_of(Key::Tab, 48u32);
        } else if i == 1 {
            lemma_key_for_code_of(Key::Space, 49u32);
        } else if i == 2 {
            lemma_key_for_code_of(Key::Backtick, 50u32);
        } else if i == 3 {
            lemma_key_for_code_of(Key::Backspace, 51u32);
        }
    }
}

proof fn lemma_run_53()
    ensures
        codes_from(53, seq![Key::Escape, Key::MetaRight, Key::MetaLeft, Key::ShiftLeft, Key::CapsLock, Key::AltLeft, Key::ControlLeft, Key::ShiftRight, Key::AltRight, Key::ControlRight, Key::Function, Key::F17]),
{
    assert forall|i: int| 0 <= i < 12 implies key_for_code((53 + i) as u32) == seq![Key::Escape, Key::MetaRight, Key::MetaLeft, Key::ShiftLeft, Key::CapsLock, Key::AltLeft, Key::ControlLeft, Key::ShiftRight, Key::AltRight, Key::ControlRight, Key::Function, Key::F17][i] by {
        if i == 0 {
            lemma_key_for_code_of(Key::Escape, 53u32);
        } else if i == 1 {
            lemma_key_for_code_of(Key::MetaRight, 54u32);
        } else if i == 2 {
            lemma_key_for_code_of(Key::MetaLeft, 55u32);
        } else if i == 3 {
            lemma_key_for_code_of(Key::ShiftLeft, 56u32);
        } else if i == 4 {
            lemma_key_for_code_of(Key::CapsLock, 57u32);
        } else if i == 5 {
            lemma_key_for_code_of(Key::AltLeft, 58u32);
        } else if i == 6 {
            lemma_key_for_code_of(Key::ControlLeft, 59u32);
        } else if i == 7 {
            lemma_key_for_code_of(Key::ShiftRight, 60u32);
        } else if i == 8 {
            lemma_key_for_code_of(Key::AltRight, 61u32);
        } else if i == 9 {
            lemma_key_for_code_of(Key::ControlRight, 62u32);
        } else if i == 10 {
            lemma_key_for_code_of(Key::Function, 63u32);
        } else if i == 11 {
            lemma_key_for_code_of(Key::F17, 64u32);
        }
    }
}

proof fn lemma_run_65()
    ensures
        codes_from(65, seq![Key::NumpadDecimal]),
{
    assert forall|i: int| 0 <= i < 1 implies key_for_code((65 + i) as u32) == seq![Key::NumpadDecimal][i] by {
        if i == 0 {
            lemma_key_for_code_of(Key::NumpadDecimal, 65u32);
        }
    }
}

proof fn lemma_run_67()
    ensures
        codes_from(67, seq![Key::NumpadMultiply]),
{
    assert forall|i: int| 0 <= i < 1 implies key_for_code((67 + i) as u32) == seq![Key::NumpadMultiply][i] by {
        if i == 0 {
            lemma_key_for_code_of(Key::NumpadMultiply, 67u32);
        }
    }
}

proof fn lemma_run_69()
    ensures
        codes_from(69, seq![Key::NumpadAdd]),
{
    assert forall|i: int| 0 <= i < 1 implies key_for_code((69 + i) as u32) == seq![Key::NumpadAdd][i] by {
        if i == 0 {
            lemma_key_for_code_of(Key::NumpadAdd, 69u32);
        }
    }
}

proof fn lemma_run_71()
    ensures
        codes_from(71, seq![Key::NumLock]),
{
    assert forall|i: int| 0 <= i < 1 implies key_for_code((71 + i) as u32) == seq![Key::NumLock][i] by {
        if i == 0 {
            lemma_key_for_code_of(Key::NumLock, 71u32);
        }
    }
}

proof fn lemma_run_75()
    ensures
        codes_from(75, seq![Key::NumpadDivide, Key::NumpadEnter]),
{
    assert forall|i: int| 0 <= i < 2 implies key_for_code((75 + i) as u32) == seq![Key::NumpadDivide, Key::NumpadEnter][i] by {
        if i == 0 {
            lemma_key_for_code_of(Key::NumpadDivide, 75u32);
        } else if i == 1 {
            lemma_key_for_code_of(Key::NumpadEnter, 76u32);
        }
    }
}

proof fn lemma_run_78()
    ensures
        codes_from(78, seq![Key::NumpadSubtract, Key::F18, Key::F19]),
{
    assert forall|i: int| 0 <= i < 3 implies key_for_code((78 + i) as u32) == seq![Key::NumpadSubtract, Key::F18, Key::F19][i] by {
        if i == 0 {
            lemma_key_for_code_of(Key::NumpadSubtract, 78u32);
        } else if i == 1 {
            lemma_key_for_code_of(Key::F18, 79u32);
        } else if i == 2 {
            lemma_key_for_code_of(Key::F19, 80u32);
        }
    }
}

proof fn lemma_run_82()
    ensures
        codes_from(82, seq![Key::Numpad0, Key::Numpad1, Key::Numpad2, Key::Numpad3, Key::Numpad4, Key::Numpad5, Key::Numpad6, Key::Numpad7, Key::F20, Key::Numpad8, Key::Numpad9]),
{
    assert forall|i: int| 0 <= i < 11 implies key_for_code((82 + i) as u32) == seq![Key::Numpad0, Key::Numpad1, Key::Numpad2, Key::Numpad3, Key::Numpad4, Key::Numpad5, Key::Numpad6, Key::Numpad7, Key::F20, Key::Numpad8, Key::Numpad9][i] by {
        if i == 0 {
            lemma_key_for_code_of(Key::Numpad0, 82u32);
        } else if i == 1 {
            lemma_key_for_code_of(Key::Numpad1, 83u32);
        } else if i == 2 {
            lemma_key_for_code_of(Key::Numpad2, 84u32);
        } else if i == 3 {
            lemma_key_for_code_of(Key::Numpad3, 85u32);
        } else if i == 4 {
            lemma_key_for_code_of(Key::Numpad4, 86u32);
        } else if i == 5 {
            lemma_key_for_code_of(Key::Numpad5, 87u32);
        } else if i == 6 {
            lemma_key_for_code_of(Key::Numpad6, 88u32);
        } else if i == 7 {
            lemma_key_for_code_of(Key::Numpad7, 89u32);
        } else if i == 8 {
            lemma_key_for_code_of(Key::F20, 90u32);
        } else if i == 9 {
            lemma_key_for_code_of(Key::Numpad8, 91u32);
        } else if i == 10 {
            lemma_key_for_code_of(Key::Numpad9, 92u32);
        }
    }
}

proof fn lemma_run_96()
    ensures
        codes_from(96, seq![Key::F5, Key::F6, Key::F7, Key::F3, Key::F8, Key::F9]),
{
    assert forall|i: int| 0 <= i < 6 implies key_for_code((96 + i) as u32) == seq![Key::F5, Key::F6, Key::F7, Key::F3, Key::F8, Key::F9][i] by {
        if i == 0 {
            lemma_key_for_code_of(Key::F5, 96u32);
        } else if i == 1 {
            lemma_key_for_code_of(Key::F6, 97u32);
        } else if i == 2 {
            lemma_key_for_code_of(Key::F7, 98u32);
        } else if i == 3 {
            lemma_key_for_code_of(Key::F3, 99u32);
        } else if i == 4 {
            lemma_key_for_code_of(Key::F8, 100u32);
        } else if i == 5 {
            lemma_key_for_code_of(Key::F9, 101u32);
        }
    }
}

proof fn lemma_run_103()
    ensures
        codes_from(103, seq![Key::F11]),
{
    assert forall|i: int| 0 <= i < 1 implies key_for_code((103 + i) as u32) == seq![Key::F11][i] by {
        if i == 0 {
            lemma_key_for_code_of(Key::F11, 103u32);
        }
    }
}

proof fn lemma_run_105()
    ensures
        codes_from(105, seq![Key::F13, Key::F16, Key::F14]),
{
    assert forall|i: int| 0 <= i < 3 implies key_for_code((105 + i) as u32) == seq![Key::F13, Key::F16, Key::F14][i] by {
        if i == 0 {
            lemma_key_for_code_of(Key::F13, 105u32);
        } else if i == 1 {
            lemma_key_for_code_of(Key::F16, 106u32);
        } else if i == 2 {
            lemma_key_for_code_of(Key::F14, 107u32);
        }
    }
}

proof fn lemma_run_109()
    ensures
        codes_from(109, seq![Key::F10]),
{
    assert forall|i: int| 0 <= i < 1 implies key_for_code((109 + i) as u32) == seq![Key::F10][i] by {
        if i == 0 {
            lemma_key_for_code_of(Key::F10, 109u32);
        }
    }
}

proof fn lemma_run_111()
    ensures
        codes_from(111, seq![Key::F12]),
{
    assert forall|i: int| 0 <= i < 1 implies key_for_code((111 + i) as u32) == seq![Key::F12][i] by {
        if i == 0 {
            lemma_key_for_code_of(Key::F12, 111u32);
        }
    }
}

proof fn lemma_run_113()
    ensures
        codes_from(113, seq![Key::F15]),
{
    assert forall|i: int| 0 <= i < 1 implies key_for_code((113 + i) as u32) == seq![Key::F15][i] by {
        if i == 0 {
            lemma_key_for_code_of(Key::F15, 113u32);
        }
    }
}

proof fn lemma_run_115()
    ensures
        codes_from(115, seq![Key::Home, Key::PageUp, Key::Delete, Key::F4, Key::End, Key::F2, Key::PageDown, Key::F1, Key::ArrowLeft, Key::ArrowRight, Key::ArrowDown, Key::ArrowUp]),
{
    assert forall|i: int| 0 <= i < 12 implies key_for_code((115 + i) as u32) == seq![Key::Home, Key::PageUp, Key::Delete, Key::F4, Key::End, Key::F2, Key::PageDown, Key::F1, Key::ArrowLeft, Key::ArrowRight, Key::ArrowDown, Key::ArrowUp][i] by {
        if i == 0 {
            lemma_key_for_code_of(Key::Home, 115u32);
        } else if i == 1 {
            lemma_key_for_code_of(Key::PageUp, 116u32);
        } else if i == 2 {
            lemma_key_for_code_of(Key::Delete, 117u32);
        } else if i == 3 {
            lemma_key_for_code_of(Key::F4, 118u32);
        } else if i == 4 {
            lemma_key_for_code_of(Key::End, 119u32);
        } else if i == 5 {
            lemma_key_for_code_of(Key::F2, 120u32);
        } else if i == 6 {
            lemma_key_for_code_of(Key::PageDown, 121u32);
        } else if i == 7 {
            lemma_key_for_code_of(Key::F1, 122u32);
        } else if i == 8 {
            lemma_key_for_code_of(Key::ArrowLeft, 123u32);
        } else if i == 9 {
            lemma_key_for_code_of(Key::ArrowRight, 124u32);
        } else if i == 10 {
            lemma_key_for_code_of(Key::ArrowDown, 125u32);
        } else if i == 11 {
            lemma_key_for_code_of(Key::ArrowUp, 126u32);
        }
    }
}

} // verus!
