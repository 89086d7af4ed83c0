//! Windows virtual-key code to [`Key`] mapping.
//!
//! Source: the Win32 virtual-key code table. Left/right modifiers are
//! already distinguished at the VK level (`VK_LCONTROL` etc.), which the
//! low-level hook delivers directly.

use vstd::prelude::*;

use crate::key::{Key, RawCode};

verus! {

// Modifiers (LL hook delivers L/R directly)
pub const VK_LSHIFT: u32 = 0xA0;
pub const VK_RSHIFT: u32 = 0xA1;
pub const VK_LCONTROL: u32 = 0xA2;
pub const VK_RCONTROL: u32 = 0xA3;
pub const VK_LMENU: u32 = 0xA4;
pub const VK_RMENU: u32 = 0xA5;
pub const VK_LWIN: u32 = 0x5B;
pub const VK_RWIN: u32 = 0x5C;
pub const VK_CAPITAL: u32 = 0x14;

// Editing
pub const VK_BACK: u32 = 0x08;
pub const VK_TAB: u32 = 0x09;
pub const VK_RETURN: u32 = 0x0D;
pub const VK_ESCAPE: u32 = 0x1B;
pub const VK_SPACE: u32 = 0x20;

// Arrows / navigation
pub const VK_LEFT: u32 = 0x25;
pub const VK_UP: u32 = 0x26;
pub const VK_RIGHT: u32 = 0x27;
pub const VK_DOWN: u32 = 0x28;
pub const VK_HOME: u32 = 0x24;
pub const VK_END: u32 = 0x23;
pub const VK_PRIOR: u32 = 0x21;
pub const VK_NEXT: u32 = 0x22;
pub const VK_INSERT: u32 = 0x2D;
pub const VK_DELETE: u32 = 0x2E;

// Misc
pub const VK_SNAPSHOT: u32 = 0x2C;
pub const VK_SCROLL: u32 = 0x91;
pub const VK_PAUSE: u32 = 0x13;
pub const VK_NUMLOCK: u32 = 0x90;
pub const VK_APPS: u32 = 0x5D;

// Digits (top row)
pub const VK_0: u32 = 0x30;
pub const VK_1: u32 = 0x31;
pub const VK_2: u32 = 0x32;
pub const VK_3: u32 = 0x33;
pub const VK_4: u32 = 0x34;
pub const VK_5: u32 = 0x35;
pub const VK_6: u32 = 0x36;
pub const VK_7: u32 = 0x37;
pub const VK_8: u32 = 0x38;
pub const VK_9: u32 = 0x39;

// Letters
pub const VK_A: u32 = 0x41;
pub const VK_B: u32 = 0x42;
pub const VK_C: u32 = 0x43;
pub const VK_D: u32 = 0x44;
pub const VK_E: u32 = 0x45;
pub const VK_F: u32 = 0x46;
pub const VK_G: u32 = 0x47;
pub const VK_H: u32 = 0x48;
pub const VK_I: u32 = 0x49;
pub const VK_J: u32 = 0x4A;
pub const VK_K: u32 = 0x4B;
pub const VK_L: u32 = 0x4C;
pub const VK_M: u32 = 0x4D;
pub const VK_N: u32 = 0x4E;
pub const VK_O: u32 = 0x4F;
pub const VK_P: u32 = 0x50;
pub const VK_Q: u32 = 0x51;
pub const VK_R: u32 = 0x52;
pub const VK_S: u32 = 0x53;
pub const VK_T: u32 = 0x54;
pub const VK_U: u32 = 0x55;
pub const VK_V: u32 = 0x56;
pub const VK_W: u32 = 0x57;
pub const VK_X: u32 = 0x58;
pub const VK_Y: u32 = 0x59;
pub const VK_Z: u32 = 0x5A;

// Function row
pub const VK_F1: u32 = 0x70;
pub const VK_F2: u32 = 0x71;
pub const VK_F3: u32 = 0x72;
pub const VK_F4: u32 = 0x73;
pub const VK_F5: u32 = 0x74;
pub const VK_F6: u32 = 0x75;
pub const VK_F7: u32 = 0x76;
pub const VK_F8: u32 = 0x77;
pub const VK_F9: u32 = 0x78;
pub const VK_F10: u32 = 0x79;
pub const VK_F11: u32 = 0x7A;
pub const VK_F12: u32 = 0x7B;
pub const VK_F13: u32 = 0x7C;
pub const VK_F14: u32 = 0x7D;
pub const VK_F15: u32 = 0x7E;
pub const VK_F16: u32 = 0x7F;
pub const VK_F17: u32 = 0x80;
pub const VK_F18: u32 = 0x81;
pub const VK_F19: u32 = 0x82;
pub const VK_F20: u32 = 0x83;
pub const VK_F21: u32 = 0x84;
pub const VK_F22: u32 = 0x85;
pub const VK_F23: u32 = 0x86;
pub const VK_F24: u32 = 0x87;

// Numpad
pub const VK_NUMPAD0: u32 = 0x60;
pub const VK_NUMPAD1: u32 = 0x61;
pub const VK_NUMPAD2: u32 = 0x62;
pub const VK_NUMPAD3: u32 = 0x63;
pub const VK_NUMPAD4: u32 = 0x64;
pub const VK_NUMPAD5: u32 = 0x65;
pub const VK_NUMPAD6: u32 = 0x66;
pub const VK_NUMPAD7: u32 = 0x67;
pub const VK_NUMPAD8: u32 = 0x68;
pub const VK_NUMPAD9: u32 = 0x69;
pub const VK_MULTIPLY: u32 = 0x6A;
pub const VK_ADD: u32 = 0x6B;
pub const VK_SUBTRACT: u32 = 0x6D;
pub const VK_DECIMAL: u32 = 0x6E;
pub const VK_DIVIDE: u32 = 0x6F;

// Punctuation (OEM codes - US layout)
pub const VK_OEM_1: u32 = 0xBA;
pub const VK_OEM_PLUS: u32 = 0xBB;
pub const VK_OEM_COMMA: u32 = 0xBC;
pub const VK_OEM_MINUS: u32 = 0xBD;
pub const VK_OEM_PERIOD: u32 = 0xBE;
pub const VK_OEM_2: u32 = 0xBF;
pub const VK_OEM_3: u32 = 0xC0;
pub const VK_OEM_4: u32 = 0xDB;
pub const VK_OEM_5: u32 = 0xDC;
pub const VK_OEM_6: u32 = 0xDD;
pub const VK_OEM_7: u32 = 0xDE;
// ISO layout "\\|" between LShift and Z. Not present on ANSI keyboards.
// Windows has no user-visible VK for the macOS Fn key.
pub const VK_OEM_102: u32 = 0xE2;

/// The virtual-key code of each key this table names; `None` for keys
/// without one.
pub open spec fn vk_code(key: Key) -> Option<u32> {
    match key {
        Key::ShiftLeft => Some(VK_LSHIFT),
        Key::ShiftRight => Some(VK_RSHIFT),
        Key::ControlLeft => Some(VK_LCONTROL),
        Key::ControlRight => Some(VK_RCONTROL),
        Key::AltLeft => Some(VK_LMENU),
        Key::AltRight => Some(VK_RMENU),
        Key::MetaLeft => Some(VK_LWIN),
        Key::MetaRight => Some(VK_RWIN),
        Key::CapsLock => Some(VK_CAPITAL),
        Key::Backspace => Some(VK_BACK),
        Key::Tab => Some(VK_TAB),
        Key::Enter => Some(VK_RETURN),
        Key::Escape => Some(VK_ESCAPE),
        Key::Space => Some(VK_SPACE),
        Key::ArrowLeft => Some(VK_LEFT),
        Key::ArrowUp => Some(VK_UP),
        Key::ArrowRight => Some(VK_RIGHT),
        Key::ArrowDown => Some(VK_DOWN),
        Key::Home => Some(VK_HOME),
        Key::End => Some(VK_END),
        Key::PageUp => Some(VK_PRIOR),
        Key::PageDown => Some(VK_NEXT),
        Key::Insert => Some(VK_INSERT),
        Key::Delete => Some(VK_DELETE),
        Key::PrintScreen => Some(VK_SNAPSHOT),
        Key::ScrollLock => Some(VK_SCROLL),
        Key::Pause => Some(VK_PAUSE),
        Key::NumLock => Some(VK_NUMLOCK),
        Key::Menu => Some(VK_APPS),
        Key::Digit0 => Some(VK_0),
        Key::Digit1 => Some(VK_1),
        Key::Digit2 => Some(VK_2),
        Key::Digit3 => Some(VK_3),
        Key::Digit4 => Some(VK_4),
        Key::Digit5 => Some(VK_5),
        Key::Digit6 => Some(VK_6),
        Key::Digit7 => Some(VK_7),
        Key::Digit8 => Some(VK_8),
        Key::Digit9 => Some(VK_9),
        Key::A => Some(VK_A),
        Key::B => Some(VK_B),
        Key::C => Some(VK_C),
        Key::D => Some(VK_D),
        Key::E => Some(VK_E),
        Key::F => Some(VK_F),
        Key::G => Some(VK_G),
        Key::H => Some(VK_H),
        Key::I => Some(VK_I),
        Key::J => Some(VK_J),
        Key::K => Some(VK_K),
        Key::L => Some(VK_L),
        Key::M => Some(VK_M),
        Key::N => Some(VK_N),
        Key::O => Some(VK_O),
        Key::P => Some(VK_P),
        Key::Q => Some(VK_Q),
        Key::R => Some(VK_R),
        Key::S => Some(VK_S),
        Key::T => Some(VK_T),
        Key::U => Some(VK_U),
        Key::V => Some(VK_V),
        Key::W => Some(VK_W),
        Key::X => Some(VK_X),
        Key::Y => Some(VK_Y),
        Key::Z => Some(VK_Z),
        Key::F1 => Some(VK_F1),
        Key::F2 => Some(VK_F2),
        Key::F3 => Some(VK_F3),
        Key::F4 => Some(VK_F4),
        Key::F5 => Some(VK_F5),
        Key::F6 => Some(VK_F6),
        Key::F7 => Some(VK_F7),
        Key::F8 => Some(VK_F8),
        Key::F9 => Some(VK_F9),
        Key::F10 => Some(VK_F10),
        Key::F11 => Some(VK_F11),
        Key::F12 => Some(VK_F12),
        Key::F13 => Some(VK_F13),
        Key::F14 => Some(VK_F14),
        Key::F15 => Some(VK_F15),
        Key::F16 => Some(VK_F16),
        Key::F17 => Some(VK_F17),
        Key::F18 => Some(VK_F18),
        Key::F19 => Some(VK_F19),
        Key::F20 => Some(VK_F20),
        Key::F21 => Some(VK_F21),
        Key::F22 => Some(VK_F22),
        Key::F23 => Some(VK_F23),
        Key::F24 => Some(VK_F24),
        Key::Numpad0 => Some(VK_NUMPAD0),
        Key::Numpad1 => Some(VK_NUMPAD1),
        Key::Numpad2 => Some(VK_NUMPAD2),
        Key::Numpad3 => Some(VK_NUMPAD3),
        Key::Numpad4 => Some(VK_NUMPAD4),
        Key::Numpad5 => Some(VK_NUMPAD5),
        Key::Numpad6 => Some(VK_NUMPAD6),
        Key::Numpad7 => Some(VK_NUMPAD7),
        Key::Numpad8 => Some(VK_NUMPAD8),
        Key::Numpad9 => Some(VK_NUMPAD9),
        Key::NumpadMultiply => Some(VK_MULTIPLY),
        Key::NumpadAdd => Some(VK_ADD),
        Key::NumpadSubtract => Some(VK_SUBTRACT),
        Key::NumpadDecimal => Some(VK_DECIMAL),
        Key::NumpadDivide => Some(VK_DIVIDE),
        Key::Semicolon => Some(VK_OEM_1),
        Key::Equal => Some(VK_OEM_PLUS),
        Key::Comma => Some(VK_OEM_COMMA),
        Key::Minus => Some(VK_OEM_MINUS),
        Key::Period => Some(VK_OEM_PERIOD),
        Key::Slash => Some(VK_OEM_2),
        Key::Backtick => Some(VK_OEM_3),
        Key::BracketLeft => Some(VK_OEM_4),
        Key::Backslash => Some(VK_OEM_5),
        Key::BracketRight => Some(VK_OEM_6),
        Key::Quote => Some(VK_OEM_7),
        Key::IntlBackslash => Some(VK_OEM_102),
        _ => None,
    }
}

/// The key a virtual-key code stands for: the named key with that code, or
/// `Unknown` carrying the raw code.
pub open spec fn key_for_vk(vk: u32) -> Key {
    if exists|k: Key| vk_code(k) == Some(vk) {
        choose|k: Key| vk_code(k) == Some(vk)
    } else {
        Key::Unknown(RawCode(vk))
    }
}

/// Maps a virtual-key code to a [`Key`]. Unknown codes round-trip via
/// [`Key::Unknown`].
pub fn key_from_vk(vk: u32) -> (key: Key)
    ensures
        key == key_for_vk(vk),
        key.is_named() ==> vk_code(key) == Some(vk),
        forall|k: Key| vk_code(k) == Some(vk) ==> key == k,
{
    let key = match vk {
        VK_LSHIFT => Key::ShiftLeft,
        VK_RSHIFT => Key::ShiftRight,
        VK_LCONTROL => Key::ControlLeft,
        VK_RCONTROL => Key::ControlRight,
        VK_LMENU => Key::AltLeft,
        VK_RMENU => Key::AltRight,
        VK_LWIN => Key::MetaLeft,
        VK_RWIN => Key::MetaRight,
        VK_CAPITAL => Key::CapsLock,
        VK_BACK => Key::Backspace,
        VK_TAB => Key::Tab,
        VK_RETURN => Key::Enter,
        VK_ESCAPE => Key::Escape,
        VK_SPACE => Key::Space,
        VK_LEFT => Key::ArrowLeft,
        VK_UP => Key::ArrowUp,
        VK_RIGHT => Key::ArrowRight,
        VK_DOWN => Key::ArrowDown,
        VK_HOME => Key::Home,
        VK_END => Key::End,
        VK_PRIOR => Key::PageUp,
        VK_NEXT => Key::PageDown,
        VK_INSERT => Key::Insert,
        VK_DELETE => Key::Delete,
        VK_SNAPSHOT => Key::PrintScreen,
        VK_SCROLL => Key::ScrollLock,
        VK_PAUSE => Key::Pause,
        VK_NUMLOCK => Key::NumLock,
        VK_APPS => Key::Menu,
        VK_0 => Key::Digit0,
        VK_1 => Key::Digit1,
        VK_2 => Key::Digit2,
        VK_3 => Key::Digit3,
        VK_4 => Key::Digit4,
        VK_5 => Key::Digit5,
        VK_6 => Key::Digit6,
        VK_7 => Key::Digit7,
        VK_8 => Key::Digit8,
        VK_9 => Key::Digit9,
        VK_A => Key::A,
        VK_B => Key::B,
        VK_C => Key::C,
        VK_D => Key::D,
        VK_E => Key::E,
        VK_F => Key::F,
        VK_G => Key::G,
        VK_H => Key::H,
        VK_I => Key::I,
        VK_J => Key::J,
        VK_K => Key::K,
        VK_L => Key::L,
        VK_M => Key::M,
        VK_N => Key::N,
        VK_O => Key::O,
        VK_P => Key::P,
        VK_Q => Key::Q,
        VK_R => Key::R,
        VK_S => Key::S,
        VK_T => Key::T,
        VK_U => Key::U,
        VK_V => Key::V,
        VK_W => Key::W,
        VK_X => Key::X,
        VK_Y => Key::Y,
        VK_Z => Key::Z,
        VK_F1 => Key::F1,
        VK_F2 => Key::F2,
        VK_F3 => Key::F3,
        VK_F4 => Key::F4,
        VK_F5 => Key::F5,
        VK_F6 => Key::F6,
        VK_F7 => Key::F7,
        VK_F8 => Key::F8,
        VK_F9 => Key::F9,
        VK_F10 => Key::F10,
        VK_F11 => Key::F11,
        VK_F12 => Key::F12,
        VK_F13 => Key::F13,
        VK_F14 => Key::F14,
        VK_F15 => Key::F15,
        VK_F16 => Key::F16,
        VK_F17 => Key::F17,
        VK_F18 => Key::F18,
        VK_F19 => Key::F19,
        VK_F20 => Key::F20,
        VK_F21 => Key::F21,
        VK_F22 => Key::F22,
        VK_F23 => Key::F23,
        VK_F24 => Key::F24,
        VK_NUMPAD0 => Key::Numpad0,
        VK_NUMPAD1 => Key::Numpad1,
        VK_NUMPAD2 => Key::Numpad2,
        VK_NUMPAD3 => Key::Numpad3,
        VK_NUMPAD4 => Key::Numpad4,
        VK_NUMPAD5 => Key::Numpad5,
        VK_NUMPAD6 => Key::Numpad6,
        VK_NUMPAD7 => Key::Numpad7,
        VK_NUMPAD8 => Key::Numpad8,
        VK_NUMPAD9 => Key::Numpad9,
        VK_MULTIPLY => Key::NumpadMultiply,
        VK_ADD => Key::NumpadAdd,
        VK_SUBTRACT => Key::NumpadSubtract,
        VK_DECIMAL => Key::NumpadDecimal,
        VK_DIVIDE => Key::NumpadDivide,
        VK_OEM_1 => Key::Semicolon,
        VK_OEM_PLUS => Key::Equal,
        VK_OEM_COMMA => Key::Comma,
        VK_OEM_MINUS => Key::Minus,
        VK_OEM_PERIOD => Key::Period,
        VK_OEM_2 => Key::Slash,
        VK_OEM_3 => Key::Backtick,
        VK_OEM_4 => Key::BracketLeft,
        VK_OEM_5 => Key::Backslash,
        VK_OEM_6 => Key::BracketRight,
        VK_OEM_7 => Key::Quote,
        VK_OEM_102 => Key::IntlBackslash,
        other => Key::Unknown(RawCode(other)),
    };
    proof {
        if key.is_named() {
            assert(vk_code(key) == Some(vk));
        }
    }
    key
}

/// Distinct keys have distinct codes in the table.
pub proof fn lemma_vk_code_injective(a: Key, b: Key)
    requires
        vk_code(a) is Some,
        vk_code(a) == vk_code(b),
    ensures
        a == b,
{
}

/// The key for a code is the key the table gives that code.
pub proof fn lemma_key_for_vk_of(k: Key, c: u32)
    requires
        vk_code(k) == Some(c),
    ensures
        key_for_vk(c) == k,
{
    let w = choose|w: Key| vk_code(w) == Some(c);
    lemma_vk_code_injective(w, k);
}

/// `keys` are the keys of consecutive virtual-key codes from `start` on,
/// in order.
pub open spec fn codes_from(start: int, keys: Seq<Key>) -> bool {
    forall|i: int| 0 <= i < keys.len() ==> key_for_vk((start + i) as u32) == keys[i]
}

/// The table agrees with the Win32 virtual-key code table: letters and
/// digits are their ASCII codes, and each run of consecutive codes stands
/// for these keys in this order (for example `VK_PRIOR` = 0x21 is Page Up,
/// `VK_NEXT` = 0x22 Page Down, `VK_LSHIFT` = 0xA0, `VK_RSHIFT` = 0xA1).
pub proof fn lemma_win32_vk_layout()
    ensures
        codes_from(8, seq![Key::Backspace, Key::Tab]),
        codes_from(13, seq![Key::Enter]),
        codes_from(19, seq![Key::Pause, Key::CapsLock]),
        codes_from(27, seq![Key::Escape]),
        codes_from(32, seq![Key::Space, Key::PageUp, Key::PageDown, Key::End, Key::Home, Key::ArrowLeft, Key::ArrowUp, Key::ArrowRight, Key::ArrowDown]),
        codes_from(44, seq![Key::PrintScreen, Key::Insert, Key::Delete]),
        codes_from(48, seq![Key::Digit0, Key::Digit1, Key::Digit2, Key::Digit3, Key::Digit4, Key::Digit5, Key::Digit6, Key::Digit7, Key::Digit8, Key::Digit9]),
        codes_from(65, seq![Key::A, Key::B, Key::C, Key::D, Key::E, Key::F, Key::G, Key::H, Key::I, Key::J, Key::K, Key::L]),
        codes_from(77, seq![Key::M, Key::N, Key::O, Key::P, Key::Q, Key::R, Key::S, Key::T, Key::U, Key::V, Key::W, Key::X]),
        codes_from(89, seq![Key::Y, Key::Z, Key::MetaLeft, Key::MetaRight, Key::Menu]),
        codes_from(96, seq![Key::Numpad0, Key::Numpad1, Key::Numpad2, Key::Numpad3, Key::Numpad4, Key::Numpad5, Key::Numpad6, Key::Numpad7, Key::Numpad8, Key::Numpad9, Key::NumpadMultiply, Key::NumpadAdd]),
        codes_from(109, seq![Key::NumpadSubtract, Key::NumpadDecimal, Key::NumpadDivide, Key::F1, Key::F2, Key::F3, Key::F4, Key::F5, Key::F6, Key::F7, Key::F8, Key::F9]),
        codes_from(121, seq![Key::F10, Key::F11, Key::F12, Key::F13, Key::F14, Key::F15, Key::F16, Key::F17, Key::F18, Key::F19, Key::F20, Key::F21]),
        codes_from(133, seq![Key::F22, Key::F23, Key::F24]),
        codes_from(144, seq![Key::NumLock, Key::ScrollLock]),
        codes_from(160, seq![Key::ShiftLeft, Key::ShiftRight, Key::ControlLeft, Key::ControlRight, Key::AltLeft, Key::AltRight]),
        codes_from(186, seq![Key::Semicolon, Key::Equal, Key::Comma, Key::Minus, Key::Period, Key::Slash, Key::Backtick]),
        codes_from(219, seq![Key::BracketLeft, Key::Backslash, Key::BracketRight, Key::Quote]),
        codes_from(226, seq![Key::IntlBackslash]),
{
    lemma_run_8();
    lemma_run_13();
    lemma_run_19();
    lemma_run_27();
    lemma_run_32();
    lemma_run_44();
    lemma_run_48();
    lemma_run_65();
    lemma_run_77();
    lemma_run_89();
    lemma_run_96();
    lemma_run_109();
    lemma_run_121();
    lemma_run_133();
    lemma_run_144();
    lemma_run_160();
    lemma_run_186();
    lemma_run_219();
    lemma_run_226();
}

proof fn lemma_run_8()
    ensures
        codes_from(8, seq![Key::Backspace, Key::Tab]),
{
    assert forall|i: int| 0 <= i < 2 implies key_for_vk((8 + i) as u32) == seq![Key::Backspace, Key::Tab][i] by {
        if i == 0 {
            lemma_key_for_vk_of(Key::Backspace, 8u32);
        } else if i == 1 {
            lemma_key_for_vk_of(Key::Tab, 9u32);
        }
    }
}

proof fn lemma_run_13()
    ensures
        codes_from(13, seq![Key::Enter]),
{
    assert forall|i: int| 0 <= i < 1 implies key_for_vk((13 + i) as u32) == seq![Key::Enter][i] by {
        if i == 0 {
            lemma_key_for_vk_of(Key::Enter, 13u32);
        }
    }
}

proof fn lemma_run_19()
    ensures
        codes_from(19, seq![Key::Pause, Key::CapsLock]),
{
    assert forall|i: int| 0 <= i < 2 implies key_for_vk((19 + i) as u32) == seq![Key::Pause, Key::CapsLock][i] by {
        if i == 0 {
            lemma_key_for_vk_of(Key::Pause, 19u32);
        } else if i == 1 {
            lemma_key_for_vk_of(Key::CapsLock, 20u32);
        }
    }
}

proof fn lemma_run_27()
    ensures
        codes_from(27, seq![Key::Escape]),
{
    assert forall|i: int| 0 <= i < 1 implies key_for_vk((27 + i) as u32) == seq![Key::Escape][i] by {
        if i == 0 {
            lemma_key_for_vk_of(Key::Escape, 27u32);
        }
    }
}

proof fn lemma_run_32()
    ensures
        codes_from(32, seq![Key::Space, Key::PageUp, Key::PageDown, Key::End, Key::Home, Key::ArrowLeft, Key::ArrowUp, Key::ArrowRight, Key::ArrowDown]),
{
    assert forall|i: int| 0 <= i < 9 implies key_for_vk((32 + i) as u32) == seq![Key::Space, Key::PageUp, Key::PageDown, Key::End, Key::Home, Key::ArrowLeft, Key::ArrowUp, Key::ArrowRight, Key::ArrowDown][i] by {
        if i == 0 {
            lemma_key_for_vk_of(Key::Space, 32u32);
        } else if i == 1 {
            lemma_key_for_vk_of(Key::PageUp, 33u32);
        } else if i == 2 {
            lemma_key_for_vk_of(Key::PageDown, 34u32);
        } else if i == 3 {
            lemma_key_for_vk_of(Key::End, 35u32);
        } else if i == 4 {
            lemma_key_for_vk_of(Key::Home, 36u32);
        } else if i == 5 {
            lemma_key_for_vk_of(Key::ArrowLeft, 37u32);
        } else if i == 6 {
            lemma_key_for_vk_of(Key::ArrowUp, 38u32);
        } else if i == 7 {
            lemma_key_for_vk_of(Key::ArrowRight, 39u32);
        } else if i == 8 {
            lemma_key_for_vk_of(Key::ArrowDown, 40u32);
        }
    }
}

proof fn lemma_run_44()
    ensures
        codes_from(44, seq![Key::PrintScreen, Key::Insert, Key::Delete]),
{
    assert forall|i: int| 0 <= i < 3 implies key_for_vk((44 + i) as u32) == seq![Key::PrintScreen, Key::Insert, Key::Delete][i] by {
        if i == 0 {
            lemma_key_for_vk_of(Key::PrintScreen, 44u32);
        } else if i == 1 {
            lemma_key_for_vk_of(Key::Insert, 45u32);
        } else if i == 2 {
            lemma_key_for_vk_of(Key::Delete, 46u32);
        }
    }
}

proof fn lemma_run_48()
    ensures
        codes_from(48, seq![Key::Digit0, Key::Digit1, Key::Digit2, Key::Digit3, Key::Digit4, Key::Digit5, Key::Digit6, Key::Digit7, Key::Digit8, Key::Digit9]),
{
    assert forall|i: int| 0 <= i < 10 implies key_for_vk((48 + i) as u32) == seq![Key::Digit0, Key::Digit1, Key::Digit2, Key::Digit3, Key::Digit4, Key::Digit5, Key::Digit6, Key::Digit7, Key::Digit8, Key::Digit9][i] by {
        if i == 0 {
            lemma_key_for_vk_of(Key::Digit0, 48u32);
        } else if i == 1 {
            lemma_key_for_vk_of(Key::Digit1, 49u32);
        } else if i == 2 {
            lemma_key_for_vk_of(Key::Digit2, 50u32);
        } else if i == 3 {
            lemma_key_for_vk_of(Key::Digit3, 51u32);
        } else if i == 4 {
            lemma_key_for_vk_of(Key::Digit4, 52u32);
        } else if i == 5 {
            lemma_key_for_vk_of(Key::Digit5, 53u32);
        } else if i == 6 {
            lemma_key_for_vk_of(Key::Digit6, 54u32);
        } else if i == 7 {
            lemma_key_for_vk_of(Key::Digit7, 55u32);
        } else if i == 8 {
            lemma_key_for_vk_of(Key::Digit8, 56u32);
        } else if i == 9 {
            lemma_key_for_vk_of(Key::Digit9, 57u32);
        }
    }
}

proof fn lemma_run_65()
    ensures
        codes_from(65, seq![Key::A, Key::B, Key::C, Key::D, Key::E, Key::F, Key::G, Key::H, Key::I, Key::J, Key::K, Key::L]),
{
    assert forall|i: int| 0 <= i < 12 implies key_for_vk((65 + i) as u32) == seq![Key::A, Key::B, Key::C, Key::D, Key::E, Key::F, Key::G, Key::H, Key::I, Key::J, Key::K, Key::L][i] by {
        if i == 0 {
            lemma_key_for_vk_of(Key::A, 65u32);
        } else if i == 1 {
            lemma_key_for_vk_of(Key::B, 66u32);
        } else if i == 2 {
            lemma_key_for_vk_of(Key::C, 67u32);
        } else if i == 3 {
            lemma_key_for_vk_of(Key::D, 68u32);
        } else if i == 4 {
            lemma_key_for_vk_of(Key::E, 69u32);
        } else if i == 5 {
            lemma_key_for_vk_of(Key::F, 70u32);
        } else if i == 6 {
            lemma_key_for_vk_of(Key::G, 71u32);
        } else if i == 7 {
            lemma_key_for_vk_of(Key::H, 72u32);
        } else if i == 8 {
            lemma_key_for_vk_of(Key::I, 73u32);
        } else if i == 9 {
            lemma_key_for_vk_of(Key::J, 74u32);
        } else if i == 10 {
            lemma_key_for_vk_of(Key::K, 75u32);
        } else if i == 11 {
            lemma_key_for_vk_of(Key::L, 76u32);
        }
    }
}

proof fn lemma_run_77()
    ensures
        codes_from(77, seq![Key::M, Key::N, Key::O, Key::P, Key::Q, Key::R, Key::S, Key::T, Key::U, Key::V, Key::W, Key::X]),
{
    assert forall|i: int| 0 <= i < 12 implies key_for_vk((77 + i) as u32) == seq![Key::M, Key::N, Key::O, Key::P, Key::Q, Key::R, Key::S, Key::T, Key::U, Key::V, Key::W, Key::X][i] by {
        if i == 0 {
            lemma_key_for_vk_of(Key::M, 77u32);
        } else if i == 1 {
            lemma_key_for_vk_of(Key::N, 78u32);
        } else if i == 2 {
            lemma_key_for_vk_of(Key::O, 79u32);
        } else if i == 3 {
            lemma_key_for_vk_of(Key::P, 80u32);
        } else if i == 4 {
            lemma_key_for_vk_of(Key::Q, 81u32);
        } else if i == 5 {
            lemma_key_for_vk_of(Key::R, 82u32);
        } else if i == 6 {
            lemma_key_for_vk_of(Key::S, 83u32);
        } else if i == 7 {
            lemma_key_for_vk_of(Key::T, 84u32);
        } else if i == 8 {
            lemma_key_for_vk_of(Key::U, 85u32);
        } else if i == 9 {
            lemma_key_for_vk_of(Key::V, 86u32);
        } else if i == 10 {
            lemma_key_for_vk_of(Key::W, 87u32);
        } else if i == 11 {
            lemma_key_for_vk_of(Key::X, 88u32);
        }
    }
}

proof fn lemma_run_89()
    ensures
        codes_from(89, seq![Key::Y, Key::Z, Key::MetaLeft, Key::MetaRight, Key::Menu]),
{
    assert forall|i: int| 0 <= i < 5 implies key_for_vk((89 + i) as u32) == seq![Key::Y, Key::Z, Key::MetaLeft, Key::MetaRight, Key::Menu][i] by {
        if i == 0 {
            lemma_key_for_vk_of(Key::Y, 89u32);
        } else if i == 1 {
            lemma_key_for_vk_of(Key::Z, 90u32);
        } else if i == 2 {
            lemma_key_for_vk_of(Key::MetaLeft, 91u32);
        } else if i == 3 {
            lemma_key_for_vk_of(Key::MetaRight, 92u32);
        } else if i == 4 {
            lemma_key_for_vk_of(Key::Menu, 93u32);
        }
    }
}

proof fn lemma_run_96()
    ensures
        codes_from(96, seq![Key::Numpad0, Key::Numpad1, Key::Numpad2, Key::Numpad3, Key::Numpad4, Key::Numpad5, Key::Numpad6, Key::Numpad7, Key::Numpad8, Key::Numpad9, Key::NumpadMultiply, Key::NumpadAdd]),
{
    assert forall|i: int| 0 <= i < 12 implies key_for_vk((96 + i) as u32) == seq![Key::Numpad0, Key::Numpad1, Key::Numpad2, Key::Numpad3, Key::Numpad4, Key::Numpad5, Key::Numpad6, Key::Numpad7, Key::Numpad8, Key::Numpad9, Key::NumpadMultiply, Key::NumpadAdd][i] by {
        if i == 0 {
            lemma_key_for_vk_of(Key::Numpad0, 96u32);
        } else if i == 1 {
            lemma_key_for_vk_of(Key::Numpad1, 97u32);
        } else if i == 2 {
            lemma_key_for_vk_of(Key::Numpad2, 98u32);
        } else if i == 3 {
            lemma_key_for_vk_of(Key::Numpad3, 99u32);
        } else if i == 4 {
            lemma_key_for_vk_of(Key::Numpad4, 100u32);
        } else if i == 5 {
            lemma_key_for_vk_of(Key::Numpad5, 101u32);
        } else if i == 6 {
            lemma_key_for_vk_of(Key::Numpad6, 102u32);
        } else if i == 7 {
            lemma_key_for_vk_of(Key::Numpad7, 103u32);
        } else if i == 8 {
            lemma_key_for_vk_of(Key::Numpad8, 104u32);
        } else if i == 9 {
            lemma_key_for_vk_of(Key::Numpad9, 105u32);
        } else if i == 10 {
            lemma_key_for_vk_of(Key::NumpadMultiply, 106u32);
        } else if i == 11 {
            lemma_key_for_vk_of(Key::NumpadAdd, 107u32);
        }
    }
}

proof fn lemma_run_109()
    ensures
        codes_from(109, seq![Key::NumpadSubtract, Key::NumpadDecimal, Key::NumpadDivide, Key::F1, Key::F2, Key::F3, Key::F4, Key::F5, Key::F6, Key::F7, Key::F8, Key::F9]),
{
    assert forall|i: int| 0 <= i < 12 implies key_for_vk((109 + i) as u32) == seq![Key::NumpadSubtract, Key::NumpadDecimal, Key::NumpadDivide, Key::F1, Key::F2, Key::F3, Key::F4, Key::F5, Key::F6, Key::F7, Key::F8, Key::F9][i] by {
        if i == 0 {
            lemma_key_for_vk_of(Key::NumpadSubtract, 109u32);
        } else if i == 1 {
            lemma_key_for_vk_of(Key::NumpadDecimal, 110u32);
        } else if i == 2 {
            lemma_key_for_vk_of(Key::NumpadDivide, 111u32);
        } else if i == 3 {
            lemma_key_for_vk_of(Key::F1, 112u32);
        } else if i == 4 {
            lemma_key_for_vk_of(Key::F2, 113u32);
        } else if i == 5 {
            lemma_key_for_vk_of(Key::F3, 114u32);
        } else if i == 6 {
            lemma_key_for_vk_of(Key::F4, 115u32);
        } else if i == 7 {
            lemma_key_for_vk_of(Key::F5, 116u32);
        } else if i == 8 {
            lemma_key_for_vk_of(Key::F6, 117u32);
        } else if i == 9 {
            lemma_key_for_vk_of(Key::F7, 118u32);
        } else if i == 10 {
            lemma_key_for_vk_of(Key::F8, 119u32);
        } else if i == 11 {
            lemma_key_for_vk_of(Key::F9, 120u32);
        }
    }
}

proof fn lemma_run_121()
    ensures
        codes_from(121, seq![Key::F10, Key::F11, Key::F12, Key::F13, Key::F14, Key::F15, Key::F16, Key::F17, Key::F18, Key::F19, Key::F20, Key::F21]),
{
    assert forall|i: int| 0 <= i < 12 implies key_for_vk((121 + i) as u32) == seq![Key::F10, Key::F11, Key::F12, Key::F13, Key::F14, Key::F15, Key::F16, Key::F17, Key::F18, Key::F19, Key::F20, Key::F21][i] by {
        if i == 0 {
            lemma_key_for_vk_of(Key::F10, 121u32);
        } else if i == 1 {
            lemma_key_for_vk_of(Key::F11, 122u32);
        } else if i == 2 {
            lemma_key_for_vk_of(Key::F12, 123u32);
        } else if i == 3 {
            lemma_key_for_vk_of(Key::F13, 124u32);
        } else if i == 4 {
            lemma_key_for_vk_of(Key::F14, 125u32);
        } else if i == 5 {
            lemma_key_for_vk_of(Key::F15, 126u32);
        } else if i == 6 {
            lemma_key_for_vk_of(Key::F16, 127u32);
        } else if i == 7 {
            lemma_key_for_vk_of(Key::F17, 128u32);
        } else if i == 8 {
            lemma_key_for_vk_of(Key::F18, 129u32);
        } else if i == 9 {
            lemma_key_for_vk_of(Key::F19, 130u32);
        } else if i == 10 {
            lemma_key_for_vk_of(Key::F20, 131u32);
        } else if i == 11 {
            lemma_key_for_vk_of(Key::F21, 132u32);
        }
    }
}

proof fn lemma_run_133()
    ensures
        codes_from(133, seq![Key::F22, Key::F23, Key::F24]),
{
    assert forall|i: int| 0 <= i < 3 implies key_for_vk((133 + i) as u32) == seq![Key::F22, Key::F23, Key::F24][i] by {
        if i == 0 {
            lemma_key_for_vk_of(Key::F22, 133u32);
        } else if i == 1 {
            lemma_key_for_vk_of(Key::F23, 134u32);
        } else if i == 2 {
            lemma_key_for_vk_of(Key::F24, 135u32);
        }
    }
}

proof fn lemma_run_144()
    ensures
        codes_from(144, seq![Key::NumLock, Key::ScrollLock]),
{
    assert forall|i: int| 0 <= i < 2 implies key_for_vk((144 + i) as u32) == seq![Key::NumLock, Key::ScrollLock][i] by {
        if i == 0 {
            lemma_key_for_vk_of(Key::NumLock, 144u32);
        } else if i == 1 {
            lemma_key_for_vk_of(Key::ScrollLock, 145u32);
        }
    }
}

proof fn lemma_run_160()
    ensures
        codes_from(160, seq![Key::ShiftLeft, Key::ShiftRight, Key::ControlLeft, Key::ControlRight, Key::AltLeft, Key::AltRight]),
{
    assert forall|i: int| 0 <= i < 6 implies key_for_vk((160 + i) as u32) == seq![Key::ShiftLeft, Key::ShiftRight, Key::ControlLeft, Key::ControlRight, Key::AltLeft, Key::AltRight][i] by {
        if i == 0 {
            lemma_key_for_vk_of(Key::ShiftLeft, 160u32);
        } else if i == 1 {
            lemma_key_for_vk_of(Key::ShiftRight, 161u32);
        } else if i == 2 {
            lemma_key_for_vk_of(Key::ControlLeft, 162u32);
        } else if i == 3 {
            lemma_key_for_vk_of(Key::ControlRight, 163u32);
        } else if i == 4 {
            lemma_key_for_vk_of(Key::AltLeft, 164u32);
        } else if i == 5 {
            lemma_key_for_vk_of(Key::AltRight, 165u32);
        }
    }
}

proof fn lemma_run_186()
    ensures
        codes_from(186, seq![Key::Semicolon, Key::Equal, Key::Comma, Key::Minus, Key::Period, Key::Slash, Key::Backtick]),
{
    assert forall|i: int| 0 <= i < 7 implies key_for_vk((186 + i) as u32) == seq![Key::Semicolon, Key::Equal, Key::Comma, Key::Minus, Key::Period, Key::Slash, Key::Backtick][i] by {
        if i == 0 {
            lemma_key_for_vk_of(Key::Semicolon, 186u32);
        } else if i == 1 {
            lemma_key_for_vk_of(Key::Equal, 187u32);
        } else if i == 2 {
            lemma_key_for_vk_of(Key::Comma, 188u32);
        } else if i == 3 {
            lemma_key_for_vk_of(Key::Minus, 189u32);
        } else if i == 4 {
            lemma_key_for_vk_of(Key::Period, 190u32);
        } else if i == 5 {
            lemma_key_for_vk_of(Key::Slash, 191u32);
        } else if i == 6 {
            lemma_key_for_vk_of(Key::Backtick, 192u32);
        }
    }
}

proof fn lemma_run_219()
    ensures
        codes_from(219, seq![Key::BracketLeft, Key::Backslash, Key::BracketRight, Key::Quote]),
{
    assert forall|i: int| 0 <= i < 4 implies key_for_vk((219 + i) as u32) == seq![Key::BracketLeft, Key::Backslash, Key::BracketRight, Key::Quote][i] by {
        if i == 0 {
            lemma_key_for_vk_of(Key::BracketLeft, 219u32);
        } else if i == 1 {
            lemma_key_for_vk_of(Key::Backslash, 220u32);
        } else if i == 2 {
            lemma_key_for_vk_of(Key::BracketRight, 221u32);
        } else if i == 3 {
            lemma_key_for_vk_of(Key::Quote, 222u32);
        }
    }
}

proof fn lemma_run_226()
    ensures
        codes_from(226, seq![Key::IntlBackslash]),
{
    assert forall|i: int| 0 <= i < 1 implies key_for_vk((226 + i) as u32) == seq![Key::IntlBackslash][i] by {
        if i == 0 {
            lemma_key_for_vk_of(Key::IntlBackslash, 226u32);
        }
    }
}

} // verus!
