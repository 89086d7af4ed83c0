use keytap::platform::linux;
use keytap::platform::macos::keycodes as mac;
use keytap::platform::windows::keycodes as win;
use keytap::{Key, RawCode};

#[test]
fn keycodes_round_trip_known_codes() {
    // Linux evdev codes.
    let codes: [u16; 20] = [
        30, 48, 1, 42, 54, 29, 97, 56, 100, 125, 126, 57, 28, 103, 108, 76, 59, 88, 183, 194,
    ];
    for c in codes {
        assert!(
            !matches!(linux::keycodes::key_from_code(c), Key::Unknown(_)),
            "evdev code {c} should map to a named Key"
        );
    }
    // macOS virtual keycodes.
    let codes = [
        mac::KEY_A,
        mac::KEY_Z,
        mac::SHIFT_LEFT,
        mac::SHIFT_RIGHT,
        mac::META_LEFT,
        mac::META_RIGHT,
        mac::ALT_LEFT,
        mac::ALT_RIGHT,
        mac::CONTROL_LEFT,
        mac::CONTROL_RIGHT,
        mac::ESCAPE,
        mac::SPACE,
        mac::RETURN,
        mac::F1,
        mac::F20,
        mac::ARROW_UP,
        mac::NUMPAD_5,
    ];
    for c in codes {
        assert!(
            !matches!(mac::key_from_code(c), Key::Unknown(_)),
            "code {c} should map to a named Key"
        );
    }
}

#[test]
fn keycodes_left_right_modifiers_are_distinct() {
    // Linux.
    let lk = linux::keycodes::key_from_code;
    assert_ne!(lk(42), lk(54)); // shift
    assert_ne!(lk(29), lk(97)); // control
    assert_ne!(lk(56), lk(100)); // alt
    assert_ne!(lk(125), lk(126)); // meta
    // macOS.
    assert_ne!(mac::key_from_code(mac::SHIFT_LEFT), mac::key_from_code(mac::SHIFT_RIGHT));
    assert_ne!(mac::key_from_code(mac::META_LEFT), mac::key_from_code(mac::META_RIGHT));
    assert_ne!(mac::key_from_code(mac::ALT_LEFT), mac::key_from_code(mac::ALT_RIGHT));
    assert_ne!(mac::key_from_code(mac::CONTROL_LEFT), mac::key_from_code(mac::CONTROL_RIGHT));
    // Windows.
    assert_ne!(win::key_from_vk(win::VK_LSHIFT), win::key_from_vk(win::VK_RSHIFT));
    assert_ne!(win::key_from_vk(win::VK_LCONTROL), win::key_from_vk(win::VK_RCONTROL));
    assert_ne!(win::key_from_vk(win::VK_LMENU), win::key_from_vk(win::VK_RMENU));
    assert_ne!(win::key_from_vk(win::VK_LWIN), win::key_from_vk(win::VK_RWIN));
}

#[test]
fn keycodes_unknown_code_round_trips() {
    assert_eq!(
        linux::keycodes::key_from_code(9999),
        Key::Unknown(RawCode(9999))
    );
    assert_eq!(
        mac::key_from_code(9999),
        Key::Unknown(RawCode(9999))
    );
}

#[test]
fn round_trip_known_vks() {
    let codes = [
        win::VK_A,
        win::VK_Z,
        win::VK_LSHIFT,
        win::VK_RSHIFT,
        win::VK_LWIN,
        win::VK_RWIN,
        win::VK_LMENU,
        win::VK_RMENU,
        win::VK_LCONTROL,
        win::VK_RCONTROL,
        win::VK_ESCAPE,
        win::VK_SPACE,
        win::VK_RETURN,
        win::VK_F1,
        win::VK_F24,
        win::VK_UP,
        win::VK_NUMPAD5,
    ];
    for c in codes {
        assert!(
            !matches!(win::key_from_vk(c), Key::Unknown(_)),
            "VK 0x{c:X} should map to a named Key"
        );
    }
}

#[test]
fn unknown_vk_round_trips() {
    assert_eq!(
        win::key_from_vk(0xFFFE),
        Key::Unknown(RawCode(0xFFFE))
    );
}

// ---------------------------------------------------------------------
// Exact values from each table.
// ---------------------------------------------------------------------

#[test]
fn linux_table_values() {
    let k = linux::keycodes::key_from_code;
    assert_eq!(k(1), Key::Escape);
    assert_eq!(k(30), Key::A);
    assert_eq!(k(11), Key::Digit0);
    assert_eq!(k(125), Key::MetaLeft);
    assert_eq!(k(194), Key::F24);
    // The Fn key arrives as KEY_FN (0x1D0).
    assert_eq!(k(464), Key::Function);
    // KEY_102ND is not in the table.
    assert_eq!(k(86), Key::Unknown(RawCode(86)));
    assert_eq!(k(0), Key::Unknown(RawCode(0)));
    assert_eq!(k(u16::MAX), Key::Unknown(RawCode(65535)));
}

#[test]
fn macos_table_values() {
    let k = mac::key_from_code;
    assert_eq!(k(0), Key::A);
    assert_eq!(k(54), Key::MetaRight);
    assert_eq!(k(55), Key::MetaLeft);
    assert_eq!(k(10), Key::IntlBackslash);
    assert_eq!(k(63), Key::Function);
    assert_eq!(k(71), Key::NumLock);
    assert_eq!(k(90), Key::F20);
    assert_eq!(k(127), Key::Unknown(RawCode(127)));
}

#[test]
fn windows_table_values() {
    let k = win::key_from_vk;
    assert_eq!(k(0x41), Key::A);
    assert_eq!(k(0xE2), Key::IntlBackslash);
    assert_eq!(k(0x5D), Key::Menu);
    assert_eq!(k(0x87), Key::F24);
    // The generic modifier codes are not in the table itself.
    assert_eq!(k(0x10), Key::Unknown(RawCode(0x10)));
}
