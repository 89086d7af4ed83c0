use keytap::platform::linux::{
    check_keyboard_scan, event_kind as linux_event_kind, is_event_node, plan_rescan,
};
use keytap::platform::macos::{event_kind as mac_event_kind, flag_bit_for_key, MacEventType};
use keytap::platform::windows::{resolve_key, HookState};
use keytap::{Error, EventKind, Key, RawCode};

#[test]
fn linux_values_map_to_kinds() {
    assert_eq!(linux_event_kind(30, 0), Some(EventKind::KeyUp(Key::A)));
    assert_eq!(linux_event_kind(30, 1), Some(EventKind::KeyDown(Key::A)));
    assert_eq!(linux_event_kind(30, 2), Some(EventKind::KeyRepeat(Key::A)));
    assert_eq!(linux_event_kind(30, 3), None);
    assert_eq!(linux_event_kind(30, -1), None);
    assert_eq!(
        linux_event_kind(700, 1),
        Some(EventKind::KeyDown(Key::Unknown(RawCode(700))))
    );
}

#[test]
fn linux_event_nodes_by_name() {
    assert!(is_event_node(Some("event0")));
    assert!(is_event_node(Some("event")));
    assert!(is_event_node(Some("event12-kbd")));
    assert!(!is_event_node(Some("mouse0")));
    assert!(!is_event_node(Some("even")));
    assert!(!is_event_node(Some("by-id")));
    assert!(!is_event_node(Some("")));
    assert!(!is_event_node(None));
}

#[test]
fn linux_scan_verdicts() {
    assert!(matches!(check_keyboard_scan(2, true, true), Ok(())));
    assert!(matches!(check_keyboard_scan(1, false, false), Ok(())));
    assert!(matches!(
        check_keyboard_scan(0, true, true),
        Err(Error::PermissionDenied)
    ));
    assert!(matches!(check_keyboard_scan(0, true, false), Err(Error::NoDevices)));
    assert!(matches!(check_keyboard_scan(0, false, true), Err(Error::NoDevices)));
    assert!(matches!(check_keyboard_scan(0, false, false), Err(Error::NoDevices)));
}

#[test]
fn macos_flag_masks() {
    assert_eq!(flag_bit_for_key(Key::ShiftLeft), 0x2);
    assert_eq!(flag_bit_for_key(Key::ShiftRight), 0x4);
    assert_eq!(flag_bit_for_key(Key::ControlRight), 0x2000);
    assert_eq!(flag_bit_for_key(Key::MetaRight), 0x10);
    assert_eq!(flag_bit_for_key(Key::CapsLock), 0x00010000);
    assert_eq!(flag_bit_for_key(Key::Function), 0x00800000);
    assert_eq!(flag_bit_for_key(Key::A), 0);
}

#[test]
fn macos_event_classification() {
    // Key down, with and without the autorepeat field, and with repeat
    // detection switched off.
    assert_eq!(
        mac_event_kind(MacEventType::KeyDown, 0, 0, false, 0, 0),
        Some(EventKind::KeyDown(Key::A))
    );
    assert_eq!(
        mac_event_kind(MacEventType::KeyDown, 0, 1, false, 0, 0),
        Some(EventKind::KeyRepeat(Key::A))
    );
    assert_eq!(
        mac_event_kind(MacEventType::KeyDown, 0, 1, true, 0, 0),
        Some(EventKind::KeyDown(Key::A))
    );
    assert_eq!(
        mac_event_kind(MacEventType::KeyUp, 53, 0, false, 0, 0),
        Some(EventKind::KeyUp(Key::Escape))
    );
    // Modifier edges: right Command (keycode 54) pressed, then released.
    assert_eq!(
        mac_event_kind(MacEventType::FlagsChanged, 54, 0, false, 0, 0x00100010),
        Some(EventKind::KeyDown(Key::MetaRight))
    );
    assert_eq!(
        mac_event_kind(MacEventType::FlagsChanged, 54, 0, false, 0x00100010, 0),
        Some(EventKind::KeyUp(Key::MetaRight))
    );
    assert_eq!(
        mac_event_kind(MacEventType::FlagsChanged, 54, 0, false, 0x00100010, 0x00100010),
        None
    );
    // One Shift pressed and released while the other stays held: the
    // side-specific bits tell them apart (keycode 56 is left Shift).
    assert_eq!(
        mac_event_kind(MacEventType::FlagsChanged, 56, 0, false, 0x00020004, 0x00020006),
        Some(EventKind::KeyDown(Key::ShiftLeft))
    );
    assert_eq!(
        mac_event_kind(MacEventType::FlagsChanged, 56, 0, false, 0x00020006, 0x00020004),
        Some(EventKind::KeyUp(Key::ShiftLeft))
    );
    // The Fn key (keycode 63) goes down and up on its flag.
    assert_eq!(
        mac_event_kind(MacEventType::FlagsChanged, 63, 0, false, 0, 0x00800000),
        Some(EventKind::KeyDown(Key::Function))
    );
    assert_eq!(
        mac_event_kind(MacEventType::FlagsChanged, 63, 0, false, 0x00800000, 0),
        Some(EventKind::KeyUp(Key::Function))
    );
    // A FlagsChanged event of a key without a flag bit is still reported:
    // a press when some flag bit was set, a release otherwise.
    assert_eq!(
        mac_event_kind(MacEventType::FlagsChanged, 110, 0, false, 0, 0x100),
        Some(EventKind::KeyDown(Key::Unknown(RawCode(110))))
    );
    assert_eq!(
        mac_event_kind(MacEventType::FlagsChanged, 110, 0, false, 0x100, 0),
        Some(EventKind::KeyUp(Key::Unknown(RawCode(110))))
    );
    assert_eq!(mac_event_kind(MacEventType::Other, 0, 0, false, 0, 0), None);
}

#[test]
fn windows_generic_modifiers_resolve_by_side() {
    assert_eq!(resolve_key(0x10, 0x2A, false), Key::ShiftLeft);
    assert_eq!(resolve_key(0x10, 0x36, false), Key::ShiftRight);
    assert_eq!(resolve_key(0x11, 0, false), Key::ControlLeft);
    assert_eq!(resolve_key(0x11, 0, true), Key::ControlRight);
    assert_eq!(resolve_key(0x12, 0, false), Key::AltLeft);
    assert_eq!(resolve_key(0x12, 0, true), Key::AltRight);
    assert_eq!(resolve_key(0xA1, 0x36, true), Key::ShiftRight);
    assert_eq!(resolve_key(0x41, 0, true), Key::A);
}

#[test]
fn windows_repeat_is_a_second_down() {
    const WM_KEYDOWN: u32 = 0x100;
    const WM_KEYUP: u32 = 0x101;
    const WM_SYSKEYDOWN: u32 = 0x104;
    const WM_SYSKEYUP: u32 = 0x105;
    let mut st = HookState::new();
    assert_eq!(
        st.on_hook(WM_KEYDOWN, 0x41, 0x1E, 0),
        Some(EventKind::KeyDown(Key::A))
    );
    assert_eq!(
        st.on_hook(WM_KEYDOWN, 0x41, 0x1E, 0),
        Some(EventKind::KeyRepeat(Key::A))
    );
    assert_eq!(
        st.on_hook(WM_KEYUP, 0x41, 0x1E, 0),
        Some(EventKind::KeyUp(Key::A))
    );
    assert_eq!(
        st.on_hook(WM_KEYDOWN, 0x41, 0x1E, 0),
        Some(EventKind::KeyDown(Key::A))
    );
    // Other messages (here WM_CHAR) are ignored.
    assert_eq!(st.on_hook(0x102, 0x41, 0x1E, 0), None);
    // System key messages count too; the extended bit picks right Alt.
    assert_eq!(
        st.on_hook(WM_SYSKEYDOWN, 0x12, 0x38, 1),
        Some(EventKind::KeyDown(Key::AltRight))
    );
    assert_eq!(
        st.on_hook(WM_SYSKEYDOWN, 0x12, 0x38, 1),
        Some(EventKind::KeyRepeat(Key::AltRight))
    );
    assert_eq!(
        st.on_hook(WM_SYSKEYUP, 0x12, 0x38, 0),
        Some(EventKind::KeyUp(Key::AltLeft))
    );
    assert_eq!(
        st.on_hook(WM_KEYDOWN, 0x10, 0x36, 0),
        Some(EventKind::KeyDown(Key::ShiftRight))
    );
}

#[test]
fn linux_rescan_drops_gone_and_adopts_new() {
    let n = |s: &str| s.to_string();
    let known = vec![(n("event3"), false), (n("event5"), false)];
    let present = vec![n("event5"), n("event7"), n("event3x")];
    let (keep, adopt) = plan_rescan(&known, &present);
    assert_eq!(keep, vec![false, true]);
    assert_eq!(adopt, vec![false, true, true]);
    // A device that reappears under a name that was let go is adopted again.
    let (keep, adopt) = plan_rescan(&[(n("event5"), false)], &[n("event3"), n("event5")]);
    assert_eq!(keep, vec![true]);
    assert_eq!(adopt, vec![true, false]);
    let (keep, adopt) = plan_rescan(&[], &[]);
    assert!(keep.is_empty() && adopt.is_empty());
}

#[test]
fn linux_rescan_replaces_failed_keyboard_on_same_node() {
    let n = |s: &str| s.to_string();
    // event3's reads failed and a keyboard is back on event3: the dead
    // device is let go and the node is opened again.
    let known = vec![(n("event3"), true), (n("event5"), false)];
    let present = vec![n("event3"), n("event5")];
    let (keep, adopt) = plan_rescan(&known, &present);
    assert_eq!(keep, vec![false, true]);
    assert_eq!(adopt, vec![true, false]);
    // A failed keyboard whose node is gone is let go, nothing to adopt.
    let (keep, adopt) = plan_rescan(&[(n("event3"), true)], &[]);
    assert_eq!(keep, vec![false]);
    assert!(adopt.is_empty());
}
