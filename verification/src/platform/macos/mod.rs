//! macOS (CGEventTap) event rules.

pub mod keycodes;

use vstd::prelude::*;

use crate::event::EventKind;
use crate::key::Key;

use self::keycodes::{key_for_code, key_from_code};

verus! {

// CGEventFlags bits that tell each modifier key's held state. A
// FlagsChanged event carries the new flags; comparing them with the
// previous flags tells a press from a release. The left and right keys of
// a pair each have a device-dependent bit of their own (the `NX_DEVICE*`
// masks); the pair also shares a device-independent class bit (Shift
// 0x20000, Control 0x40000, Option 0x80000, Command 0x100000), which stays
// set while either side is held and so cannot tell the sides apart.
pub const CGEVENT_FLAG_SHIFT_LEFT: u64 = 0x00000002;
pub const CGEVENT_FLAG_SHIFT_RIGHT: u64 = 0x00000004;
pub const CGEVENT_FLAG_CONTROL_LEFT: u64 = 0x00000001;
pub const CGEVENT_FLAG_CONTROL_RIGHT: u64 = 0x00002000;
pub const CGEVENT_FLAG_ALT_LEFT: u64 = 0x00000020;
pub const CGEVENT_FLAG_ALT_RIGHT: u64 = 0x00000040;
pub const CGEVENT_FLAG_META_LEFT: u64 = 0x00000008;
pub const CGEVENT_FLAG_META_RIGHT: u64 = 0x00000010;
/// `kCGEventFlagMaskAlphaShift`: Caps Lock has no side.
pub const CGEVENT_FLAG_CAPS_LOCK: u64 = 0x00010000;
/// `kCGEventFlagMaskSecondaryFn`: the Fn key.
pub const CGEVENT_FLAG_FUNCTION: u64 = 0x00800000;

/// The CGEventFlags bit that represents a modifier key's held state; 0
/// for keys that are not modifiers.
pub open spec fn modifier_flag(key: Key) -> u64 {
    match key {
        Key::ShiftLeft => CGEVENT_FLAG_SHIFT_LEFT,
        Key::ShiftRight => CGEVENT_FLAG_SHIFT_RIGHT,
        Key::ControlLeft => CGEVENT_FLAG_CONTROL_LEFT,
        Key::ControlRight => CGEVENT_FLAG_CONTROL_RIGHT,
        Key::AltLeft => CGEVENT_FLAG_ALT_LEFT,
        Key::AltRight => CGEVENT_FLAG_ALT_RIGHT,
        Key::MetaLeft => CGEVENT_FLAG_META_LEFT,
        Key::MetaRight => CGEVENT_FLAG_META_RIGHT,
        Key::CapsLock => CGEVENT_FLAG_CAPS_LOCK,
        Key::Function => CGEVENT_FLAG_FUNCTION,
        _ => 0,
    }
}

/// The modifier keys that come in a left and a right version.
pub open spec fn is_sided_modifier(key: Key) -> bool {
    key == Key::ShiftLeft || key == Key::ShiftRight || key == Key::ControlLeft || key
        == Key::ControlRight || key == Key::AltLeft || key == Key::AltRight || key == Key::MetaLeft
        || key == Key::MetaRight
}

/// How the flag bits are laid out (the IOKit `NX_DEVICE*` masks and the
/// CGEventFlags class masks): every modifier is read from a bit of its own,
/// no two keys share one; a sided modifier's bit is a device-dependent bit
/// below the class bits (0x10000 and up), while Caps Lock and Fn are class
/// bits; the left key's bit is always the lower of its pair, and for Shift,
/// Command and Option the right key's bit is the next one up.
pub proof fn lemma_modifier_flag_layout()
    ensures
        forall|a: Key, b: Key|
            modifier_flag(a) != 0 && #[trigger] modifier_flag(a) == #[trigger] modifier_flag(b)
                ==> a == b,
        forall|k: Key|
            is_sided_modifier(k) ==> 0 < #[trigger] modifier_flag(k) < 0x10000,
        modifier_flag(Key::CapsLock) >= 0x10000,
        modifier_flag(Key::Function) >= 0x10000,
        modifier_flag(Key::ControlLeft) < modifier_flag(Key::ControlRight),
        modifier_flag(Key::ShiftRight) == 2 * modifier_flag(Key::ShiftLeft),
        modifier_flag(Key::MetaRight) == 2 * modifier_flag(Key::MetaLeft),
        modifier_flag(Key::AltRight) == 2 * modifier_flag(Key::AltLeft),
{
}

/// A modifier's bit alone decides its edges: whatever the other bits do, a
/// FlagsChanged event for a modifier key is a press exactly when its bit
/// goes from clear to set and a release exactly when it goes from set to
/// clear. In particular a press or release of one side is seen while the
/// other side is held.
pub proof fn lemma_edges_follow_own_bit(key: Key, prev_flags: u64, flags: u64)
    requires
        modifier_flag(key) != 0,
    ensures
        flags_change_kind(key, prev_flags, flags) == Some(EventKind::KeyDown(key)) <==> (
        prev_flags & modifier_flag(key)) == 0 && (flags & modifier_flag(key)) != 0,
        flags_change_kind(key, prev_flags, flags) == Some(EventKind::KeyUp(key)) <==> (
        prev_flags & modifier_flag(key)) != 0 && (flags & modifier_flag(key)) == 0,
{
}

/// Maps a modifier key to the CGEventFlags bit of its held state.
pub fn flag_bit_for_key(key: Key) -> (bit: u64)
    ensures
        bit == modifier_flag(key),
{
    match key {
        Key::ShiftLeft => CGEVENT_FLAG_SHIFT_LEFT,
        Key::ShiftRight => CGEVENT_FLAG_SHIFT_RIGHT,
        Key::ControlLeft => CGEVENT_FLAG_CONTROL_LEFT,
        Key::ControlRight => CGEVENT_FLAG_CONTROL_RIGHT,
        Key::AltLeft => CGEVENT_FLAG_ALT_LEFT,
        Key::AltRight => CGEVENT_FLAG_ALT_RIGHT,
        Key::MetaLeft => CGEVENT_FLAG_META_LEFT,
        Key::MetaRight => CGEVENT_FLAG_META_RIGHT,
        Key::CapsLock => CGEVENT_FLAG_CAPS_LOCK,
        Key::Function => CGEVENT_FLAG_FUNCTION,
        _ => 0,
    }
}

/// The kinds of CGEvent a keyboard tap receives.
#[derive(Clone, Copy, Debug, PartialEq, Eq, Structural)]
pub enum MacEventType {
    KeyDown,
    KeyUp,
    FlagsChanged,
    /// Any other event type (tap disabled notices and the like).
    Other,
}

/// The event kind a FlagsChanged event for `key` means. For a key with a
/// flag bit: a press when its bit goes from clear to set, a release when
/// it goes from set to clear, nothing when it does not change. For a key
/// without one (an unrecognised modifier): a press when any flag bit goes
/// from clear to set, and a release otherwise, so that the event is still
/// reported.
pub open spec fn flags_change_kind(key: Key, prev_flags: u64, flags: u64) -> Option<EventKind> {
    let bit = modifier_flag(key);
    if bit == 0 {
        if (flags & !prev_flags) != 0 {
            Some(EventKind::KeyDown(key))
        } else {
            Some(EventKind::KeyUp(key))
        }
    } else {
        let was_down = (prev_flags & bit) != 0;
        let is_down = (flags & bit) != 0;
        if !was_down && is_down {
            Some(EventKind::KeyDown(key))
        } else if was_down && !is_down {
            Some(EventKind::KeyUp(key))
        } else {
            None
        }
    }
}

/// The event kind a CGEvent with the given type, keycode, autorepeat field
/// and flags means. A key-down with a nonzero autorepeat field is a repeat
/// unless repeat detection is off; a FlagsChanged event is read by
/// [`flags_change_kind`]. `prev_flags` are the flags of the
/// previous FlagsChanged event.
pub open spec fn mac_event_kind(
    event_type: MacEventType,
    keycode: u32,
    autorepeat: i64,
    no_repeat_detection: bool,
    prev_flags: u64,
    flags: u64,
) -> Option<EventKind> {
    let key = key_for_code(keycode);
    match event_type {
        MacEventType::KeyDown => if autorepeat != 0 && !no_repeat_detection {
            Some(EventKind::KeyRepeat(key))
        } else {
            Some(EventKind::KeyDown(key))
        },
        MacEventType::KeyUp => Some(EventKind::KeyUp(key)),
        MacEventType::FlagsChanged => flags_change_kind(key, prev_flags, flags),
        MacEventType::Other => None,
    }
}

/// Classifies one CGEvent into the event kind the tap emits, if any.
pub fn event_kind(
    event_type: MacEventType,
    keycode: u32,
    autorepeat: i64,
    no_repeat_detection: bool,
    prev_flags: u64,
    flags: u64,
) -> (kind: Option<EventKind>)
    ensures
        kind == mac_event_kind(
            event_type,
            keycode,
            autorepeat,
            no_repeat_detection,
            prev_flags,
            flags,
        ),
{
    let key = key_from_code(keycode);
    match event_type {
        MacEventType::KeyDown => {
            let auto_repeat = autorepeat != 0;
            if auto_repeat && !no_repeat_detection {
                Some(EventKind::KeyRepeat(key))
            } else {
                Some(EventKind::KeyDown(key))
            }
        },
        MacEventType::KeyUp => Some(EventKind::KeyUp(key)),
        MacEventType::FlagsChanged => {
            let bit = flag_bit_for_key(key);
            if bit == 0 {
                if (flags & !prev_flags) != 0 {
                    Some(EventKind::KeyDown(key))
                } else {
                    Some(EventKind::KeyUp(key))
                }
            } else {
                let was_down = (prev_flags & bit) != 0;
                let is_down = (flags & bit) != 0;
                if !was_down && is_down {
                    Some(EventKind::KeyDown(key))
                } else if was_down && !is_down {
                    Some(EventKind::KeyUp(key))
                } else {
                    None
                }
            }
        },
        MacEventType::Other => None,
    }
}

} // verus!
