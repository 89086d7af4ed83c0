//! Linux (evdev) event rules.

pub mod keycodes;

use vstd::prelude::*;
use vstd::string::StringSliceAdditionalSpecFns;

use crate::error::Error;
use crate::event::EventKind;
use crate::key::Key;

use self::keycodes::{key_for_code, key_from_code};

verus! {

/// The event kind an evdev key report carries: value 0 is a release, 1 a
/// press and 2 an auto-repeat; any other value is not a key transition.
pub open spec fn kind_for_value(key: Key, value: i32) -> Option<EventKind> {
    if value == 0 {
        Some(EventKind::KeyUp(key))
    } else if value == 1 {
        Some(EventKind::KeyDown(key))
    } else if value == 2 {
        Some(EventKind::KeyRepeat(key))
    } else {
        None
    }
}

/// Translates an evdev key report (`KEY_*` code and value) into the event
/// kind the tap emits, if any.
pub fn event_kind(code: u16, value: i32) -> (kind: Option<EventKind>)
    ensures
        kind == kind_for_value(key_for_code(code), value),
{
    let key = key_from_code(code);
    match value {
        0 => Some(EventKind::KeyUp(key)),
        1 => Some(EventKind::KeyDown(key)),
        2 => Some(EventKind::KeyRepeat(key)),
        _ => None,
    }
}

/// The UTF-8 bytes of `event`, the prefix of evdev device node names.
pub open spec fn event_prefix() -> Seq<u8> {
    seq![0x65u8, 0x76u8, 0x65u8, 0x6eu8, 0x74u8]
}

/// Whether a file name, given as bytes, starts with `event`.
pub open spec fn is_event_node_name(name: Seq<u8>) -> bool {
    name.len() >= 5 && name.subrange(0, 5) == event_prefix()
}

/// Whether a `/dev/input` entry is an evdev event node: its file name is
/// valid UTF-8 (`Some`) and starts with `event`.
pub fn is_event_node(file_name: Option<&str>) -> (node: bool)
    ensures
        node == match file_name {
            Some(name) => is_event_node_name(name.spec_bytes()),
            None => false,
        },
{
    match file_name {
        None => false,
        Some(name) => {
            let bytes = name.as_bytes();
            if bytes.len() < 5 {
                return false;
            }
            let found = bytes[0] == 0x65u8 && bytes[1] == 0x76u8 && bytes[2] == 0x65u8 && bytes[3]
                == 0x6eu8 && bytes[4] == 0x74u8;
            assert(found <==> bytes@.subrange(0, 5) =~= event_prefix());
            found
        },
    }
}

/// The verdict on a scan of `/dev/input`: `keyboards` readable keyboards
/// were opened, `saw_event_node` tells whether any event node exists and
/// `any_permission_denied` whether opening one was refused. With no
/// keyboard, a refused open is reported as a permission problem and
/// anything else as having no devices.
pub fn check_keyboard_scan(
    keyboards: usize,
    saw_event_node: bool,
    any_permission_denied: bool,
) -> (verdict: Result<(), Error>)
    ensures
        verdict matches Ok(()) <==> keyboards > 0,
        verdict matches Err(Error::PermissionDenied) <==> keyboards == 0 && saw_event_node
            && any_permission_denied,
        verdict matches Err(Error::NoDevices) <==> keyboards == 0 && !(saw_event_node
            && any_permission_denied),
{
    if keyboards == 0 && saw_event_node && any_permission_denied {
        return Err(Error::PermissionDenied);
    }
    if keyboards == 0 {
        return Err(Error::NoDevices);
    }
    Ok(())
}

/// Whether some name in `names` has the same characters as `name`.
pub open spec fn has_name(names: Seq<String>, name: Seq<char>) -> bool {
    exists|i: int| 0 <= i < names.len() && (#[trigger] names[i])@ == name
}

fn contains_name(names: &[String], name: &String) -> (found: bool)
    ensures
        found == has_name(names@, name@),
{
    let mut i: usize = 0;
    while i < names.len()
        invariant
            0 <= i <= names@.len(),
            forall|j: int| 0 <= j < i ==> (#[trigger] names@[j])@ != name@,
        decreases names@.len() - i,
    {
        if names[i] == *name {
            assert(names@[i as int]@ == name@);
            return true;
        }
        i += 1;
    }
    false
}

/// Whether some keyboard in `known` whose reads have not failed uses the
/// node name `name`.
pub open spec fn has_live_name(known: Seq<(String, bool)>, name: Seq<char>) -> bool {
    exists|i: int| 0 <= i < known.len() && !(#[trigger] known[i]).1 && known[i].0@ == name
}

fn contains_live_name(known: &[(String, bool)], name: &String) -> (found: bool)
    ensures
        found == has_live_name(known@, name@),
{
    let mut i: usize = 0;
    while i < known.len()
        invariant
            0 <= i <= known@.len(),
            forall|j: int| 0 <= j < i ==> (#[trigger] known@[j]).1 || known@[j].0@ != name@,
        decreases known@.len() - i,
    {
        if !known[i].1 && known[i].0 == *name {
            assert(!known@[i as int].1 && known@[i as int].0@ == name@);
            return true;
        }
        i += 1;
    }
    false
}

/// The decisions of a hot-plug rescan. `known` holds, for each keyboard in
/// use, its node name and whether its reads have failed (with an error
/// other than "no events ready"); `present` holds the event node names now
/// in `/dev/input`. The first list says, for each known keyboard, whether
/// to keep it: exactly when its reads have not failed and its node is
/// still present. A keyboard that failed or whose node is gone is let go.
/// The second list says, for each present node, whether to try to adopt
/// it: exactly when no kept keyboard uses that name, so a keyboard that
/// reconnects on the node of one that failed, or on a node that had
/// vanished, is opened afresh.
pub fn plan_rescan(known: &[(String, bool)], present: &[String]) -> (plan: (Vec<bool>, Vec<bool>))
    ensures
        plan.0@.len() == known@.len(),
        forall|i: int|
            0 <= i < known@.len() ==> plan.0@[i] == (!known@[i].1 && has_name(
                present@,
                known@[i].0@,
            )),
        plan.1@.len() == present@.len(),
        forall|j: int|
            0 <= j < present@.len() ==> plan.1@[j] == !has_live_name(known@, present@[j]@),
{
    let mut keep: Vec<bool> = Vec::new();
    let mut i: usize = 0;
    while i < known.len()
        invariant
            0 <= i <= known@.len(),
            keep@.len() == i,
            forall|k: int|
                0 <= k < i ==> keep@[k] == (!known@[k].1 && has_name(present@, known@[k].0@)),
        decreases known@.len() - i,
    {
        let live = !known[i].1;
        keep.push(live && contains_name(present, &known[i].0));
        i += 1;
    }
    let mut adopt: Vec<bool> = Vec::new();
    let mut j: usize = 0;
    while j < present.len()
        invariant
            0 <= j <= present@.len(),
            adopt@.len() == j,
            forall|k: int| 0 <= k < j ==> adopt@[k] == !has_live_name(known@, present@[k]@),
        decreases present@.len() - j,
    {
        adopt.push(!contains_live_name(known, &present[j]));
        j += 1;
    }
    (keep, adopt)
}

} // verus!
