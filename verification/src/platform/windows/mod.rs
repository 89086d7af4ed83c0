//! Windows (low-level keyboard hook) event rules.

pub mod keycodes;

use std::collections::HashSet;

use vstd::prelude::*;
use windows_sys::Win32::UI::Input::KeyboardAndMouse::{VK_CONTROL, VK_MENU, VK_SHIFT};
use windows_sys::Win32::UI::WindowsAndMessaging::{
    LLKHF_EXTENDED, WM_KEYDOWN, WM_KEYUP, WM_SYSKEYDOWN, WM_SYSKEYUP,
};

use crate::event::EventKind;
use crate::key::Key;

use self::keycodes::{key_for_vk, key_from_vk, lemma_key_for_vk_of};

verus! {

broadcast use vstd::std_specs::hash::group_hash_axioms;

/// Reads `windows_sys`'s `VK_SHIFT`, the generic Shift virtual-key code,
/// which that crate defines as 16.
#[verifier::external_body]
fn vk_shift() -> (vk: u16)
    ensures
        vk == 0x10,
{
    VK_SHIFT
}

/// Reads `windows_sys`'s `VK_CONTROL`, the generic Ctrl virtual-key code,
/// which that crate defines as 17.
#[verifier::external_body]
fn vk_control() -> (vk: u16)
    ensures
        vk == 0x11,
{
    VK_CONTROL
}

/// Reads `windows_sys`'s `VK_MENU`, the generic Alt virtual-key code, which
/// that crate defines as 18.
#[verifier::external_body]
fn vk_menu() -> (vk: u16)
    ensures
        vk == 0x12,
{
    VK_MENU
}

/// Reads `windows_sys`'s `WM_KEYDOWN`, which that crate defines as 0x100.
#[verifier::external_body]
fn wm_keydown() -> (msg: u32)
    ensures
        msg == 0x100,
{
    WM_KEYDOWN
}

/// Reads `windows_sys`'s `WM_KEYUP`, which that crate defines as 0x101.
#[verifier::external_body]
fn wm_keyup() -> (msg: u32)
    ensures
        msg == 0x101,
{
    WM_KEYUP
}

/// Reads `windows_sys`'s `WM_SYSKEYDOWN`, which that crate defines as
/// 0x104.
#[verifier::external_body]
fn wm_syskeydown() -> (msg: u32)
    ensures
        msg == 0x104,
{
    WM_SYSKEYDOWN
}

/// Reads `windows_sys`'s `WM_SYSKEYUP`, which that crate defines as 0x105.
#[verifier::external_body]
fn wm_syskeyup() -> (msg: u32)
    ensures
        msg == 0x105,
{
    WM_SYSKEYUP
}

/// Reads `windows_sys`'s `LLKHF_EXTENDED`, the extended-key bit of a
/// low-level hook report's flags, which that crate defines as 1.
#[verifier::external_body]
fn llkhf_extended() -> (bit: u32)
    ensures
        bit == 1,
{
    LLKHF_EXTENDED
}

/// US-layout physical scancode of the left Shift key.
pub const SCAN_LEFT_SHIFT: u32 = 0x2A;

/// US-layout physical scancode of the right Shift key.
pub const SCAN_RIGHT_SHIFT: u32 = 0x36;

/// The key a low-level hook report stands for. The generic modifier codes
/// (Shift 0x10, Ctrl 0x11, Alt 0x12) are told apart by the scancode (right
/// Shift is 0x36) or by the extended-key flag (right Ctrl and Alt);
/// every other code goes through the virtual-key table.
pub open spec fn resolved_key(vk: u32, scan: u32, extended: bool) -> Key {
    if vk == 0x10 {
        if scan == SCAN_RIGHT_SHIFT {
            Key::ShiftRight
        } else {
            Key::ShiftLeft
        }
    } else if vk == 0x11 {
        if extended {
            Key::ControlRight
        } else {
            Key::ControlLeft
        }
    } else if vk == 0x12 {
        if extended {
            Key::AltRight
        } else {
            Key::AltLeft
        }
    } else {
        key_for_vk(vk)
    }
}

/// Only the generic modifier codes (0x10, 0x11, 0x12) depend on the
/// scancode or the extended-key flag: every other code resolves to the
/// virtual-key table's key for it, whatever scancode and flag come with it,
/// so two reports with the same such code resolve to the same key.
pub proof fn lemma_specific_codes_ignore_scan(vk: u32, scan: u32, extended: bool, scan2: u32, extended2: bool)
    requires
        vk != 0x10 && vk != 0x11 && vk != 0x12,
    ensures
        resolved_key(vk, scan, extended) == key_for_vk(vk),
        resolved_key(vk, scan, extended) == resolved_key(vk, scan2, extended2),
{
}

/// A generic modifier code resolves to the same key as the side-specific
/// code of the side the report names: Shift (0x10) as right Shift
/// (`VK_RSHIFT`, 0xA1) exactly when the scancode is right Shift's 0x36 and
/// as left Shift (`VK_LSHIFT`, 0xA0) otherwise; Ctrl (0x11) as `VK_RCONTROL`
/// (0xA3) or `VK_LCONTROL` (0xA2), and Alt (0x12) as `VK_RMENU` (0xA5) or
/// `VK_LMENU` (0xA4), by the extended-key flag.
pub proof fn lemma_generic_codes_pick_side(scan: u32, extended: bool)
    ensures
        resolved_key(0x10, scan, extended) == key_for_vk(if scan == 0x36 { 0xA1 } else { 0xA0 }),
        resolved_key(0x11, scan, extended) == key_for_vk(if extended { 0xA3 } else { 0xA2 }),
        resolved_key(0x12, scan, extended) == key_for_vk(if extended { 0xA5 } else { 0xA4 }),
{
    lemma_key_for_vk_of(Key::ShiftLeft, 0xA0);
    lemma_key_for_vk_of(Key::ShiftRight, 0xA1);
    lemma_key_for_vk_of(Key::ControlLeft, 0xA2);
    lemma_key_for_vk_of(Key::ControlRight, 0xA3);
    lemma_key_for_vk_of(Key::AltLeft, 0xA4);
    lemma_key_for_vk_of(Key::AltRight, 0xA5);
}

/// Maps a raw low-level-hook report (`vkCode`, `scanCode`, extended flag)
/// to a [`Key`], disambiguating the generic modifier codes that
/// occasionally appear.
pub fn resolve_key(vk: u32, scan: u32, extended: bool) -> (key: Key)
    ensures
        key == resolved_key(vk, scan, extended),
{
    if vk == vk_shift() as u32 {
        return match scan {
            SCAN_RIGHT_SHIFT => Key::ShiftRight,
            _ => Key::ShiftLeft,
        };
    }
    if vk == vk_control() as u32 {
        return if extended {
            Key::ControlRight
        } else {
            Key::ControlLeft
        };
    }
    if vk == vk_menu() as u32 {
        return if extended {
            Key::AltRight
        } else {
            Key::AltLeft
        };
    }
    key_from_vk(vk)
}

/// Per-hook state: the virtual-key codes currently held. The low-level
/// hook does not flag auto-repeat; a key-down for a code already held is
/// a repeat.
#[derive(Debug)]
pub struct HookState {
    held: HashSet<u32>,
}

impl HookState {
    /// The virtual-key codes currently held.
    pub closed spec fn held_codes(&self) -> Set<u32> {
        self.held@
    }

    /// A hook state with no key held.
    pub fn new() -> (state: Self)
        ensures
            state.held_codes() == Set::<u32>::empty(),
    {
        HookState { held: HashSet::new() }
    }

    /// Handles one low-level hook report: message `msg` and the report's
    /// `vkCode`, `scanCode` and `flags`. A key-down
    /// (`WM_KEYDOWN` 0x100 or `WM_SYSKEYDOWN` 0x104) of a held code is a
    /// repeat, of any other code a press; a key-up (`WM_KEYUP` 0x101 or
    /// `WM_SYSKEYUP` 0x105) is a release; other reports yield nothing and
    /// leave the state alone. The extended-key bit of `flags` is bit 0.
    pub fn on_hook(&mut self, msg: u32, vk: u32, scan: u32, flags: u32) -> (kind:
        Option<EventKind>)
        ensures
            ({
                let key = resolved_key(vk, scan, flags & 1 != 0);
                let is_down = msg == 0x100 || msg == 0x104;
                let is_up = msg == 0x101 || msg == 0x105;
                if is_down {
                    &&& kind == if old(self).held_codes().contains(vk) {
                        Some(EventKind::KeyRepeat(key))
                    } else {
                        Some(EventKind::KeyDown(key))
                    }
                    &&& final(self).held_codes() == old(self).held_codes().insert(vk)
                } else if is_up {
                    &&& kind == Some(EventKind::KeyUp(key))
                    &&& final(self).held_codes() == old(self).held_codes().remove(vk)
                } else {
                    kind is None && final(self).held_codes() == old(self).held_codes()
                }
            }),
    {
        let extended = (flags & llkhf_extended()) != 0;
        let key = resolve_key(vk, scan, extended);
        let is_down = msg == wm_keydown() || msg == wm_syskeydown();
        let is_up = msg == wm_keyup() || msg == wm_syskeyup();
        if is_down {
            if !self.held.insert(vk) {
                Some(EventKind::KeyRepeat(key))
            } else {
                Some(EventKind::KeyDown(key))
            }
        } else if is_up {
            self.held.remove(&vk);
            Some(EventKind::KeyUp(key))
        } else {
            None
        }
    }
}

} // verus!
