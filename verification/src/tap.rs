//! Tap configuration.

use std::time::Duration;

use vstd::prelude::*;

verus! {

/// Default channel capacity if the caller doesn't override it.
pub const DEFAULT_CAPACITY: usize = 4096;

/// Default time, in milliseconds, a tap's shutdown waits for the platform
/// thread to exit.
pub const DEFAULT_SHUTDOWN_TIMEOUT_MS: u64 = 500;

/// Default interval, in seconds, between rescans for hot-plugged Linux
/// input devices.
pub const DEFAULT_HOTPLUG_INTERVAL_SECS: u64 = 1;

/// The duration that `Duration::from_millis(ms)` builds.
pub uninterp spec fn duration_from_millis(ms: u64) -> Duration;

/// The duration that `Duration::from_secs(secs)` builds.
pub uninterp spec fn duration_from_secs(secs: u64) -> Duration;

/// Calls `std::time::Duration::from_millis`; its result is named
/// [`duration_from_millis`] of the argument. The function does not panic.
#[verifier::external_body]
fn millis(ms: u64) -> (d: Duration)
    ensures
        d == duration_from_millis(ms),
{
    Duration::from_millis(ms)
}

/// Calls `std::time::Duration::from_secs`; its result is named
/// [`duration_from_secs`] of the argument. The function does not panic.
#[verifier::external_body]
fn secs(s: u64) -> (d: Duration)
    ensures
        d == duration_from_secs(s),
{
    Duration::from_secs(s)
}

/// Configurable tap construction.
#[derive(Debug)]
pub struct TapBuilder {
    /// Channel capacity for a bounded tap. Events beyond capacity are
    /// dropped.
    pub capacity: usize,
    /// Whether the event channel is unbounded.
    pub unbounded: bool,
    /// On Linux, how long to wait between hot-plug rescans.
    pub linux_hotplug_interval: Duration,
    /// On macOS, report every auto-repeat as `KeyDown` instead of
    /// `KeyRepeat`.
    pub macos_no_repeat_detection: bool,
    /// How long dropping the tap waits for the platform thread to exit.
    pub shutdown_timeout: Duration,
}

impl Clone for TapBuilder {
    fn clone(&self) -> (copy: Self)
        ensures
            copy == *self,
    {
        TapBuilder {
            capacity: self.capacity,
            unbounded: self.unbounded,
            linux_hotplug_interval: self.linux_hotplug_interval,
            macos_no_repeat_detection: self.macos_no_repeat_detection,
            shutdown_timeout: self.shutdown_timeout,
        }
    }
}

impl Default for TapBuilder {
    /// Bounded channel of 4096 events, 1 s hot-plug interval, macOS repeat
    /// detection on, 500 ms shutdown timeout.
    fn default() -> (builder: Self)
        ensures
            builder.capacity == DEFAULT_CAPACITY,
            !builder.unbounded,
            builder.linux_hotplug_interval == duration_from_secs(DEFAULT_HOTPLUG_INTERVAL_SECS),
            !builder.macos_no_repeat_detection,
            builder.shutdown_timeout == duration_from_millis(DEFAULT_SHUTDOWN_TIMEOUT_MS),
    {
        TapBuilder {
            capacity: DEFAULT_CAPACITY,
            unbounded: false,
            linux_hotplug_interval: secs(DEFAULT_HOTPLUG_INTERVAL_SECS),
            macos_no_repeat_detection: false,
            shutdown_timeout: millis(DEFAULT_SHUTDOWN_TIMEOUT_MS),
        }
    }
}

impl TapBuilder {
    /// Sets the channel capacity of a bounded tap.
    pub fn capacity(self, n: usize) -> (builder: Self)
        ensures
            builder == (TapBuilder { capacity: n, ..self }),
    {
        TapBuilder { capacity: n, ..self }
    }

    /// Makes the event channel unbounded.
    pub fn unbounded(self) -> (builder: Self)
        ensures
            builder == (TapBuilder { unbounded: true, ..self }),
    {
        TapBuilder { unbounded: true, ..self }
    }

    /// Sets the Linux hot-plug rescan interval.
    pub fn linux_hotplug_interval(self, d: Duration) -> (builder: Self)
        ensures
            builder == (TapBuilder { linux_hotplug_interval: d, ..self }),
    {
        TapBuilder { linux_hotplug_interval: d, ..self }
    }

    /// Turns off macOS repeat detection: auto-repeats arrive as `KeyDown`.
    pub fn macos_no_repeat_detection(self) -> (builder: Self)
        ensures
            builder == (TapBuilder { macos_no_repeat_detection: true, ..self }),
    {
        TapBuilder { macos_no_repeat_detection: true, ..self }
    }

    /// Sets how long dropping the tap waits for the platform thread.
    pub fn shutdown_timeout(self, d: Duration) -> (builder: Self)
        ensures
            builder == (TapBuilder { shutdown_timeout: d, ..self }),
    {
        TapBuilder { shutdown_timeout: d, ..self }
    }
}

} // verus!
