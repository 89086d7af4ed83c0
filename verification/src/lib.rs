//! Observe-only global keyboard taps: the verified core.
//!
//! This crate holds the platform-independent logic of a keyboard tap: the
//! physical key vocabulary, the per-platform scancode tables and event
//! classification rules, tap configuration, and the chord matcher state
//! machine. The operating-system listeners that feed it live outside.

mod time;

pub mod chord;
pub mod error;
pub mod event;
pub mod key;
pub mod platform;
pub mod tap;

pub use error::Error;
pub use event::{Event, EventKind};
pub use key::{Key, RawCode};
pub use tap::TapBuilder;
