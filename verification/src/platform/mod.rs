//! Platform-specific event rules: scancode tables and the decisions each
//! operating-system listener makes about raw events.

pub mod linux;
pub mod macos;
pub mod windows;
