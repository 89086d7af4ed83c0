use vstd::prelude::*;

verus! {

/// `std::io::Error` is carried inside [`Error::Io`] as an opaque value;
/// nothing in this crate reads it.
#[verifier::external_type_specification]
#[verifier::external_body]
pub struct ExIoError(std::io::Error);

/// Errors returned when creating a tap or during its lifetime.
#[derive(Debug)]
#[non_exhaustive]
pub enum Error {
    /// macOS: Accessibility / Input Monitoring permission not granted.
    /// Linux: `/dev/input/event*` nodes were found but the calling process
    /// does not have permission to read them.
    PermissionDenied,
    /// Linux: no evdev keyboard devices were found.
    /// Usually means the user is not in the `input` group.
    NoDevices,
    /// The platform tap could not be created.
    TapFailed(String),
    /// Underlying I/O error (typically from evdev device reads on Linux).
    Io(std::io::Error),
}

} // verus!
