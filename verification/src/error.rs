//! The fatal conditions of a polling run and the exit code each one carries.

use vstd::prelude::*;

verus! {

/// Exit code of a run that ended normally.
pub const EXIT_OK: i32 = 0;

/// Exit code when the device path does not exist.
pub const EXIT_DEVICE_NOT_FOUND: i32 = 10;

/// Exit code when the device could not be opened.
pub const EXIT_OPEN_FAILED: i32 = 11;

/// Exit code when the device rejected its configuration.
pub const EXIT_CONFIGURE_FAILED: i32 = 12;

/// Exit code when a read failed.
pub const EXIT_READ_FAILED: i32 = 13;

/// Which of the four fatal conditions occurred.
#[derive(Clone, Copy, Debug, PartialEq, Eq, Structural)]
pub enum ErrorKind {
    /// The device path names nothing in the file system.
    DeviceNotFound,
    /// The operating system refused to open the device.
    OpenFailed,
    /// The device rejected the bus mode.
    ConfigureFailed,
    /// A read transaction failed.
    ReadFailed,
}

impl ErrorKind {
    /// The exit code that belongs to this condition.
    pub open spec fn code(self) -> int {
        match self {
            ErrorKind::DeviceNotFound => 10,
            ErrorKind::OpenFailed => 11,
            ErrorKind::ConfigureFailed => 12,
            ErrorKind::ReadFailed => 13,
        }
    }

    /// The exit code that belongs to this condition.
    pub fn exit_code(self) -> (code: i32)
        ensures
            code == self.code(),
    {
        match self {
            ErrorKind::DeviceNotFound => EXIT_DEVICE_NOT_FOUND,
            ErrorKind::OpenFailed => EXIT_OPEN_FAILED,
            ErrorKind::ConfigureFailed => EXIT_CONFIGURE_FAILED,
            ErrorKind::ReadFailed => EXIT_READ_FAILED,
        }
    }
}

/// A fatal condition together with the description of what lay beneath it.
#[derive(Clone, Debug, PartialEq, Eq)]
pub struct PollError {
    /// Which condition occurred.
    pub kind: ErrorKind,
    /// The underlying description, for diagnostics: the path that was not
    /// found, or what the operating system or the driver said.
    pub detail: String,
}

/// A fatal condition with its description as a sequence of characters.
pub struct PollErrorView {
    pub kind: ErrorKind,
    pub detail: Seq<char>,
}

impl View for PollError {
    type V = PollErrorView;

    open spec fn view(&self) -> PollErrorView {
        PollErrorView { kind: self.kind, detail: self.detail@ }
    }
}

impl PollError {
    /// The exit code the process ends with after this error.
    pub fn exit_code(&self) -> (code: i32)
        ensures
            code == self.kind.code(),
    {
        self.kind.exit_code()
    }
}

} // verus!
