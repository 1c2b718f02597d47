//! The ways in which a capture operation can fail.

use vstd::prelude::*;

verus! {

#[derive(Clone, Copy, Debug, PartialEq, Eq, Structural)]
pub enum CaptureError {
    /// The operating system could not be asked for its interfaces.
    DeviceEnumeration,
    /// The operating system names no preferred interface.
    NoDefaultDevice,
    /// No interface of the current list has the name asked for.
    DeviceNotFound,
    /// The interface exists but no capture handle could be opened on it.
    CaptureOpen,
    /// The receive loop was entered on a session that holds no open handle.
    NotInitialized,
}

impl CaptureError {
    /// The text shown to a user for this error.
    pub open spec fn text(self) -> Seq<char> {
        match self {
            CaptureError::DeviceEnumeration => "Device enumeration failed"@,
            CaptureError::NoDefaultDevice => "No default device found"@,
            CaptureError::DeviceNotFound => "Device not found"@,
            CaptureError::CaptureOpen => "Capture could not be opened"@,
            CaptureError::NotInitialized => "Capture not initialized"@,
        }
    }

    pub fn message(&self) -> (text: String)
        ensures
            text@ == self.text(),
    {
        match self {
            CaptureError::DeviceEnumeration => "Device enumeration failed".to_owned(),
            CaptureError::NoDefaultDevice => "No default device found".to_owned(),
            CaptureError::DeviceNotFound => "Device not found".to_owned(),
            CaptureError::CaptureOpen => "Capture could not be opened".to_owned(),
            CaptureError::NotInitialized => "Capture not initialized".to_owned(),
        }
    }
}

} // verus!
