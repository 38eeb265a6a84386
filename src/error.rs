use vstd::prelude::*;

verus! {

/// Why a capture operation did not succeed.
#[derive(Debug, Clone, PartialEq, Eq)]
pub enum CaptureError {
    /// The audio subsystem could not enumerate input devices.
    EnumerationFailed(String),
    /// Enumeration succeeded but found no named input device.
    NoDevicesFound,
    /// No enumerated device name contains the requested filter.
    DeviceNotFound(String),
    /// No filter was given and the system has no default input device.
    NoDefaultDevice,
    /// The device rejected the requested rate, channel count or block size.
    StreamConfig(String),
    /// The stream could not be built or started.
    StreamOpen(String),
    /// A capture session is already active.
    AlreadyRunning,
    /// The operation needs an active capture session.
    NotRunning,
}

} // verus!
