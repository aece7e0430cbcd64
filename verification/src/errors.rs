//! The closed set of failures surfaced to callers.

use vstd::prelude::*;
use vstd::string::*;

verus! {

/// Why a capture session could not be started or continued.
///
/// Environment errors (`DeviceUnavailable`, `PermissionDenied`,
/// `AecNotSupported`) surface from session start and are never retried here.
/// `InvalidConfig` is raised before any native resource is touched.
/// `BackendError` wraps a native-engine failure, either at start or as the
/// single terminal message of a running session.
#[derive(Debug, Clone, PartialEq, Eq)]
pub enum AecError {
    DeviceUnavailable,
    PermissionDenied,
    AecNotSupported,
    InvalidConfig(String),
    BackendError(String),
}

impl AecError {
    /// A human-readable description of the failure.
    pub fn message(&self) -> (r: String)
        ensures
            match self {
                AecError::DeviceUnavailable => r@ == "audio device unavailable"@,
                AecError::PermissionDenied => r@ == "microphone permission denied"@,
                AecError::AecNotSupported => r@ == "AEC not supported on this device"@,
                AecError::InvalidConfig(reason) => r@ == "invalid configuration: "@ + reason@,
                AecError::BackendError(reason) => r@ == "backend error: "@ + reason@,
            },
    {
        match self {
            AecError::DeviceUnavailable => String::from_str("audio device unavailable"),
            AecError::PermissionDenied => String::from_str("microphone permission denied"),
            AecError::AecNotSupported => String::from_str("AEC not supported on this device"),
            AecError::InvalidConfig(reason) => {
                String::from_str("invalid configuration: ").concat(reason.as_str())
            },
            AecError::BackendError(reason) => {
                String::from_str("backend error: ").concat(reason.as_str())
            },
        }
    }
}

} // verus!
