use vstd::prelude::*;

verus! {

/// Failures that the device operations report.
#[derive(Clone, Copy, Debug, PartialEq, Eq, Structural)]
pub enum ManagerError {
    /// The address is absent from the registry or unknown to the adapter.
    NotFound,
    /// A scan was started while another one is running.
    AlreadyRunning,
    /// The pairing handshake was rejected, timed out or failed.
    PairingFailed,
    /// No default radio adapter is present.
    AdapterUnavailable,
    /// A cache marker could not be created or deleted.
    CacheIoError,
}

} // verus!
