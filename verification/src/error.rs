use vstd::prelude::*;

verus! {

/// Why a command did not reach the indicator.
#[derive(Clone, Copy, Debug, PartialEq, Eq, Structural)]
pub enum PatliteError {
    /// No attached device has the wanted identifiers, or none of them could be opened.
    DeviceNotFound,
    /// The device offers no endpoint with the wanted address.
    EndpointNotFound,
    /// Selecting the configuration, claiming the interface or selecting the
    /// alternate setting failed.
    ConfigurationFailed,
    /// A field value does not fit in four bits.
    InvalidArgument,
    /// The transfer timed out, moved fewer bytes than a frame holds, or the
    /// host reported an error.
    TransferFailed,
}

} // verus!
