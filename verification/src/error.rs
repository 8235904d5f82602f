use vstd::prelude::*;

verus! {

/// The reasons for which the endpoint refuses an instruction.
#[derive(Clone, Copy, Debug, PartialEq, Eq, Structural)]
pub enum EndpointError {
    /// Caller is not authorized
    CallerNotAuthorized,
    /// Bitmap index is out of bounds
    BitmapIndexOutOfBounds,
    /// Maximum number of adapters reached
    MaxAdaptersReached,
    /// Adapter was already enabled
    AdapterAlreadyEnabled,
    /// Adapter was already disabled
    AdapterAlreadyDisabled,
    /// An admin transfer is in progress
    AdminTransferInProgress,
    /// No admin transfer is in progress
    NoAdminTransferInProgress,
    /// Invalid Chain Id
    InvalidChainId,
    /// No Adapters Enabled
    AdapterNotEnabled,
    /// Duplicate Message Attestation
    DuplicateMessageAttestation,
    /// Message has already been picked up
    MessageAlreadyPickedUp,
    /// Message has already been executed
    AlreadyExecuted,
    /// Unknown Message Attestation
    UnknownMessageAttestation,
    /// Message Hash is invalid
    InvalidMessageHash,
    /// Destination chain is not this chain
    InvalidDestinationChain,
}

} // verus!
