use vstd::prelude::*;

verus! {

/// Every way an operation of the registry or of the escrow can fail.
#[derive(Debug, Clone, Copy, PartialEq, Eq, Structural)]
pub enum ContractError {
    Unauthorized,
    Frozen,
    EscrowNotFound,
    ToolNotFound,
    ToolInactive,
    FundsMismatch,
    FeeExceedsMax,
    FeeExceedsLocked,
    InvalidExpiration,
    NotExpired,
    EndpointTooLong,
    InvalidEndpointFormat,
    ToolIdTooLong,
    DescriptionTooLong,
}

} // verus!
