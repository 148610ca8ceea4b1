//! The error kinds a factory invocation can end with.

use vstd::prelude::*;

verus! {

/// Every failure a factory entry point can report.
///
/// Each variant corresponds to one rejection rule of the controller:
/// * `Unauthorized` — the caller of an owner-gated operation is not the owner.
/// * `AlreadyExists` — a registry entry for the derived canonical key exists.
/// * `NotFound` — a required record (config, registry entry) is absent.
/// * `ValidationError` — an identity string or descriptor is malformed.
/// * `DecodingError` — the acknowledgment payload could not be decoded.
/// * `ProtocolViolation` — an acknowledgment arrived with no staged
///   pending record; the host and the registry are desynchronized.
/// * `SubMsgFailure` — the host reported the dispatched creation itself
///   as failed; the pending record is left in place.
/// * `ExpiredDeadline` — a deadline-guarded operation arrived at or
///   after its deadline.
#[derive(Debug, Clone, Copy, PartialEq, Eq, Structural)]
pub enum ContractError {
    Unauthorized,
    AlreadyExists,
    NotFound,
    ValidationError,
    DecodingError,
    ProtocolViolation,
    SubMsgFailure,
    ExpiredDeadline,
}

impl ContractError {
    /// A short human-readable message, phrased as the host reports it.
    pub fn message(&self) -> (r: &'static str)
        ensures
            r@ == self.spec_message(),
    {
        match self {
            ContractError::Unauthorized => "unauthorized",
            ContractError::AlreadyExists => "Pair already exists",
            ContractError::NotFound => "not found",
            ContractError::ValidationError => "invalid address",
            ContractError::DecodingError => "failed to parse data",
            ContractError::ProtocolViolation => "no staged pair creation",
            ContractError::SubMsgFailure => "pair instantiation failed",
            ContractError::ExpiredDeadline => "Expired deadline",
        }
    }

    /// The message each variant maps to.
    pub open spec fn spec_message(&self) -> Seq<char> {
        match self {
            ContractError::Unauthorized => "unauthorized"@,
            ContractError::AlreadyExists => "Pair already exists"@,
            ContractError::NotFound => "not found"@,
            ContractError::ValidationError => "invalid address"@,
            ContractError::DecodingError => "failed to parse data"@,
            ContractError::ProtocolViolation => "no staged pair creation"@,
            ContractError::SubMsgFailure => "pair instantiation failed"@,
            ContractError::ExpiredDeadline => "Expired deadline"@,
        }
    }
}

} // verus!
