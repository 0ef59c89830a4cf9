//! Shared types of the resolver interface: the error taxonomy, the resolver
//! descriptor, and the attestation record as the registry hands it over.

use vstd::prelude::*;

verus! {

/// Why a resolver operation was refused.
#[derive(Clone, Copy, Debug, PartialEq, Eq, Structural)]
pub enum ResolverError {
    /// The one-time configuration entry point was called a second time.
    AlreadyInitialized,
    /// A negative amount or fee was supplied.
    ValidationFailed,
    /// The caller's identity proof or role check failed.
    NotAuthorized,
    /// The token collaborator refused a transfer: the source balance is short.
    InsufficientFunds,
    /// The token collaborator refused a transfer for another reason
    /// (a negative amount).
    TransferFailed,
    /// An entry point other than the one-time configuration was reached
    /// before the resolver was configured.
    Uninitialized,
}

/// Which resolver variant answered a `metadata` query.
#[derive(Clone, Copy, Debug, PartialEq, Eq, Structural)]
pub enum ResolverType {
    TokenReward,
    FeeCollection,
}

/// Static descriptor of a resolver variant; returned by `metadata`.
pub struct ResolverMetadata {
    pub name: String,
    pub version: String,
    pub description: String,
    pub resolver_type: ResolverType,
}

/// An attestation as the registry presents it to a resolver: a timestamped
/// claim record. Resolvers read it and never own or alter it.
#[derive(Clone, Debug)]
pub struct AttestationRecord {
    /// Unique identifier of the attestation.
    pub uid: u64,
    /// Identifier of the schema the attestation instantiates.
    pub schema_uid: u64,
    /// Subject of the claim.
    pub recipient: u64,
    /// Issuer of the claim; the fee resolver charges this address.
    pub attester: u64,
    /// Ledger time of issue.
    pub time: u64,
    /// Ledger time after which the claim lapses; zero for none.
    pub expiration_time: u64,
    /// Ledger time of revocation; zero while not revoked.
    pub revocation_time: u64,
    /// Whether the claim may be revoked.
    pub revocable: bool,
    /// Identifier of a referenced attestation, empty for none.
    pub ref_uid: Vec<u8>,
    /// Opaque claim payload.
    pub data: Vec<u8>,
    /// Numeric value carried with the claim.
    pub value: i128,
}

} // verus!
