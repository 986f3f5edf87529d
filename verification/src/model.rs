//! Core data model: balance records, authority states, delegation
//! parameters, and the error taxonomy.

use vstd::prelude::*;

verus! {

/// Proof that a request is signed by (controls) a given identity.
///
/// The cryptographic primitive itself is an external collaborator; the
/// core logic only needs the capability claim it establishes. One
/// balance record exists per identity, at a key derived
/// deterministically and injectively from the identity's public
/// identifier, so the record key is represented here by the identity
/// itself.
#[derive(Clone, Copy)]
pub struct Signature {
    pub signer: u64,
}

/// A request is authorized for a record when its signature proves
/// control of the record's owning identity.
pub open spec fn authorized(auth: Signature, owner: u64) -> bool {
    auth.signer == owner
}

/// Parameters of a delegation: how often the delegated context should
/// checkpoint, and an optional designated validator identity.
#[derive(Clone, Copy)]
pub struct DelegateParams {
    pub commit_frequency_ms: u32,
    pub validator: Option<u64>,
}

/// The authority state of a balance record: exactly one of the base
/// store or the delegated context may mutate the record at any time.
#[derive(Clone, Copy)]
pub enum Authority {
    /// The base store holds write authority.
    Based,
    /// A delegated execution context holds write authority, under the
    /// recorded delegation parameters.
    Delegated(DelegateParams),
}

/// A balance record: a single non-negative value, tagged with the
/// authority that currently holds the exclusive right to mutate it.
#[derive(Clone, Copy)]
pub struct Balance {
    pub balance: u64,
    pub authority: Authority,
}

/// The execution domain a request runs in: directly against the base
/// store, or inside the delegated (rollup) context.
#[derive(Clone, Copy)]
pub enum Domain {
    Base,
    Rollup,
}

/// The domain that may mutate a record in a given authority state.
pub open spec fn domain_of(a: Authority) -> Domain {
    match a {
        Authority::Based => Domain::Base,
        Authority::Delegated(_) => Domain::Rollup,
    }
}

/// Outcome of the commit-and-undelegate request relayed to the
/// delegated context. The relay itself is an external collaborator;
/// the reconciliation logic decides from the reported outcome alone.
#[derive(Clone, Copy)]
pub enum RelayOutcome {
    /// The delegated context committed the record's current value and
    /// released its authority claim.
    Committed,
    /// The delegated context was unreachable or rejected the commit;
    /// nothing was released.
    Failed,
}

/// Every failure an operation can report.
#[derive(Clone, Copy, Debug, PartialEq, Eq, Structural)]
pub enum ErrorCode {
    /// The signature does not match the record's owning identity.
    Unauthorized,
    /// The operation requires an existing record that is absent.
    NotInitialized,
    /// A record may be created only once per identity.
    AlreadyInitialized,
    /// The record is already delegated; delegating again is refused.
    AlreadyDelegated,
    /// The record is not delegated; undelegating or mutating it from
    /// the delegated context is refused.
    NotDelegated,
    /// The sender's balance does not cover the requested amount.
    InsufficientBalance,
    /// The relay to the delegated context failed; the record remains
    /// delegated and the operation may be retried.
    ReconciliationFailed,
}

} // verus!
