//! Laws of the ledger, stated over the spec-level transition functions
//! that every operation's contract is given in, and proved once and
//! for all.

use crate::ledger::{
    balance_or_zero, delegate_result, delegate_state, transfer_fits, transfer_result,
    transfer_state, undelegate_result, undelegate_state,
};
use crate::model::{
    authorized, domain_of, Balance, DelegateParams, Domain, ErrorCode, RelayOutcome, Signature,
};
use vstd::prelude::*;

verus! {

/// Value conservation: a successful transfer moves value, it never
/// creates or destroys it — the sender's and receiver's balances sum
/// to the same total before and after.
pub proof fn lemma_transfer_conserves_value(
    m: Map<u64, Balance>,
    ctx: Domain,
    auth: Signature,
    owner: u64,
    receiver: u64,
    amount: u64,
)
    requires
        transfer_result(m, ctx, auth, owner, receiver, amount) is Ok,
        transfer_fits(m, ctx, auth, owner, receiver, amount),
    ensures
        ({
            let m2 = transfer_state(m, ctx, auth, owner, receiver, amount);
            balance_or_zero(m2, owner) + balance_or_zero(m2, receiver) == balance_or_zero(m, owner)
                + balance_or_zero(m, receiver)
        }),
{
}

/// No record's balance is ever negative, a missing record counting as
/// zero.
pub proof fn lemma_balances_never_negative(m: Map<u64, Balance>, k: u64)
    ensures
        balance_or_zero(m, k) >= 0,
{
}

/// A transfer the sender cannot cover is refused as exactly
/// `InsufficientBalance`, and leaves every balance — the sender's and
/// the receiver's included — unchanged.
pub proof fn lemma_insufficient_balance_rejected(
    m: Map<u64, Balance>,
    ctx: Domain,
    auth: Signature,
    owner: u64,
    receiver: u64,
    amount: u64,
)
    requires
        authorized(auth, owner),
        m.contains_key(owner),
        domain_of(m[owner].authority) == ctx,
        receiver == owner || !m.contains_key(receiver) || domain_of(m[receiver].authority) == ctx,
        m[owner].balance < amount,
    ensures
        transfer_result(m, ctx, auth, owner, receiver, amount) == Err::<(), ErrorCode>(
            ErrorCode::InsufficientBalance,
        ),
        transfer_state(m, ctx, auth, owner, receiver, amount) == m,
{
}

/// Reconciliation preserves value and order: delegating a record,
/// transferring while delegated, and undelegating leaves every
/// identity with exactly the balance a direct base-store transfer
/// would have left it — delegated mutations are committed, not lost.
pub proof fn lemma_delegated_transfer_commits(
    m: Map<u64, Balance>,
    auth: Signature,
    owner: u64,
    receiver: u64,
    amount: u64,
    params: DelegateParams,
)
    requires
        authorized(auth, owner),
        m.contains_key(owner),
        m[owner].authority is Based,
        receiver != owner,
        !m.contains_key(receiver),
        amount <= m[owner].balance,
    ensures
        ({
            let md = delegate_state(m, auth, owner, params);
            let mt = transfer_state(md, Domain::Rollup, auth, owner, receiver, amount);
            let mu = undelegate_state(mt, auth, owner, RelayOutcome::Committed);
            let mb = transfer_state(m, Domain::Base, auth, owner, receiver, amount);
            &&& delegate_result(m, auth, owner, params) is Ok
            &&& transfer_result(md, Domain::Rollup, auth, owner, receiver, amount) is Ok
            &&& undelegate_result(mt, auth, owner, RelayOutcome::Committed) is Ok
            &&& transfer_result(m, Domain::Base, auth, owner, receiver, amount) is Ok
            &&& forall|k: u64| balance_or_zero(mu, k) == balance_or_zero(mb, k)
        }),
{
    let md = delegate_state(m, auth, owner, params);
    let mt = transfer_state(md, Domain::Rollup, auth, owner, receiver, amount);
    let mu = undelegate_state(mt, auth, owner, RelayOutcome::Committed);
    let mb = transfer_state(m, Domain::Base, auth, owner, receiver, amount);
    assert forall|k: u64| balance_or_zero(mu, k) == balance_or_zero(mb, k) by {
        if k == owner {
            assert(balance_or_zero(mu, k) == m[owner].balance - amount);
            assert(balance_or_zero(mb, k) == m[owner].balance - amount);
        } else if k == receiver {
            assert(balance_or_zero(mu, k) == amount as int);
            assert(balance_or_zero(mb, k) == amount as int);
        } else {
            assert(balance_or_zero(mu, k) == balance_or_zero(m, k));
            assert(balance_or_zero(mb, k) == balance_or_zero(m, k));
        }
    }
}

/// Delegation is not reentrant: delegating an already delegated record
/// fails with exactly `AlreadyDelegated`, the recorded parameters are
/// not refreshed, and the record's balance is unaffected.
pub proof fn lemma_delegate_twice_rejected(
    m: Map<u64, Balance>,
    auth: Signature,
    owner: u64,
    first: DelegateParams,
    second: DelegateParams,
)
    requires
        delegate_result(m, auth, owner, first) is Ok,
    ensures
        ({
            let m1 = delegate_state(m, auth, owner, first);
            &&& delegate_result(m1, auth, owner, second) == Err::<(), ErrorCode>(
                ErrorCode::AlreadyDelegated,
            )
            &&& delegate_state(m1, auth, owner, second) == m1
            &&& m1[owner].balance == m[owner].balance
        }),
{
}

/// Undelegation requires a delegation: on a record that was never
/// delegated it fails with exactly `NotDelegated`, whatever the relay
/// would have reported, and changes nothing.
pub proof fn lemma_undelegate_never_delegated(
    m: Map<u64, Balance>,
    auth: Signature,
    owner: u64,
    relay: RelayOutcome,
)
    requires
        authorized(auth, owner),
        m.contains_key(owner),
        m[owner].authority is Based,
    ensures
        undelegate_result(m, auth, owner, relay) == Err::<(), ErrorCode>(ErrorCode::NotDelegated),
        undelegate_state(m, auth, owner, relay) == m,
{
}

} // verus!
