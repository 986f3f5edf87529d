//! The ledger: one balance record per owner identity, with the
//! delegation/commit state machine and the value-conserving transfer
//! engine.
//!
//! Every operation is specified against a mathematical model: the
//! ledger is viewed as a map from owner identity to its record, and
//! each operation's result and state change are given by spec-level
//! transition functions, so that laws relating several operations can
//! be stated and proved over those functions alone.

use crate::model::{
    authorized, domain_of, Authority, Balance, DelegateParams, Domain, ErrorCode, RelayOutcome,
    Signature,
};
use std::collections::HashMap;
use vstd::prelude::*;

verus! {

/// The balance a map associates with an identity, counting an absent
/// record as zero.
pub open spec fn balance_or_zero(m: Map<u64, Balance>, k: u64) -> int {
    if m.contains_key(k) {
        m[k].balance as int
    } else {
        0
    }
}

/// The balance of an identity's record, if it has one.
pub open spec fn spec_balance_of(m: Map<u64, Balance>, k: u64) -> Option<u64> {
    if m.contains_key(k) {
        Some(m[k].balance)
    } else {
        None
    }
}

/// The authority state of an identity's record, if it has one.
pub open spec fn spec_authority_of(m: Map<u64, Balance>, k: u64) -> Option<Authority> {
    if m.contains_key(k) {
        Some(m[k].authority)
    } else {
        None
    }
}

/// What initialization reports: a record is created once per identity.
pub open spec fn init_result(m: Map<u64, Balance>, owner: u64) -> Result<(), ErrorCode> {
    if m.contains_key(owner) {
        Err(ErrorCode::AlreadyInitialized)
    } else {
        Ok(())
    }
}

/// The ledger after initialization: a fresh zero-balance record under
/// base-store authority, or no change on failure.
pub open spec fn init_state(m: Map<u64, Balance>, owner: u64) -> Map<u64, Balance> {
    if m.contains_key(owner) {
        m
    } else {
        m.insert(owner, Balance { balance: 0, authority: Authority::Based })
    }
}

/// What delegation reports: it requires an authorized signer and an
/// existing record under base-store authority.
pub open spec fn delegate_result(
    m: Map<u64, Balance>,
    auth: Signature,
    owner: u64,
    params: DelegateParams,
) -> Result<(), ErrorCode> {
    if !authorized(auth, owner) {
        Err(ErrorCode::Unauthorized)
    } else if !m.contains_key(owner) {
        Err(ErrorCode::NotInitialized)
    } else if m[owner].authority is Delegated {
        Err(ErrorCode::AlreadyDelegated)
    } else {
        Ok(())
    }
}

/// The ledger after delegation: the record's authority moves to the
/// delegated context under the given parameters, its balance untouched;
/// no change on failure.
pub open spec fn delegate_state(
    m: Map<u64, Balance>,
    auth: Signature,
    owner: u64,
    params: DelegateParams,
) -> Map<u64, Balance> {
    if delegate_result(m, auth, owner, params) is Ok {
        m.insert(
            owner,
            Balance { balance: m[owner].balance, authority: Authority::Delegated(params) },
        )
    } else {
        m
    }
}

/// The failure reported when a record's authority does not match the
/// requesting domain: the base store refuses a delegated record, the
/// delegated context refuses a record it was never handed.
pub open spec fn domain_error(ctx: Domain) -> ErrorCode {
    match ctx {
        Domain::Base => ErrorCode::AlreadyDelegated,
        Domain::Rollup => ErrorCode::NotDelegated,
    }
}

/// What a transfer reports. Both touched records must be under the
/// authority of the domain the request runs in; an absent receiver is
/// no obstacle (it is created lazily); the sender must cover the
/// amount.
pub open spec fn transfer_result(
    m: Map<u64, Balance>,
    ctx: Domain,
    auth: Signature,
    owner: u64,
    receiver: u64,
    amount: u64,
) -> Result<(), ErrorCode> {
    if !authorized(auth, owner) {
        Err(ErrorCode::Unauthorized)
    } else if !m.contains_key(owner) {
        Err(ErrorCode::NotInitialized)
    } else if domain_of(m[owner].authority) != ctx {
        Err(domain_error(ctx))
    } else if receiver != owner && m.contains_key(receiver) && domain_of(m[receiver].authority)
        != ctx {
        Err(domain_error(ctx))
    } else if m[owner].balance < amount {
        Err(ErrorCode::InsufficientBalance)
    } else {
        Ok(())
    }
}

/// The ledger after a transfer: the amount moves from the sender to
/// the receiver, a missing receiver record first coming into existence
/// with balance zero in the sender's authority domain; no change on
/// failure, and none on a self-transfer.
pub open spec fn transfer_state(
    m: Map<u64, Balance>,
    ctx: Domain,
    auth: Signature,
    owner: u64,
    receiver: u64,
    amount: u64,
) -> Map<u64, Balance> {
    if transfer_result(m, ctx, auth, owner, receiver, amount) is Ok && receiver != owner {
        let recv_balance = if m.contains_key(receiver) {
            m[receiver].balance
        } else {
            0u64
        };
        let recv_authority = if m.contains_key(receiver) {
            m[receiver].authority
        } else {
            m[owner].authority
        };
        m.insert(
            owner,
            Balance { balance: (m[owner].balance - amount) as u64, authority: m[owner].authority },
        ).insert(
            receiver,
            Balance { balance: (recv_balance + amount) as u64, authority: recv_authority },
        )
    } else {
        m
    }
}

/// The machine limit on a transfer: a successful transfer may not push
/// the receiver's balance past what its record can hold.
pub open spec fn transfer_fits(
    m: Map<u64, Balance>,
    ctx: Domain,
    auth: Signature,
    owner: u64,
    receiver: u64,
    amount: u64,
) -> bool {
    (transfer_result(m, ctx, auth, owner, receiver, amount) is Ok && receiver != owner
        && m.contains_key(receiver)) ==> m[receiver].balance + amount <= u64::MAX
}

/// What undelegation reports: it requires an authorized signer, an
/// existing record that is currently delegated, and a successful relay
/// of the commit-and-undelegate request to the delegated context.
pub open spec fn undelegate_result(
    m: Map<u64, Balance>,
    auth: Signature,
    owner: u64,
    relay: RelayOutcome,
) -> Result<(), ErrorCode> {
    if !authorized(auth, owner) {
        Err(ErrorCode::Unauthorized)
    } else if !m.contains_key(owner) {
        Err(ErrorCode::NotInitialized)
    } else if m[owner].authority is Based {
        Err(ErrorCode::NotDelegated)
    } else if relay is Failed {
        Err(ErrorCode::ReconciliationFailed)
    } else {
        Ok(())
    }
}

/// The ledger after undelegation: the record's current value is kept
/// and its authority returns to the base store, as one atomic
/// transition; on any failure, the relay's included, the record stays
/// exactly as it was (in particular it remains delegated).
pub open spec fn undelegate_state(
    m: Map<u64, Balance>,
    auth: Signature,
    owner: u64,
    relay: RelayOutcome,
) -> Map<u64, Balance> {
    if undelegate_result(m, auth, owner, relay) is Ok {
        m.insert(owner, Balance { balance: m[owner].balance, authority: Authority::Based })
    } else {
        m
    }
}

/// The ledger snapshot a list of base-store balances describes: each
/// listed identity holds the given balance under base-store authority,
/// a later entry for the same identity superseding an earlier one.
pub open spec fn snapshot_map(s: Seq<(u64, u64)>) -> Map<u64, Balance>
    decreases s.len(),
{
    if s.len() == 0 {
        Map::empty()
    } else {
        snapshot_map(s.drop_last()).insert(
            s.last().0,
            Balance { balance: s.last().1, authority: Authority::Based },
        )
    }
}

/// The arithmetic core of the transfer engine, applicable to any pair
/// of distinct records the caller holds exclusive access to: if the
/// sender covers the amount it returns the new (sender, receiver)
/// balances, the amount moved and the total conserved; otherwise it
/// reports `InsufficientBalance`.
pub fn transfer_amounts(sender_balance: u64, receiver_balance: u64, amount: u64) -> (r: Result<
    (u64, u64),
    ErrorCode,
>)
    requires
        receiver_balance + amount <= u64::MAX,
    ensures
        amount <= sender_balance ==> r == Ok::<(u64, u64), ErrorCode>(
            ((sender_balance - amount) as u64, (receiver_balance + amount) as u64),
        ),
        amount > sender_balance ==> r == Err::<(u64, u64), ErrorCode>(
            ErrorCode::InsufficientBalance,
        ),
        r matches Ok(p) ==> p.0 + p.1 == sender_balance + receiver_balance,
{
    if sender_balance < amount {
        Err(ErrorCode::InsufficientBalance)
    } else {
        Ok((sender_balance - amount, receiver_balance + amount))
    }
}

/// The ledger: every balance record, keyed by owner identity, each
/// tagged with the authority that currently holds write access to it.
pub struct Ledger {
    records: HashMap<u64, Balance>,
}

impl View for Ledger {
    type V = Map<u64, Balance>;

    closed spec fn view(&self) -> Map<u64, Balance> {
        self.records@
    }
}

/// Whether a record's authority admits mutation from the given domain.
fn in_domain(a: &Authority, ctx: &Domain) -> (r: bool)
    ensures
        r == (domain_of(*a) == *ctx),
{
    match (*a, *ctx) {
        (Authority::Based, Domain::Base) => true,
        (Authority::Delegated(_), Domain::Rollup) => true,
        _ => false,
    }
}

/// The error a domain mismatch surfaces as.
fn domain_error_of(ctx: &Domain) -> (e: ErrorCode)
    ensures
        e == domain_error(*ctx),
{
    match *ctx {
        Domain::Base => ErrorCode::AlreadyDelegated,
        Domain::Rollup => ErrorCode::NotDelegated,
    }
}

impl Ledger {
    /// An empty ledger: no identity has a record yet.
    pub fn new() -> (l: Ledger)
        ensures
            l@ == Map::<u64, Balance>::empty(),
    {
        Ledger { records: HashMap::new() }
    }

    /// A base-store ledger snapshot holding the given balances: a
    /// starting state, such as one with a funded source record.
    pub fn from_balances(entries: &Vec<(u64, u64)>) -> (l: Ledger)
        ensures
            l@ == snapshot_map(entries@),
    {
        let mut records: HashMap<u64, Balance> = HashMap::new();
        let mut i: usize = 0;
        while i < entries.len()
            invariant
                i <= entries.len(),
                records@ == snapshot_map(entries@.take(i as int)),
            decreases entries.len() - i,
        {
            let (k, v): (u64, u64) = entries[i];
            records.insert(k, Balance { balance: v, authority: Authority::Based });
            proof {
                assert(entries@.take(i as int + 1).drop_last() =~= entries@.take(i as int));
                assert(entries@.take(i as int + 1).last() == entries@[i as int]);
            }
            i = i + 1;
        }
        proof {
            assert(entries@.take(entries@.len() as int) =~= entries@);
        }
        Ledger { records }
    }

    /// Creates the signer's own zero-balance record under base-store
    /// authority; refused if the identity already has one.
    pub fn initialize(&mut self, auth: &Signature) -> (r: Result<(), ErrorCode>)
        ensures
            r == init_result(old(self)@, auth.signer),
            final(self)@ == init_state(old(self)@, auth.signer),
            r is Err ==> final(self)@ == old(self)@,
    {
        if self.records.contains_key(&auth.signer) {
            Err(ErrorCode::AlreadyInitialized)
        } else {
            self.records.insert(
                auth.signer,
                Balance { balance: 0, authority: Authority::Based },
            );
            Ok(())
        }
    }

    /// Hands write authority over the signer's record to the delegated
    /// context under the given parameters. The balance is untouched;
    /// a record that is already delegated is refused, never silently
    /// refreshed.
    pub fn delegate_balance(
        &mut self,
        auth: &Signature,
        owner: u64,
        params: DelegateParams,
    ) -> (r: Result<(), ErrorCode>)
        ensures
            r == delegate_result(old(self)@, *auth, owner, params),
            final(self)@ == delegate_state(old(self)@, *auth, owner, params),
            r is Err ==> final(self)@ == old(self)@,
            r is Ok ==> spec_balance_of(final(self)@, owner) == spec_balance_of(
                old(self)@,
                owner,
            ) && final(self)@[owner].authority == Authority::Delegated(params),
    {
        if auth.signer != owner {
            return Err(ErrorCode::Unauthorized);
        }
        let rec: Balance = match self.records.get(&owner) {
            Some(b) => *b,
            None => {
                return Err(ErrorCode::NotInitialized);
            },
        };
        match rec.authority {
            Authority::Delegated(_) => Err(ErrorCode::AlreadyDelegated),
            Authority::Based => {
                self.records.insert(
                    owner,
                    Balance { balance: rec.balance, authority: Authority::Delegated(params) },
                );
                Ok(())
            },
        }
    }

    /// Moves `amount` from the signer's record to the receiver's,
    /// atomically: both records change or neither does. The request
    /// acts in the domain `ctx` and is valid only against records that
    /// domain holds authority over; a missing receiver record is first
    /// created with balance zero in the sender's authority domain.
    pub fn transfer(
        &mut self,
        ctx: Domain,
        auth: &Signature,
        owner: u64,
        receiver: u64,
        amount: u64,
    ) -> (r: Result<(), ErrorCode>)
        requires
            transfer_fits(old(self)@, ctx, *auth, owner, receiver, amount),
        ensures
            r == transfer_result(old(self)@, ctx, *auth, owner, receiver, amount),
            final(self)@ == transfer_state(old(self)@, ctx, *auth, owner, receiver, amount),
            r is Err ==> final(self)@ == old(self)@,
            r is Ok ==> balance_or_zero(final(self)@, owner) + balance_or_zero(
                final(self)@,
                receiver,
            ) == balance_or_zero(old(self)@, owner) + balance_or_zero(old(self)@, receiver),
    {
        if auth.signer != owner {
            return Err(ErrorCode::Unauthorized);
        }
        let sender: Balance = match self.records.get(&owner) {
            Some(b) => *b,
            None => {
                return Err(ErrorCode::NotInitialized);
            },
        };
        if !in_domain(&sender.authority, &ctx) {
            return Err(domain_error_of(&ctx));
        }
        let recv: Option<Balance> = match self.records.get(&receiver) {
            Some(b) => Some(*b),
            None => None,
        };
        if receiver != owner {
            match recv {
                Some(rb) => {
                    if !in_domain(&rb.authority, &ctx) {
                        return Err(domain_error_of(&ctx));
                    }
                },
                None => {},
            }
        }
        if sender.balance < amount {
            return Err(ErrorCode::InsufficientBalance);
        }
        if receiver == owner {
            return Ok(());
        }
        let (recv_balance, recv_authority): (u64, Authority) = match recv {
            Some(rb) => (rb.balance, rb.authority),
            None => (0u64, sender.authority),
        };
        self.records.insert(
            owner,
            Balance { balance: sender.balance - amount, authority: sender.authority },
        );
        self.records.insert(
            receiver,
            Balance { balance: recv_balance + amount, authority: recv_authority },
        );
        Ok(())
    }

    /// Commits the delegated record's current value back to the base
    /// store and restores base-store authority, as one atomic
    /// transition. `relay` is the reported outcome of the
    /// commit-and-undelegate request that the surrounding runtime sent
    /// to the delegated context; on a failed relay the record remains
    /// delegated and the operation may simply be retried.
    pub fn undelegate(
        &mut self,
        auth: &Signature,
        owner: u64,
        relay: RelayOutcome,
    ) -> (r: Result<(), ErrorCode>)
        ensures
            r == undelegate_result(old(self)@, *auth, owner, relay),
            final(self)@ == undelegate_state(old(self)@, *auth, owner, relay),
            r is Err ==> final(self)@ == old(self)@,
            r is Ok ==> final(self)@[owner].authority is Based && final(self)@[owner].balance
                == old(self)@[owner].balance,
    {
        if auth.signer != owner {
            return Err(ErrorCode::Unauthorized);
        }
        let rec: Balance = match self.records.get(&owner) {
            Some(b) => *b,
            None => {
                return Err(ErrorCode::NotInitialized);
            },
        };
        match rec.authority {
            Authority::Based => Err(ErrorCode::NotDelegated),
            Authority::Delegated(_) => match relay {
                RelayOutcome::Failed => Err(ErrorCode::ReconciliationFailed),
                RelayOutcome::Committed => {
                    self.records.insert(
                        owner,
                        Balance { balance: rec.balance, authority: Authority::Based },
                    );
                    Ok(())
                },
            },
        }
    }

    /// The balance of an identity's record, if it has one.
    pub fn balance_of(&self, owner: u64) -> (r: Option<u64>)
        ensures
            r == spec_balance_of(self@, owner),
    {
        match self.records.get(&owner) {
            Some(b) => Some(b.balance),
            None => None,
        }
    }

    /// The authority state of an identity's record, if it has one.
    pub fn authority_of(&self, owner: u64) -> (r: Option<Authority>)
        ensures
            r == spec_authority_of(self@, owner),
    {
        match self.records.get(&owner) {
            Some(b) => Some(b.authority),
            None => None,
        }
    }
}

} // verus!
