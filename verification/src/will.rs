//! A will record and the transitions of its lifecycle.
//!
//! ```text
//! Draft --activate--> Active --execute--> Executed
//! Draft --revoke----> Revoked
//! Active --revoke---> Revoked
//! Draft --update----> Draft
//! Active --update---> Active
//! ```
//!
//! `Executed` and `Revoked` are terminal. Every transition is all or nothing:
//! a refused one leaves the record as it was.

use vstd::prelude::*;
use crate::condition::{all_conditions_met, conditions_met, Condition, Verdict};
use crate::error::WillError;
use crate::principal::Principal;

verus! {

/// The whole of an estate, in basis points.
pub const FULL_SHARE: u32 = 10_000;

/// Where a will stands in its lifecycle.
#[derive(Clone, Copy, Debug, PartialEq, Eq, Structural)]
pub enum WillStatus {
    Draft,
    Active,
    Executed,
    Revoked,
}

/// A recipient, the share of the estate that goes to them, and the
/// conditions on their own entitlement.
#[derive(Clone, Debug)]
pub struct Beneficiary {
    pub address: Principal,
    /// In basis points: 10000 is the whole.
    pub share: u32,
    /// These gate what is handed to this beneficiary, not the execution of
    /// the will.
    pub conditions: Vec<Condition>,
}

/// A will: who owns it, what it refers to, who receives what, and what has to
/// hold before it is executed.
#[derive(Clone, Debug)]
pub struct WillData {
    pub owner: Principal,
    pub content_hash: [u8; 32],
    pub status: WillStatus,
    pub beneficiaries: Vec<Beneficiary>,
    pub execution_conditions: Vec<Condition>,
    pub created_at: u64,
    pub last_modified: u64,
}

/// What the distribution collaborator is told for one beneficiary of an
/// executed will.
#[derive(Clone, Copy, Debug)]
pub struct Distribution {
    pub beneficiary: Principal,
    pub share: u32,
    pub will_id: [u8; 32],
}

/// The sum of the shares, as a mathematical integer.
pub open spec fn total_shares(beneficiaries: Seq<Beneficiary>) -> int
    decreases beneficiaries.len(),
{
    if beneficiaries.len() == 0 {
        0
    } else {
        total_shares(beneficiaries.drop_last()) + beneficiaries.last().share
    }
}

/// The shares add up to exactly the whole.
pub open spec fn shares_valid(beneficiaries: Seq<Beneficiary>) -> bool {
    total_shares(beneficiaries) == FULL_SHARE
}

/// The sum over a prefix never exceeds the sum over the whole sequence.
proof fn lemma_total_shares_prefix(beneficiaries: Seq<Beneficiary>, n: int)
    requires
        0 <= n <= beneficiaries.len(),
    ensures
        0 <= total_shares(beneficiaries.take(n)) <= total_shares(beneficiaries),
    decreases beneficiaries.len() - n,
{
    if n == beneficiaries.len() {
        assert(beneficiaries.take(n) =~= beneficiaries);
        lemma_total_shares_nonnegative(beneficiaries);
    } else {
        lemma_total_shares_prefix(beneficiaries, n + 1);
        assert(beneficiaries.take(n + 1).drop_last() =~= beneficiaries.take(n));
        lemma_total_shares_nonnegative(beneficiaries.take(n));
    }
}

/// A sum of shares is never negative.
proof fn lemma_total_shares_nonnegative(beneficiaries: Seq<Beneficiary>)
    ensures
        0 <= total_shares(beneficiaries),
    decreases beneficiaries.len(),
{
    if beneficiaries.len() > 0 {
        lemma_total_shares_nonnegative(beneficiaries.drop_last());
    }
}

/// No single share exceeds the sum of all.
pub proof fn lemma_share_within_total(beneficiaries: Seq<Beneficiary>, i: int)
    requires
        0 <= i < beneficiaries.len(),
    ensures
        beneficiaries[i].share <= total_shares(beneficiaries),
    decreases beneficiaries.len(),
{
    lemma_total_shares_nonnegative(beneficiaries.drop_last());
    if i < beneficiaries.len() - 1 {
        lemma_share_within_total(beneficiaries.drop_last(), i);
    }
}

/// Accepts a set of beneficiaries exactly when their shares add up to 10000
/// basis points, with no tolerance.
pub fn validate_beneficiary_shares(beneficiaries: &Vec<Beneficiary>) -> (result: Result<
    (),
    WillError,
>)
    ensures
        shares_valid(beneficiaries@) ==> result == Ok::<(), WillError>(()),
        !shares_valid(beneficiaries@) ==> result == Err::<(), WillError>(WillError::InvalidShares),
{
    let mut total: u64 = 0;
    let mut i: usize = 0;
    while i < beneficiaries.len()
        invariant
            i <= beneficiaries@.len(),
            total == total_shares(beneficiaries@.take(i as int)),
            total <= FULL_SHARE,
        decreases beneficiaries@.len() - i,
    {
        proof {
            assert(beneficiaries@.take(i + 1).drop_last() =~= beneficiaries@.take(i as int));
            lemma_total_shares_prefix(beneficiaries@, i + 1);
        }
        total = total + beneficiaries[i].share as u64;
        if total > FULL_SHARE as u64 {
            return Err(WillError::InvalidShares);
        }
        i = i + 1;
    }
    assert(beneficiaries@.take(i as int) =~= beneficiaries@);
    if total == FULL_SHARE as u64 {
        Ok(())
    } else {
        Err(WillError::InvalidShares)
    }
}

impl WillData {
    /// What creating a will gives: the new record in `Draft`, stamped with
    /// `now`, or the reason why there is none.
    pub open spec fn try_create(
        caller: Principal,
        owner: Principal,
        content_hash: [u8; 32],
        beneficiaries: Vec<Beneficiary>,
        execution_conditions: Vec<Condition>,
        now: u64,
    ) -> Result<WillData, WillError> {
        if caller != owner {
            Err(WillError::Unauthorized)
        } else if !shares_valid(beneficiaries@) {
            Err(WillError::InvalidShares)
        } else {
            Ok(
                WillData {
                    owner,
                    content_hash,
                    status: WillStatus::Draft,
                    beneficiaries,
                    execution_conditions,
                    created_at: now,
                    last_modified: now,
                },
            )
        }
    }

    /// What activating gives: the record in `Active`, or the reason why it
    /// stays as it is.
    pub open spec fn try_activate(self, caller: Principal, now: u64) -> Result<
        WillData,
        WillError,
    > {
        if caller != self.owner {
            Err(WillError::Unauthorized)
        } else if self.status != WillStatus::Draft {
            Err(WillError::InvalidTransition)
        } else {
            Ok(WillData { status: WillStatus::Active, last_modified: now, ..self })
        }
    }

    /// What updating gives: the record with new content, beneficiaries and
    /// conditions, its status kept, or the reason why it stays as it is.
    pub open spec fn try_update(
        self,
        caller: Principal,
        new_content_hash: [u8; 32],
        new_beneficiaries: Vec<Beneficiary>,
        new_execution_conditions: Vec<Condition>,
        now: u64,
    ) -> Result<WillData, WillError> {
        if caller != self.owner {
            Err(WillError::Unauthorized)
        } else if self.is_terminal() {
            Err(WillError::InvalidTransition)
        } else if !shares_valid(new_beneficiaries@) {
            Err(WillError::InvalidShares)
        } else {
            Ok(
                WillData {
                    content_hash: new_content_hash,
                    beneficiaries: new_beneficiaries,
                    execution_conditions: new_execution_conditions,
                    last_modified: now,
                    ..self
                },
            )
        }
    }

    /// What revoking gives: the record in `Revoked`, or the reason why it
    /// stays as it is.
    pub open spec fn try_revoke(self, caller: Principal, now: u64) -> Result<WillData, WillError> {
        if caller != self.owner {
            Err(WillError::Unauthorized)
        } else if self.is_terminal() {
            Err(WillError::InvalidTransition)
        } else {
            Ok(WillData { status: WillStatus::Revoked, last_modified: now, ..self })
        }
    }

    /// What executing gives: the record in `Executed`, or the reason why it
    /// stays as it is.
    pub open spec fn try_execute(self, verdicts: Seq<Verdict>, now: u64) -> Result<
        WillData,
        WillError,
    > {
        if self.status != WillStatus::Active {
            Err(WillError::InvalidTransition)
        } else if !conditions_met(self.execution_conditions@.len(), verdicts) {
            Err(WillError::ConditionsNotMet)
        } else {
            Ok(WillData { status: WillStatus::Executed, last_modified: now, ..self })
        }
    }

    /// One signal per beneficiary, in the order of the beneficiaries.
    pub open spec fn distributions(self, will_id: [u8; 32]) -> Seq<Distribution> {
        Seq::new(
            self.beneficiaries@.len(),
            |i: int|
                Distribution {
                    beneficiary: self.beneficiaries@[i].address,
                    share: self.beneficiaries@[i].share,
                    will_id,
                },
        )
    }

    /// `Executed` and `Revoked` are terminal: no transition leaves them.
    pub open spec fn is_terminal(self) -> bool {
        self.status == WillStatus::Executed || self.status == WillStatus::Revoked
    }

    /// How a transition ends: with the record that `outcome` holds and `Ok`,
    /// or with the record untouched and the error that `outcome` holds.
    pub open spec fn settles<T>(
        before: WillData,
        after: WillData,
        outcome: Result<WillData, WillError>,
        result: Result<T, WillError>,
    ) -> bool {
        match outcome {
            Ok(next) => result is Ok && after == next,
            Err(error) => result == Err::<T, WillError>(error) && after == before,
        }
    }

    /// Creates a will for `owner` on the authority of `caller`. The new
    /// record is in `Draft`, created and last modified at `now`.
    pub fn create(
        caller: &Principal,
        owner: Principal,
        content_hash: [u8; 32],
        beneficiaries: Vec<Beneficiary>,
        execution_conditions: Vec<Condition>,
        now: u64,
    ) -> (result: Result<WillData, WillError>)
        ensures
            result == WillData::try_create(
                *caller,
                owner,
                content_hash,
                beneficiaries,
                execution_conditions,
                now,
            ),
    {
        if *caller != owner {
            return Err(WillError::Unauthorized);
        }
        match validate_beneficiary_shares(&beneficiaries) {
            Err(error) => Err(error),
            Ok(()) => Ok(
                WillData {
                    owner,
                    content_hash,
                    status: WillStatus::Draft,
                    beneficiaries,
                    execution_conditions,
                    created_at: now,
                    last_modified: now,
                },
            ),
        }
    }

    /// Takes a draft into force.
    pub fn activate(&mut self, caller: &Principal, now: u64) -> (result: Result<(), WillError>)
        ensures
            WillData::settles(
                *old(self),
                *final(self),
                old(self).try_activate(*caller, now),
                result,
            ),
    {
        if *caller != self.owner {
            return Err(WillError::Unauthorized);
        }
        if self.status != WillStatus::Draft {
            return Err(WillError::InvalidTransition);
        }
        self.status = WillStatus::Active;
        self.last_modified = now;
        Ok(())
    }

    /// Replaces content, beneficiaries and conditions together, or none of
    /// them.
    pub fn update(
        &mut self,
        caller: &Principal,
        new_content_hash: [u8; 32],
        new_beneficiaries: Vec<Beneficiary>,
        new_execution_conditions: Vec<Condition>,
        now: u64,
    ) -> (result: Result<(), WillError>)
        ensures
            WillData::settles(
                *old(self),
                *final(self),
                old(self).try_update(
                    *caller,
                    new_content_hash,
                    new_beneficiaries,
                    new_execution_conditions,
                    now,
                ),
                result,
            ),
    {
        if *caller != self.owner {
            return Err(WillError::Unauthorized);
        }
        if self.status == WillStatus::Executed || self.status == WillStatus::Revoked {
            return Err(WillError::InvalidTransition);
        }
        match validate_beneficiary_shares(&new_beneficiaries) {
            Err(error) => Err(error),
            Ok(()) => {
                self.content_hash = new_content_hash;
                self.beneficiaries = new_beneficiaries;
                self.execution_conditions = new_execution_conditions;
                self.last_modified = now;
                Ok(())
            },
        }
    }

    /// Withdraws a will that has not been executed, for good.
    pub fn revoke(&mut self, caller: &Principal, now: u64) -> (result: Result<(), WillError>)
        ensures
            WillData::settles(
                *old(self),
                *final(self),
                old(self).try_revoke(*caller, now),
                result,
            ),
    {
        if *caller != self.owner {
            return Err(WillError::Unauthorized);
        }
        if self.status == WillStatus::Executed || self.status == WillStatus::Revoked {
            return Err(WillError::InvalidTransition);
        }
        self.status = WillStatus::Revoked;
        self.last_modified = now;
        Ok(())
    }

    /// Whether every execution condition is satisfied according to
    /// `verdicts`, the evaluator's answers in the order of the conditions. The
    /// beneficiaries' own conditions play no part here.
    pub fn check_execution_conditions(&self, verdicts: &Vec<Verdict>) -> (met: bool)
        ensures
            met == conditions_met(self.execution_conditions@.len(), verdicts@),
    {
        all_conditions_met(&self.execution_conditions, verdicts)
    }

    /// Executes an active will whose execution conditions are all satisfied,
    /// and returns what to tell the distribution collaborator: one signal per
    /// beneficiary.
    pub fn execute(&mut self, will_id: &[u8; 32], verdicts: &Vec<Verdict>, now: u64) -> (result:
        Result<Vec<Distribution>, WillError>)
        ensures
            WillData::settles(
                *old(self),
                *final(self),
                old(self).try_execute(verdicts@, now),
                result,
            ),
            result matches Ok(signals) ==> signals@ == old(self).distributions(*will_id),
    {
        if self.status != WillStatus::Active {
            return Err(WillError::InvalidTransition);
        }
        if !self.check_execution_conditions(verdicts) {
            return Err(WillError::ConditionsNotMet);
        }
        let mut signals: Vec<Distribution> = Vec::new();
        let mut i: usize = 0;
        while i < self.beneficiaries.len()
            invariant
                i <= self.beneficiaries@.len(),
                signals@.len() == i,
                forall|j: int|
                    0 <= j < i ==> signals@[j] == self.distributions(*will_id)[j],
            decreases self.beneficiaries@.len() - i,
        {
            signals.push(
                Distribution {
                    beneficiary: self.beneficiaries[i].address,
                    share: self.beneficiaries[i].share,
                    will_id: *will_id,
                },
            );
            i = i + 1;
        }
        assert(signals@ =~= self.distributions(*will_id));
        self.status = WillStatus::Executed;
        self.last_modified = now;
        Ok(signals)
    }
}

} // verus!
