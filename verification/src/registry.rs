//! The registry: the one place where will records are kept and changed.
//!
//! Every operation does all of its work or none: when it reports an error the
//! registry holds exactly what it held before.

use vstd::prelude::*;
use crate::condition::{conditions_met, Condition, Verdict};
use crate::digest::{derive_will_id, will_id_digest};
use crate::error::WillError;
use crate::principal::Principal;
use crate::store::{records_after, reports, Store};
use crate::will::{
    shares_valid, validate_beneficiary_shares, Beneficiary, Distribution, WillData,
};

verus! {

/// What creating a will under `will_id` gives: the record to store, or the
/// reason why nothing is stored.
pub open spec fn create_outcome(
    records: Map<Seq<u8>, WillData>,
    will_id: Seq<u8>,
    caller: Principal,
    owner: Principal,
    content_hash: [u8; 32],
    beneficiaries: Vec<Beneficiary>,
    execution_conditions: Vec<Condition>,
    now: u64,
) -> Result<WillData, WillError> {
    match WillData::try_create(
        caller,
        owner,
        content_hash,
        beneficiaries,
        execution_conditions,
        now,
    ) {
        Err(error) => Err(error),
        Ok(will) => if records.contains_key(will_id) {
            Err(WillError::AlreadyExists)
        } else {
            Ok(will)
        },
    }
}

/// What putting back a record read from persistent storage gives: the
/// record itself, where its shares add up to the whole and its id is free.
pub open spec fn restore_outcome(
    records: Map<Seq<u8>, WillData>,
    will_id: Seq<u8>,
    will: WillData,
) -> Result<WillData, WillError> {
    if !shares_valid(will.beneficiaries@) {
        Err(WillError::InvalidShares)
    } else if records.contains_key(will_id) {
        Err(WillError::AlreadyExists)
    } else {
        Ok(will)
    }
}

/// What activating the will under `will_id` gives.
pub open spec fn activate_outcome(
    records: Map<Seq<u8>, WillData>,
    will_id: Seq<u8>,
    caller: Principal,
    now: u64,
) -> Result<WillData, WillError> {
    if records.contains_key(will_id) {
        records[will_id].try_activate(caller, now)
    } else {
        Err(WillError::NotFound)
    }
}

/// What updating the will under `will_id` gives.
pub open spec fn update_outcome(
    records: Map<Seq<u8>, WillData>,
    will_id: Seq<u8>,
    caller: Principal,
    new_content_hash: [u8; 32],
    new_beneficiaries: Vec<Beneficiary>,
    new_execution_conditions: Vec<Condition>,
    now: u64,
) -> Result<WillData, WillError> {
    if records.contains_key(will_id) {
        records[will_id].try_update(
            caller,
            new_content_hash,
            new_beneficiaries,
            new_execution_conditions,
            now,
        )
    } else {
        Err(WillError::NotFound)
    }
}

/// What revoking the will under `will_id` gives.
pub open spec fn revoke_outcome(
    records: Map<Seq<u8>, WillData>,
    will_id: Seq<u8>,
    caller: Principal,
    now: u64,
) -> Result<WillData, WillError> {
    if records.contains_key(will_id) {
        records[will_id].try_revoke(caller, now)
    } else {
        Err(WillError::NotFound)
    }
}

/// What executing the will under `will_id` gives.
pub open spec fn execute_outcome(
    records: Map<Seq<u8>, WillData>,
    will_id: Seq<u8>,
    verdicts: Seq<Verdict>,
    now: u64,
) -> Result<WillData, WillError> {
    if records.contains_key(will_id) {
        records[will_id].try_execute(verdicts, now)
    } else {
        Err(WillError::NotFound)
    }
}

/// What reading the will under `will_id` gives.
pub open spec fn get_outcome(records: Map<Seq<u8>, WillData>, will_id: Seq<u8>) -> Result<
    WillData,
    WillError,
> {
    if records.contains_key(will_id) {
        Ok(records[will_id])
    } else {
        Err(WillError::NotFound)
    }
}

/// The registry of wills. It alone writes will records.
pub struct WillRegistry {
    owner: Principal,
    wills: Store<WillData>,
}

impl View for WillRegistry {
    type V = Map<Seq<u8>, WillData>;

    /// The record stored under each will id.
    closed spec fn view(&self) -> Map<Seq<u8>, WillData> {
        self.wills@
    }
}

impl WillRegistry {
    /// In every stored will the shares add up to the whole.
    #[verifier::type_invariant]
    spec fn well_formed(&self) -> bool {
        forall|will_id: Seq<u8>|
            self.wills@.contains_key(will_id) ==> shares_valid(
                #[trigger] self.wills@[will_id].beneficiaries@,
            )
    }

    /// The principal that the registry was set up for.
    pub closed spec fn spec_owner(&self) -> Principal {
        self.owner
    }

    /// An empty registry, set up for `owner`.
    pub fn initialize(owner: Principal) -> (registry: Self)
        ensures
            registry@ == Map::<Seq<u8>, WillData>::empty(),
            registry.owner() == owner,
    {
        WillRegistry { owner, wills: Store::new() }
    }

    /// The principal that the registry was set up for.
    #[verifier::when_used_as_spec(spec_owner)]
    pub fn owner(&self) -> (owner: Principal)
        ensures
            owner == self.spec_owner(),
    {
        self.owner
    }

    /// Takes the records out, to work on them. While they are out the
    /// registry is empty; what is put back has to meet the invariant again.
    fn detach(&mut self) -> (wills: Store<WillData>)
        ensures
            wills@ == old(self)@,
            final(self).owner == old(self).owner,
            forall|will_id: Seq<u8>|
                wills@.contains_key(will_id) ==> shares_valid(
                    #[trigger] wills@[will_id].beneficiaries@,
                ),
    {
        proof {
            use_type_invariant(&*self);
        }
        let mut wills: Store<WillData> = Store::new();
        core::mem::swap(&mut self.wills, &mut wills);
        wills
    }

    /// Creates a will under an id derived from `owner` and `now`, and returns
    /// the id. The will starts in `Draft`.
    pub fn create_will(
        &mut self,
        caller: &Principal,
        owner: Principal,
        content_hash: [u8; 32],
        beneficiaries: Vec<Beneficiary>,
        execution_conditions: Vec<Condition>,
        now: u64,
    ) -> (result: Result<[u8; 32], WillError>)
        ensures
            final(self).owner() == old(self).owner(),
            reports(
                create_outcome(
                    old(self)@,
                    will_id_digest(owner, now),
                    *caller,
                    owner,
                    content_hash,
                    beneficiaries,
                    execution_conditions,
                    now,
                ),
                result,
            ),
            final(self)@ == records_after(
                old(self)@,
                will_id_digest(owner, now),
                create_outcome(
                    old(self)@,
                    will_id_digest(owner, now),
                    *caller,
                    owner,
                    content_hash,
                    beneficiaries,
                    execution_conditions,
                    now,
                ),
            ),
            result matches Ok(will_id) ==> will_id@ == will_id_digest(owner, now),
    {
        let will_id = derive_will_id(&owner, now);
        self.create_will_with_id(
            will_id,
            caller,
            owner,
            content_hash,
            beneficiaries,
            execution_conditions,
            now,
        )
    }

    /// Creates a will under `will_id`, unless a will is stored there already.
    pub fn create_will_with_id(
        &mut self,
        will_id: [u8; 32],
        caller: &Principal,
        owner: Principal,
        content_hash: [u8; 32],
        beneficiaries: Vec<Beneficiary>,
        execution_conditions: Vec<Condition>,
        now: u64,
    ) -> (result: Result<[u8; 32], WillError>)
        ensures
            final(self).owner() == old(self).owner(),
            reports(
                create_outcome(
                    old(self)@,
                    will_id@,
                    *caller,
                    owner,
                    content_hash,
                    beneficiaries,
                    execution_conditions,
                    now,
                ),
                result,
            ),
            final(self)@ == records_after(
                old(self)@,
                will_id@,
                create_outcome(
                    old(self)@,
                    will_id@,
                    *caller,
                    owner,
                    content_hash,
                    beneficiaries,
                    execution_conditions,
                    now,
                ),
            ),
            result matches Ok(stored_under) ==> stored_under == will_id,
    {
        match WillData::create(
            caller,
            owner,
            content_hash,
            beneficiaries,
            execution_conditions,
            now,
        ) {
            Err(error) => Err(error),
            Ok(will) => {
                if self.wills.has(&will_id) {
                    Err(WillError::AlreadyExists)
                } else {
                    let mut wills = self.detach();
                    wills.set(will_id, will);
                    self.wills = wills;
                    Ok(will_id)
                }
            },
        }
    }

    /// Puts back, under `will_id` and as it is, a record that was read from
    /// persistent storage.
    pub fn restore(&mut self, will_id: [u8; 32], will: WillData) -> (result: Result<(), WillError>)
        ensures
            final(self).owner() == old(self).owner(),
            reports(restore_outcome(old(self)@, will_id@, will), result),
            final(self)@ == records_after(
                old(self)@,
                will_id@,
                restore_outcome(old(self)@, will_id@, will),
            ),
    {
        match validate_beneficiary_shares(&will.beneficiaries) {
            Err(error) => Err(error),
            Ok(()) => {
                if self.wills.has(&will_id) {
                    Err(WillError::AlreadyExists)
                } else {
                    let mut wills = self.detach();
                    wills.set(will_id, will);
                    self.wills = wills;
                    Ok(())
                }
            },
        }
    }

    /// Takes the draft under `will_id` into force.
    pub fn activate_will(&mut self, caller: &Principal, will_id: &[u8; 32], now: u64) -> (result:
        Result<(), WillError>)
        ensures
            final(self).owner() == old(self).owner(),
            reports(activate_outcome(old(self)@, will_id@, *caller, now), result),
            final(self)@ == records_after(
                old(self)@,
                will_id@,
                activate_outcome(old(self)@, will_id@, *caller, now),
            ),
    {
        let mut wills = self.detach();
        let result = match wills.take(will_id) {
            None => Err(WillError::NotFound),
            Some(mut will) => {
                let result = will.activate(caller, now);
                wills.set(*will_id, will);
                result
            },
        };
        assert(wills@ =~= records_after(
            old(self)@,
            will_id@,
            activate_outcome(old(self)@, will_id@, *caller, now),
        ));
        self.wills = wills;
        result
    }

    /// Replaces content, beneficiaries and conditions of the will under
    /// `will_id`, all three or none.
    pub fn update_will(
        &mut self,
        caller: &Principal,
        will_id: &[u8; 32],
        new_content_hash: [u8; 32],
        new_beneficiaries: Vec<Beneficiary>,
        new_execution_conditions: Vec<Condition>,
        now: u64,
    ) -> (result: Result<(), WillError>)
        ensures
            final(self).owner() == old(self).owner(),
            reports(
                update_outcome(
                    old(self)@,
                    will_id@,
                    *caller,
                    new_content_hash,
                    new_beneficiaries,
                    new_execution_conditions,
                    now,
                ),
                result,
            ),
            final(self)@ == records_after(
                old(self)@,
                will_id@,
                update_outcome(
                    old(self)@,
                    will_id@,
                    *caller,
                    new_content_hash,
                    new_beneficiaries,
                    new_execution_conditions,
                    now,
                ),
            ),
    {
        let mut wills = self.detach();
        let result = match wills.take(will_id) {
            None => Err(WillError::NotFound),
            Some(mut will) => {
                let result = will.update(
                    caller,
                    new_content_hash,
                    new_beneficiaries,
                    new_execution_conditions,
                    now,
                );
                wills.set(*will_id, will);
                result
            },
        };
        assert(wills@ =~= records_after(
            old(self)@,
            will_id@,
            update_outcome(
                old(self)@,
                will_id@,
                *caller,
                new_content_hash,
                new_beneficiaries,
                new_execution_conditions,
                now,
            ),
        ));
        self.wills = wills;
        result
    }

    /// Withdraws the will under `will_id`, for good.
    pub fn revoke_will(&mut self, caller: &Principal, will_id: &[u8; 32], now: u64) -> (result:
        Result<(), WillError>)
        ensures
            final(self).owner() == old(self).owner(),
            reports(revoke_outcome(old(self)@, will_id@, *caller, now), result),
            final(self)@ == records_after(
                old(self)@,
                will_id@,
                revoke_outcome(old(self)@, will_id@, *caller, now),
            ),
    {
        let mut wills = self.detach();
        let result = match wills.take(will_id) {
            None => Err(WillError::NotFound),
            Some(mut will) => {
                let result = will.revoke(caller, now);
                wills.set(*will_id, will);
                result
            },
        };
        assert(wills@ =~= records_after(
            old(self)@,
            will_id@,
            revoke_outcome(old(self)@, will_id@, *caller, now),
        ));
        self.wills = wills;
        result
    }

    /// The will stored under `will_id`, as it was last written. In a stored
    /// will the shares add up to the whole.
    pub fn get_will(&self, will_id: &[u8; 32]) -> (result: Result<&WillData, WillError>)
        ensures
            result matches Ok(will) ==> get_outcome(self@, will_id@) == Ok::<WillData, WillError>(
                *will,
            ) && shares_valid(will.beneficiaries@),
            result matches Err(error) ==> get_outcome(self@, will_id@) == Err::<
                WillData,
                WillError,
            >(error),
    {
        proof {
            use_type_invariant(self);
        }
        match self.wills.get(will_id) {
            Some(will) => Ok(will),
            None => Err(WillError::NotFound),
        }
    }

    /// The will stored under `will_id`, if there is one.
    pub fn get_will_data(&self, will_id: &[u8; 32]) -> (will: Option<&WillData>)
        ensures
            will matches Some(stored) ==> self@.contains_key(will_id@) && *stored
                == self@[will_id@],
            will is None ==> !self@.contains_key(will_id@),
    {
        self.wills.get(will_id)
    }

    /// Whether the will under `will_id` may be executed as far as its
    /// execution conditions go: every one of them has the verdict
    /// `Satisfied`. Changes nothing.
    pub fn check_execution_conditions(&self, will_id: &[u8; 32], verdicts: &Vec<Verdict>) -> (result:
        Result<bool, WillError>)
        ensures
            self@.contains_key(will_id@) ==> result == Ok::<bool, WillError>(
                conditions_met(self@[will_id@].execution_conditions@.len(), verdicts@),
            ),
            !self@.contains_key(will_id@) ==> result == Err::<bool, WillError>(
                WillError::NotFound,
            ),
    {
        match self.wills.get(will_id) {
            Some(will) => Ok(will.check_execution_conditions(verdicts)),
            None => Err(WillError::NotFound),
        }
    }

    /// Executes the active will under `will_id` and returns one signal per
    /// beneficiary for the distribution collaborator.
    pub fn execute_will(&mut self, will_id: &[u8; 32], verdicts: &Vec<Verdict>, now: u64) -> (result:
        Result<Vec<Distribution>, WillError>)
        ensures
            final(self).owner() == old(self).owner(),
            reports(execute_outcome(old(self)@, will_id@, verdicts@, now), result),
            final(self)@ == records_after(
                old(self)@,
                will_id@,
                execute_outcome(old(self)@, will_id@, verdicts@, now),
            ),
            result matches Ok(signals) ==> signals@ == old(self)@[will_id@].distributions(*will_id),
    {
        let mut wills = self.detach();
        let result = match wills.take(will_id) {
            None => Err(WillError::NotFound),
            Some(mut will) => {
                let result = will.execute(will_id, verdicts, now);
                wills.set(*will_id, will);
                result
            },
        };
        assert(wills@ =~= records_after(
            old(self)@,
            will_id@,
            execute_outcome(old(self)@, will_id@, verdicts@, now),
        ));
        self.wills = wills;
        result
    }
}

} // verus!
