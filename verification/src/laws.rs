//! What holds of the registry's operations, whatever the inputs.
//!
//! Each law is stated over the functions that the operations' own contracts
//! use: the outcome of an operation on the stored records, and the records
//! after it.

use vstd::prelude::*;
use crate::condition::{conditions_met, verdict_at, Condition, Verdict};
use crate::error::WillError;
use crate::principal::Principal;
use crate::registry::{
    activate_outcome, create_outcome, execute_outcome, get_outcome, revoke_outcome,
    update_outcome,
};
use crate::store::records_after;
use crate::will::{
    lemma_share_within_total, shares_valid, Beneficiary, WillData, WillStatus, FULL_SHARE,
};

verus! {

/// In every record the shares add up to the whole.
pub open spec fn all_shares_valid(records: Map<Seq<u8>, WillData>) -> bool {
    forall|will_id: Seq<u8>|
        records.contains_key(will_id) ==> shares_valid(
            #[trigger] records[will_id].beneficiaries@,
        )
}

/// Creation succeeds whenever the owner asks for it, the shares add up to
/// 10000 and the id is free. The record is then stored as given, in `Draft`,
/// created and last modified at `now`.
pub proof fn law_create_stores_draft(
    records: Map<Seq<u8>, WillData>,
    will_id: Seq<u8>,
    owner: Principal,
    content_hash: [u8; 32],
    beneficiaries: Vec<Beneficiary>,
    execution_conditions: Vec<Condition>,
    now: u64,
)
    requires
        shares_valid(beneficiaries@),
        !records.contains_key(will_id),
    ensures
        create_outcome(
            records,
            will_id,
            owner,
            owner,
            content_hash,
            beneficiaries,
            execution_conditions,
            now,
        ) == Ok::<WillData, WillError>(
            WillData {
                owner,
                content_hash,
                status: WillStatus::Draft,
                beneficiaries,
                execution_conditions,
                created_at: now,
                last_modified: now,
            },
        ),
        records_after(
            records,
            will_id,
            create_outcome(
                records,
                will_id,
                owner,
                owner,
                content_hash,
                beneficiaries,
                execution_conditions,
                now,
            ),
        )[will_id].status == WillStatus::Draft,
{
}

/// Creation with shares that do not add up to 10000 fails, whoever asks and
/// whether or not the id is free, and leaves the records as they were. Asked
/// for by the owner, it fails with `InvalidShares`.
pub proof fn law_create_rejects_invalid_shares(
    records: Map<Seq<u8>, WillData>,
    will_id: Seq<u8>,
    caller: Principal,
    owner: Principal,
    content_hash: [u8; 32],
    beneficiaries: Vec<Beneficiary>,
    execution_conditions: Vec<Condition>,
    now: u64,
)
    requires
        !shares_valid(beneficiaries@),
    ensures
        create_outcome(
            records,
            will_id,
            caller,
            owner,
            content_hash,
            beneficiaries,
            execution_conditions,
            now,
        ) is Err,
        caller == owner ==> create_outcome(
            records,
            will_id,
            caller,
            owner,
            content_hash,
            beneficiaries,
            execution_conditions,
            now,
        ) == Err::<WillData, WillError>(WillError::InvalidShares),
        records_after(
            records,
            will_id,
            create_outcome(
                records,
                will_id,
                caller,
                owner,
                content_hash,
                beneficiaries,
                execution_conditions,
                now,
            ),
        ) == records,
{
}

/// An update with shares that do not add up to 10000 fails, whoever asks and
/// whatever is stored, and leaves the records as they were. Asked for by the
/// owner of a will that is neither executed nor revoked, it fails with
/// `InvalidShares`.
pub proof fn law_update_rejects_invalid_shares(
    records: Map<Seq<u8>, WillData>,
    will_id: Seq<u8>,
    caller: Principal,
    new_content_hash: [u8; 32],
    new_beneficiaries: Vec<Beneficiary>,
    new_execution_conditions: Vec<Condition>,
    now: u64,
)
    requires
        !shares_valid(new_beneficiaries@),
    ensures
        update_outcome(
            records,
            will_id,
            caller,
            new_content_hash,
            new_beneficiaries,
            new_execution_conditions,
            now,
        ) is Err,
        records.contains_key(will_id) && caller == records[will_id].owner
            && !records[will_id].is_terminal() ==> update_outcome(
            records,
            will_id,
            caller,
            new_content_hash,
            new_beneficiaries,
            new_execution_conditions,
            now,
        ) == Err::<WillData, WillError>(WillError::InvalidShares),
        records_after(
            records,
            will_id,
            update_outcome(
                records,
                will_id,
                caller,
                new_content_hash,
                new_beneficiaries,
                new_execution_conditions,
                now,
            ),
        ) == records,
{
}

/// Activation succeeds only on a draft.
pub proof fn law_activate_only_from_draft(
    records: Map<Seq<u8>, WillData>,
    will_id: Seq<u8>,
    caller: Principal,
    now: u64,
)
    requires
        activate_outcome(records, will_id, caller, now) is Ok,
    ensures
        records.contains_key(will_id),
        records[will_id].status == WillStatus::Draft,
        records[will_id].owner == caller,
{
}

/// Activation by the owner of a will that is not a draft fails with
/// `InvalidTransition` and leaves the records, `last_modified` with them, as
/// they were.
pub proof fn law_activate_rejects_other_status(
    records: Map<Seq<u8>, WillData>,
    will_id: Seq<u8>,
    now: u64,
)
    requires
        records.contains_key(will_id),
        records[will_id].status != WillStatus::Draft,
    ensures
        activate_outcome(records, will_id, records[will_id].owner, now) == Err::<
            WillData,
            WillError,
        >(WillError::InvalidTransition),
        records_after(
            records,
            will_id,
            activate_outcome(records, will_id, records[will_id].owner, now),
        ) == records,
{
}

/// Execution of an active will fails with `ConditionsNotMet` as soon as one
/// execution condition is without the verdict `Satisfied`. The records stay
/// as they were, the will `Active`, so asking again with the same verdicts
/// gives the same answer.
pub proof fn law_execute_needs_every_condition(
    records: Map<Seq<u8>, WillData>,
    will_id: Seq<u8>,
    verdicts: Seq<Verdict>,
    failing: int,
    now: u64,
    later: u64,
)
    requires
        records.contains_key(will_id),
        records[will_id].status == WillStatus::Active,
        0 <= failing < records[will_id].execution_conditions@.len(),
        verdict_at(verdicts, failing) != Verdict::Satisfied,
    ensures
        execute_outcome(records, will_id, verdicts, now) == Err::<WillData, WillError>(
            WillError::ConditionsNotMet,
        ),
        records_after(records, will_id, execute_outcome(records, will_id, verdicts, now))
            == records,
        execute_outcome(
            records_after(records, will_id, execute_outcome(records, will_id, verdicts, now)),
            will_id,
            verdicts,
            later,
        ) == execute_outcome(records, will_id, verdicts, now),
{
}

/// Execution of an active will succeeds when every execution condition has
/// the verdict `Satisfied`, and always when there is no condition. The will
/// is then `Executed`.
pub proof fn law_execute_when_conditions_met(
    records: Map<Seq<u8>, WillData>,
    will_id: Seq<u8>,
    verdicts: Seq<Verdict>,
    now: u64,
)
    requires
        records.contains_key(will_id),
        records[will_id].status == WillStatus::Active,
        conditions_met(records[will_id].execution_conditions@.len(), verdicts),
    ensures
        records[will_id].execution_conditions@.len() == 0 ==> conditions_met(0, verdicts),
        execute_outcome(records, will_id, verdicts, now) is Ok,
        records_after(
            records,
            will_id,
            execute_outcome(records, will_id, verdicts, now),
        )[will_id] == (WillData {
            status: WillStatus::Executed,
            last_modified: now,
            ..records[will_id]
        }),
{
}

/// `Executed` and `Revoked` are final. On such a will, activation, update
/// and revocation by its owner, and execution, all fail with
/// `InvalidTransition` and leave the records as they were.
pub proof fn law_terminal_is_final(
    records: Map<Seq<u8>, WillData>,
    will_id: Seq<u8>,
    new_content_hash: [u8; 32],
    new_beneficiaries: Vec<Beneficiary>,
    new_execution_conditions: Vec<Condition>,
    verdicts: Seq<Verdict>,
    now: u64,
)
    requires
        records.contains_key(will_id),
        records[will_id].is_terminal(),
    ensures
        activate_outcome(records, will_id, records[will_id].owner, now) == Err::<
            WillData,
            WillError,
        >(WillError::InvalidTransition),
        update_outcome(
            records,
            will_id,
            records[will_id].owner,
            new_content_hash,
            new_beneficiaries,
            new_execution_conditions,
            now,
        ) == Err::<WillData, WillError>(WillError::InvalidTransition),
        revoke_outcome(records, will_id, records[will_id].owner, now) == Err::<
            WillData,
            WillError,
        >(WillError::InvalidTransition),
        execute_outcome(records, will_id, verdicts, now) == Err::<WillData, WillError>(
            WillError::InvalidTransition,
        ),
        records_after(
            records,
            will_id,
            activate_outcome(records, will_id, records[will_id].owner, now),
        ) == records,
        records_after(
            records,
            will_id,
            update_outcome(
                records,
                will_id,
                records[will_id].owner,
                new_content_hash,
                new_beneficiaries,
                new_execution_conditions,
                now,
            ),
        ) == records,
        records_after(
            records,
            will_id,
            revoke_outcome(records, will_id, records[will_id].owner, now),
        ) == records,
        records_after(records, will_id, execute_outcome(records, will_id, verdicts, now))
            == records,
{
}

/// No operation, whoever calls it and whatever it is given, changes a will
/// that is `Executed` or `Revoked`.
pub proof fn law_terminal_never_changes(
    records: Map<Seq<u8>, WillData>,
    will_id: Seq<u8>,
    caller: Principal,
    owner: Principal,
    new_content_hash: [u8; 32],
    new_beneficiaries: Vec<Beneficiary>,
    new_execution_conditions: Vec<Condition>,
    verdicts: Seq<Verdict>,
    now: u64,
)
    requires
        records.contains_key(will_id),
        records[will_id].is_terminal(),
    ensures
        records_after(records, will_id, activate_outcome(records, will_id, caller, now))
            == records,
        records_after(
            records,
            will_id,
            update_outcome(
                records,
                will_id,
                caller,
                new_content_hash,
                new_beneficiaries,
                new_execution_conditions,
                now,
            ),
        ) == records,
        records_after(records, will_id, revoke_outcome(records, will_id, caller, now))
            == records,
        records_after(records, will_id, execute_outcome(records, will_id, verdicts, now))
            == records,
        records_after(
            records,
            will_id,
            create_outcome(
                records,
                will_id,
                caller,
                owner,
                new_content_hash,
                new_beneficiaries,
                new_execution_conditions,
                now,
            ),
        ) == records,
{
}

/// Reading an unknown id fails with `NotFound`.
pub proof fn law_get_unknown(records: Map<Seq<u8>, WillData>, will_id: Seq<u8>)
    requires
        !records.contains_key(will_id),
    ensures
        get_outcome(records, will_id) == Err::<WillData, WillError>(WillError::NotFound),
{
}

/// Reading a known id gives the record that the last successful write stored
/// under it. An operation that failed, or that wrote under another id, does
/// not change what is read.
pub proof fn law_get_returns_last_write(
    records: Map<Seq<u8>, WillData>,
    written_id: Seq<u8>,
    outcome: Result<WillData, WillError>,
    read_id: Seq<u8>,
)
    ensures
        outcome matches Ok(will) ==> get_outcome(
            records_after(records, written_id, outcome),
            written_id,
        ) == Ok::<WillData, WillError>(will),
        outcome is Err ==> get_outcome(records_after(records, written_id, outcome), read_id)
            == get_outcome(records, read_id),
        read_id != written_id ==> get_outcome(
            records_after(records, written_id, outcome),
            read_id,
        ) == get_outcome(records, read_id),
{
}

/// A refused operation leaves the records as they were.
pub proof fn law_failure_changes_nothing(
    records: Map<Seq<u8>, WillData>,
    will_id: Seq<u8>,
    outcome: Result<WillData, WillError>,
)
    requires
        outcome is Err,
    ensures
        records_after(records, will_id, outcome) == records,
{
}

/// Whatever a transition does to a will, it keeps the owner and the time of
/// creation, and when the clock has not run backwards, `last_modified` has
/// not either.
pub proof fn law_transitions_keep_identity(
    will: WillData,
    caller: Principal,
    new_content_hash: [u8; 32],
    new_beneficiaries: Vec<Beneficiary>,
    new_execution_conditions: Vec<Condition>,
    verdicts: Seq<Verdict>,
    now: u64,
)
    requires
        will.last_modified <= now,
    ensures
        will.try_activate(caller, now) matches Ok(next) ==> next.owner == will.owner
            && next.created_at == will.created_at && will.last_modified <= next.last_modified,
        will.try_update(
            caller,
            new_content_hash,
            new_beneficiaries,
            new_execution_conditions,
            now,
        ) matches Ok(next) ==> next.owner == will.owner && next.created_at == will.created_at
            && next.status == will.status && will.last_modified <= next.last_modified,
        will.try_revoke(caller, now) matches Ok(next) ==> next.owner == will.owner
            && next.created_at == will.created_at && will.last_modified <= next.last_modified,
        will.try_execute(verdicts, now) matches Ok(next) ==> next.owner == will.owner
            && next.created_at == will.created_at && will.last_modified <= next.last_modified,
{
}

/// The status of a will moves only along the lifecycle: a draft is activated
/// or revoked, an active will is executed or revoked, and an update keeps the
/// status.
pub proof fn law_status_follows_lifecycle(
    will: WillData,
    caller: Principal,
    new_content_hash: [u8; 32],
    new_beneficiaries: Vec<Beneficiary>,
    new_execution_conditions: Vec<Condition>,
    verdicts: Seq<Verdict>,
    now: u64,
)
    ensures
        will.try_activate(caller, now) matches Ok(next) ==> will.status == WillStatus::Draft
            && next.status == WillStatus::Active,
        will.try_execute(verdicts, now) matches Ok(next) ==> will.status == WillStatus::Active
            && next.status == WillStatus::Executed,
        will.try_revoke(caller, now) matches Ok(next) ==> (will.status == WillStatus::Draft
            || will.status == WillStatus::Active) && next.status == WillStatus::Revoked,
        will.try_update(
            caller,
            new_content_hash,
            new_beneficiaries,
            new_execution_conditions,
            now,
        ) matches Ok(next) ==> (will.status == WillStatus::Draft || will.status
            == WillStatus::Active) && next.status == will.status,
{
}

/// Where the shares add up to the whole, each of them lies between 0 and
/// 10000 basis points.
pub proof fn law_valid_shares_are_basis_points(beneficiaries: Seq<Beneficiary>, i: int)
    requires
        shares_valid(beneficiaries),
        0 <= i < beneficiaries.len(),
    ensures
        0 <= beneficiaries[i].share <= FULL_SHARE,
{
    lemma_share_within_total(beneficiaries, i);
}

/// No operation removes a record or moves it to another id: what is stored
/// stays stored, terminal wills included.
pub proof fn law_records_are_kept(
    records: Map<Seq<u8>, WillData>,
    will_id: Seq<u8>,
    outcome: Result<WillData, WillError>,
    stored_id: Seq<u8>,
)
    requires
        records.contains_key(stored_id),
    ensures
        records_after(records, will_id, outcome).contains_key(stored_id),
        stored_id != will_id ==> records_after(records, will_id, outcome)[stored_id]
            == records[stored_id],
{
}

/// Where the shares of every stored will add up to the whole, they still do
/// after any operation.
pub proof fn law_shares_stay_valid(
    records: Map<Seq<u8>, WillData>,
    will_id: Seq<u8>,
    caller: Principal,
    owner: Principal,
    content_hash: [u8; 32],
    beneficiaries: Vec<Beneficiary>,
    execution_conditions: Vec<Condition>,
    verdicts: Seq<Verdict>,
    now: u64,
)
    requires
        all_shares_valid(records),
    ensures
        all_shares_valid(
            records_after(
                records,
                will_id,
                create_outcome(
                    records,
                    will_id,
                    caller,
                    owner,
                    content_hash,
                    beneficiaries,
                    execution_conditions,
                    now,
                ),
            ),
        ),
        all_shares_valid(
            records_after(records, will_id, activate_outcome(records, will_id, caller, now)),
        ),
        all_shares_valid(
            records_after(
                records,
                will_id,
                update_outcome(
                    records,
                    will_id,
                    caller,
                    content_hash,
                    beneficiaries,
                    execution_conditions,
                    now,
                ),
            ),
        ),
        all_shares_valid(
            records_after(records, will_id, revoke_outcome(records, will_id, caller, now)),
        ),
        all_shares_valid(
            records_after(records, will_id, execute_outcome(records, will_id, verdicts, now)),
        ),
{
    assert(shares_valid(records[will_id].beneficiaries@) || !records.contains_key(will_id));
}

} // verus!
