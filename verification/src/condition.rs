//! Conditions: typed, parameterized predicates that gate a will or a
//! beneficiary. They are data; an outside evaluator judges them and reports
//! one verdict per condition.

use vstd::prelude::*;
use crate::principal::{bytes32_eq, Principal};

verus! {

/// The kind of predicate that a condition describes.
#[derive(Clone, Copy, Debug, PartialEq, Eq, Structural)]
pub enum ConditionType {
    TimeAfter,
    TimeBefore,
    MultiSigRequired,
    ExternalOracle,
    AgeRequirement,
    LocationBased,
    TokenBalance,
    CodicilAttached,
    LegalApproval,
    MajorityConsent,
}

/// One entry of a condition's parameter mapping.
#[derive(Clone, Copy, Debug)]
pub struct Parameter {
    pub key: [u8; 32],
    pub value: [u8; 32],
}

/// A gating predicate and what its evaluator needs to judge it.
#[derive(Clone, Debug)]
pub struct Condition {
    pub condition_type: ConditionType,
    /// Kind-specific parameters, one entry per key.
    pub parameters: Vec<Parameter>,
    /// The principals whose signatures or consent the condition asks for.
    pub required_signers: Vec<Principal>,
    /// The oracle to ask, for a condition of kind `ExternalOracle`.
    pub oracle_address: Option<Principal>,
    /// An opaque proof or hash for the evaluator.
    pub verification_data: Option<[u8; 32]>,
}

impl Condition {
    /// No parameter key occurs twice: the parameters are a mapping.
    pub open spec fn parameters_distinct(self) -> bool {
        forall|i: int, j: int|
            0 <= i < j < self.parameters@.len() ==> self.parameters@[i].key
                != self.parameters@[j].key
    }

    /// No signer occurs twice: the signers are a set.
    pub open spec fn signers_distinct(self) -> bool {
        forall|i: int, j: int|
            0 <= i < j < self.required_signers@.len() ==> self.required_signers@[i]
                != self.required_signers@[j]
    }

    /// The descriptor is one that an evaluator can judge: its parameters are
    /// a mapping, its signers a set, and a condition of kind `ExternalOracle`
    /// names its oracle.
    pub open spec fn well_formed(self) -> bool {
        &&& self.parameters_distinct()
        &&& self.signers_distinct()
        &&& self.condition_type == ConditionType::ExternalOracle ==> self.oracle_address is Some
    }

    /// Whether the key of the parameter at `at` occurs among those before it.
    fn parameter_repeats(&self, at: usize) -> (repeats: bool)
        requires
            at < self.parameters@.len(),
        ensures
            repeats == exists|i: int|
                0 <= i < at && #[trigger] self.parameters@[i].key == self.parameters@[at as int].key,
    {
        let mut i: usize = 0;
        while i < at
            invariant
                i <= at < self.parameters@.len(),
                forall|k: int|
                    0 <= k < i ==> #[trigger] self.parameters@[k].key
                        != self.parameters@[at as int].key,
            decreases at - i,
        {
            if bytes32_eq(&self.parameters[i].key, &self.parameters[at].key) {
                return true;
            }
            i = i + 1;
        }
        false
    }

    /// Whether the signer at `at` occurs among those before it.
    fn signer_repeats(&self, at: usize) -> (repeats: bool)
        requires
            at < self.required_signers@.len(),
        ensures
            repeats == exists|i: int|
                0 <= i < at && #[trigger] self.required_signers@[i]
                    == self.required_signers@[at as int],
    {
        let mut i: usize = 0;
        while i < at
            invariant
                i <= at < self.required_signers@.len(),
                forall|k: int|
                    0 <= k < i ==> #[trigger] self.required_signers@[k]
                        != self.required_signers@[at as int],
            decreases at - i,
        {
            if self.required_signers[i] == self.required_signers[at] {
                return true;
            }
            i = i + 1;
        }
        false
    }

    /// Decides whether the descriptor is well formed.
    pub fn is_well_formed(&self) -> (ok: bool)
        ensures
            ok == self.well_formed(),
    {
        let mut i: usize = 0;
        while i < self.parameters.len()
            invariant
                i <= self.parameters@.len(),
                forall|a: int, b: int|
                    0 <= a < b < i ==> self.parameters@[a].key != self.parameters@[b].key,
            decreases self.parameters@.len() - i,
        {
            if self.parameter_repeats(i) {
                return false;
            }
            i = i + 1;
        }
        let mut j: usize = 0;
        while j < self.required_signers.len()
            invariant
                self.parameters_distinct(),
                j <= self.required_signers@.len(),
                forall|a: int, b: int|
                    0 <= a < b < j ==> self.required_signers@[a] != self.required_signers@[b],
            decreases self.required_signers@.len() - j,
        {
            if self.signer_repeats(j) {
                return false;
            }
            j = j + 1;
        }
        match self.condition_type {
            ConditionType::ExternalOracle => self.oracle_address.is_some(),
            _ => true,
        }
    }
}

/// What the outside evaluator reported for one condition.
#[derive(Clone, Copy, Debug, PartialEq, Eq, Structural)]
pub enum Verdict {
    /// The condition holds.
    Satisfied,
    /// The condition does not hold.
    Unsatisfied,
    /// The evaluator could not answer.
    Unavailable,
}

/// The verdict on the condition at position `i`: the one reported, or
/// `Unavailable` where none was.
pub open spec fn verdict_at(verdicts: Seq<Verdict>, i: int) -> Verdict {
    if 0 <= i < verdicts.len() {
        verdicts[i]
    } else {
        Verdict::Unavailable
    }
}

/// Whether `count` conditions are all satisfied, given the evaluator's verdicts
/// in the order of the conditions. Anything but `Satisfied` counts as not
/// satisfied, so no condition at all is satisfied vacuously.
pub open spec fn conditions_met(count: nat, verdicts: Seq<Verdict>) -> bool {
    forall|i: int| 0 <= i < count ==> #[trigger] verdict_at(verdicts, i) == Verdict::Satisfied
}

/// Decides whether every one of `conditions` is satisfied according to
/// `verdicts`, where `verdicts[i]` is the evaluator's answer for `conditions[i]`.
pub fn all_conditions_met(conditions: &Vec<Condition>, verdicts: &Vec<Verdict>) -> (met: bool)
    ensures
        met == conditions_met(conditions@.len(), verdicts@),
{
    let mut i: usize = 0;
    while i < conditions.len()
        invariant
            i <= conditions@.len(),
            forall|j: int| 0 <= j < i ==> #[trigger] verdict_at(verdicts@, j) == Verdict::Satisfied,
        decreases conditions@.len() - i,
    {
        if i >= verdicts.len() || verdicts[i] != Verdict::Satisfied {
            assert(verdict_at(verdicts@, i as int) != Verdict::Satisfied);
            return false;
        }
        i = i + 1;
    }
    true
}

} // verus!
