use vstd::prelude::*;
use crate::types::{CommitSig, SignedHeader, ValidatorSet};

verus! {

/// The fraction of total voting power that signatures must exceed.
#[derive(Clone, Copy, Debug, PartialEq, Eq, Structural)]
pub struct TrustThreshold {
    pub numerator: u64,
    pub denominator: u64,
}

impl TrustThreshold {
    pub open spec fn valid(numerator: u64, denominator: u64) -> bool {
        0 < denominator && 0 < numerator && numerator <= denominator
    }

    /// A threshold of `numerator / denominator`, a fraction in (0, 1].
    pub fn new(numerator: u64, denominator: u64) -> (r: Option<TrustThreshold>)
        ensures
            r.is_some() == Self::valid(numerator, denominator),
            r.is_some() ==> r.unwrap() == (TrustThreshold { numerator, denominator }),
    {
        if 0 < denominator && 0 < numerator && numerator <= denominator {
            Some(TrustThreshold { numerator, denominator })
        } else {
            None
        }
    }

    /// The threshold of the primary consensus.
    pub fn two_thirds() -> (r: TrustThreshold)
        ensures
            r == (TrustThreshold { numerator: 2, denominator: 3 }),
    {
        TrustThreshold { numerator: 2, denominator: 3 }
    }

    /// The lighter threshold that is enough to trust a header.
    pub fn one_third() -> (r: TrustThreshold)
        ensures
            r == (TrustThreshold { numerator: 1, denominator: 3 }),
    {
        TrustThreshold { numerator: 1, denominator: 3 }
    }
}

/// Why a commit's signatures are not acceptable.
#[derive(Clone, Copy, Debug, PartialEq, Eq, Structural)]
pub enum CommitFault {
    NoSignatures,
    UnknownValidator { index: u64 },
    MalformedSignature { index: u64 },
    DuplicateVote { index: u64 },
    VotingPowerOverflow,
}

/// The voting power that signed, against the total, when it fell short.
#[derive(Clone, Copy, Debug, PartialEq, Eq, Structural)]
pub struct VotingPowerTally {
    pub total: u64,
    pub tallied: u64,
    pub trust_threshold: TrustThreshold,
}

#[derive(Clone, Copy, Debug, PartialEq, Eq, Structural)]
pub enum Verdict {
    Success,
    Invalid(CommitFault),
    NotEnoughTrust(VotingPowerTally),
}

/// Checks that a quorum of voting power signed a commit.
pub trait CommitValidator {
    spec fn validate_verdict(&self, signed_header: SignedHeader, validators: ValidatorSet) -> Verdict;

    spec fn validate_full_verdict(
        &self,
        signed_header: SignedHeader,
        validators: ValidatorSet,
    ) -> Verdict;

    /// Structural check of the signatures against the validator set.
    fn validate(&self, signed_header: &SignedHeader, validators: &ValidatorSet) -> (r: Verdict)
        ensures
            r == self.validate_verdict(*signed_header, *validators),
    ;

    /// Check that the signed voting power exceeds the threshold.
    fn validate_full(&self, signed_header: &SignedHeader, validators: &ValidatorSet) -> (r:
        Verdict)
        ensures
            r == self.validate_full_verdict(*signed_header, *validators),
    ;
}

/// What is wrong with the signature at position `i`, given `n` validators:
/// a validator outside the set, an empty signature, or a second vote by the
/// validator of an earlier signature.
pub open spec fn sig_fault(sigs: Seq<CommitSig>, n: nat, i: int) -> Option<CommitFault> {
    let s = sigs[i];
    if s.validator_index >= n {
        Some(CommitFault::UnknownValidator { index: s.validator_index })
    } else if s.signature@.len() == 0 {
        Some(CommitFault::MalformedSignature { index: s.validator_index })
    } else if exists|j: int| 0 <= j < i && sigs[j].validator_index == s.validator_index {
        Some(CommitFault::DuplicateVote { index: s.validator_index })
    } else {
        None
    }
}

/// The fault of the first faulty signature at position `i` or later.
pub open spec fn first_fault(sigs: Seq<CommitSig>, n: nat, i: int) -> Option<CommitFault>
    decreases sigs.len() - i,
{
    if i >= sigs.len() || i < 0 {
        None
    } else if sig_fault(sigs, n, i).is_some() {
        sig_fault(sigs, n, i)
    } else {
        first_fault(sigs, n, i + 1)
    }
}

/// Sum of the voting power of the first `k` validators.
pub open spec fn total_power(vals: ValidatorSet, k: int) -> int
    decreases k,
{
    if k <= 0 {
        0
    } else {
        total_power(vals, k - 1) + vals.validators@[k - 1].voting_power
    }
}

/// Sum of the voting power of the validators behind the first `k` signatures;
/// a signature naming no validator adds nothing.
pub open spec fn signed_power(sigs: Seq<CommitSig>, vals: ValidatorSet, k: int) -> int
    decreases k,
{
    if k <= 0 {
        0
    } else {
        signed_power(sigs, vals, k - 1) + if sigs[k - 1].validator_index
            < vals.validators@.len() {
            vals.validators@[sigs[k - 1].validator_index as int].voting_power as int
        } else {
            0
        }
    }
}

/// Verifies commits against a configured trust threshold.
#[derive(Clone, Copy, Debug)]
pub struct ProdCommitValidator {
    pub trust_threshold: TrustThreshold,
}

impl ProdCommitValidator {
    pub fn new(trust_threshold: TrustThreshold) -> (r: ProdCommitValidator)
        ensures
            r.trust_threshold == trust_threshold,
    {
        ProdCommitValidator { trust_threshold }
    }
}

proof fn lemma_total_power_monotone(vals: ValidatorSet, a: int, b: int)
    requires
        0 <= a <= b <= vals.validators@.len(),
    ensures
        total_power(vals, a) <= total_power(vals, b),
    decreases b - a,
{
    if a < b {
        lemma_total_power_monotone(vals, a, b - 1);
    }
}

proof fn lemma_signed_power_monotone(sigs: Seq<CommitSig>, vals: ValidatorSet, a: int, b: int)
    requires
        0 <= a <= b <= sigs.len(),
    ensures
        signed_power(sigs, vals, a) <= signed_power(sigs, vals, b),
    decreases b - a,
{
    if a < b {
        lemma_signed_power_monotone(sigs, vals, a, b - 1);
    }
}

proof fn lemma_first_fault_skip(sigs: Seq<CommitSig>, n: nat, i: int)
    requires
        0 <= i < sigs.len(),
        sig_fault(sigs, n, i).is_none(),
    ensures
        first_fault(sigs, n, i) == first_fault(sigs, n, i + 1),
{
}

proof fn lemma_mul_fits(a: u64, b: u64)
    ensures
        (a as int) * (b as int) <= u128::MAX,
{
    assert((a as int) * (b as int) <= (u64::MAX as int) * (u64::MAX as int)) by (nonlinear_arith)
        requires
            0 <= a <= u64::MAX,
            0 <= b <= u64::MAX,
    ;
}

proof fn lemma_first_fault_here(sigs: Seq<CommitSig>, n: nat, i: int)
    requires
        0 <= i < sigs.len(),
        sig_fault(sigs, n, i).is_some(),
    ensures
        first_fault(sigs, n, i) == sig_fault(sigs, n, i),
{
}

/// Sum of all validators' voting power, or `None` where it exceeds `u64`.
pub(crate) fn sum_total_power(vals: &ValidatorSet) -> (r: Option<u64>)
    ensures
        r.is_some() == (total_power(*vals, vals.validators@.len() as int) <= u64::MAX),
        r.is_some() ==> r.unwrap() == total_power(*vals, vals.validators@.len() as int),
{
    let mut acc: u64 = 0;
    let mut i: usize = 0;
    while i < vals.validators.len()
        invariant
            i <= vals.validators@.len(),
            acc == total_power(*vals, i as int),
        decreases vals.validators@.len() - i,
    {
        let p: u64 = vals.validators[i].voting_power;
        if p > u64::MAX - acc {
            proof {
                lemma_total_power_monotone(*vals, i as int + 1, vals.validators@.len() as int);
            }
            return None;
        }
        acc = acc + p;
        i = i + 1;
    }
    Some(acc)
}

/// Sum of the signed voting power, or `None` where it exceeds `u64`.
fn sum_signed_power(sigs: &Vec<CommitSig>, vals: &ValidatorSet) -> (r: Option<u64>)
    ensures
        r.is_some() == (signed_power(sigs@, *vals, sigs@.len() as int) <= u64::MAX),
        r.is_some() ==> r.unwrap() == signed_power(sigs@, *vals, sigs@.len() as int),
{
    let mut acc: u64 = 0;
    let mut i: usize = 0;
    while i < sigs.len()
        invariant
            i <= sigs@.len(),
            acc == signed_power(sigs@, *vals, i as int),
        decreases sigs@.len() - i,
    {
        let idx: u64 = sigs[i].validator_index;
        let p: u64 = if idx < vals.validators.len() as u64 {
            vals.validators[idx as usize].voting_power
        } else {
            0
        };
        if p > u64::MAX - acc {
            proof {
                lemma_signed_power_monotone(sigs@, *vals, i as int + 1, sigs@.len() as int);
            }
            return None;
        }
        acc = acc + p;
        i = i + 1;
    }
    Some(acc)
}

impl CommitValidator for ProdCommitValidator {
    open spec fn validate_verdict(&self, signed_header: SignedHeader, validators: ValidatorSet) -> Verdict {
        let sigs = signed_header.commit.signatures@;
        if sigs.len() == 0 {
            Verdict::Invalid(CommitFault::NoSignatures)
        } else {
            match first_fault(sigs, validators.validators@.len(), 0) {
                Some(f) => Verdict::Invalid(f),
                None => Verdict::Success,
            }
        }
    }

    open spec fn validate_full_verdict(
        &self,
        signed_header: SignedHeader,
        validators: ValidatorSet,
    ) -> Verdict {
        let sigs = signed_header.commit.signatures@;
        let total = total_power(validators, validators.validators@.len() as int);
        let signed = signed_power(sigs, validators, sigs.len() as int);
        let t = self.trust_threshold;
        if total > u64::MAX || signed > u64::MAX {
            Verdict::Invalid(CommitFault::VotingPowerOverflow)
        } else if signed * t.denominator > total * t.numerator {
            Verdict::Success
        } else {
            Verdict::NotEnoughTrust(
                VotingPowerTally { total: total as u64, tallied: signed as u64, trust_threshold: t },
            )
        }
    }

    fn validate(&self, signed_header: &SignedHeader, validators: &ValidatorSet) -> (r: Verdict) {
        let sigs: &Vec<CommitSig> = &signed_header.commit.signatures;
        if sigs.len() == 0 {
            return Verdict::Invalid(CommitFault::NoSignatures);
        }
        let n: usize = validators.validators.len();
        let mut i: usize = 0;
        while i < sigs.len()
            invariant
                i <= sigs@.len(),
                n == validators.validators@.len(),
                sigs@ == signed_header.commit.signatures@,
                first_fault(sigs@, n as nat, 0) == first_fault(sigs@, n as nat, i as int),
            decreases sigs@.len() - i,
        {
            let s: &CommitSig = &sigs[i];
            if s.validator_index >= n as u64 {
                proof {
                    lemma_first_fault_here(sigs@, n as nat, i as int);
                }
                return Verdict::Invalid(CommitFault::UnknownValidator { index: s.validator_index });
            }
            if s.signature.len() == 0 {
                proof {
                    lemma_first_fault_here(sigs@, n as nat, i as int);
                }
                return Verdict::Invalid(CommitFault::MalformedSignature { index: s.validator_index });
            }
            let mut j: usize = 0;
            while j < i
                invariant
                    j <= i,
                    i < sigs@.len(),
                    *s == sigs@[i as int],
                    n == validators.validators@.len(),
                    sigs@ == signed_header.commit.signatures@,
                    first_fault(sigs@, n as nat, 0) == first_fault(sigs@, n as nat, i as int),
                    s.validator_index < n,
                    s.signature@.len() > 0,
                    forall|k: int| 0 <= k < j ==> sigs@[k].validator_index != sigs@[i as int].validator_index,
                decreases i - j,
            {
                if sigs[j].validator_index == s.validator_index {
                    proof {
                        assert(sigs@[j as int].validator_index == sigs@[i as int].validator_index);
                        lemma_first_fault_here(sigs@, n as nat, i as int);
                    }
                    return Verdict::Invalid(CommitFault::DuplicateVote { index: s.validator_index });
                }
                j = j + 1;
            }
            proof {
                lemma_first_fault_skip(sigs@, n as nat, i as int);
            }
            i = i + 1;
        }
        Verdict::Success
    }

    fn validate_full(&self, signed_header: &SignedHeader, validators: &ValidatorSet) -> (r: Verdict) {
        let total: Option<u64> = sum_total_power(validators);
        let signed: Option<u64> = sum_signed_power(&signed_header.commit.signatures, validators);
        match (total, signed) {
            (Some(total), Some(signed)) => {
                let t: TrustThreshold = self.trust_threshold;
                proof {
                    lemma_mul_fits(signed, t.denominator);
                    lemma_mul_fits(total, t.numerator);
                }
                let lhs: u128 = (signed as u128) * (t.denominator as u128);
                let rhs: u128 = (total as u128) * (t.numerator as u128);
                if lhs > rhs {
                    Verdict::Success
                } else {
                    Verdict::NotEnoughTrust(
                        VotingPowerTally { total, tallied: signed, trust_threshold: t },
                    )
                }
            },
            _ => Verdict::Invalid(CommitFault::VotingPowerOverflow),
        }
    }
}

} // verus!
