//! Threshold evaluator: the pure predicate deciding whether a signing
//! session has enough partial signatures, can still get enough, or can no
//! longer reach its threshold.

use vstd::prelude::*;
use crate::session::ParticipantOutcome;

verus! {

/// The evaluator's verdict over one session's outcomes.
#[derive(Clone, Copy, PartialEq, Eq, Structural, Debug)]
pub enum SessionStatus {
    /// At least `threshold` participants have signed.
    Satisfied,
    /// The threshold is not met yet, but enough participants are still
    /// pending for it to be met.
    Unsatisfied,
    /// So many participants have declined or become unreachable that the
    /// threshold can no longer be reached even if every pending participant
    /// signs.
    Impossible,
}

/// A settled successful outcome.
pub open spec fn is_signed(o: ParticipantOutcome) -> bool {
    o is Signed
}

/// A settled outcome that can no longer become `Signed`.
pub open spec fn is_settled_failure(o: ParticipantOutcome) -> bool {
    o is Declined || o is Unreachable
}

/// How many outcomes are `Signed`.
pub open spec fn signed_count(s: Seq<ParticipantOutcome>) -> nat
    decreases s.len(),
{
    if s.len() == 0 {
        0
    } else {
        signed_count(s.drop_last()) + if is_signed(s.last()) {
            1nat
        } else {
            0nat
        }
    }
}

/// How many outcomes are `Declined` or `Unreachable`.
pub open spec fn failed_count(s: Seq<ParticipantOutcome>) -> nat
    decreases s.len(),
{
    if s.len() == 0 {
        0
    } else {
        failed_count(s.drop_last()) + if is_settled_failure(s.last()) {
            1nat
        } else {
            0nat
        }
    }
}

/// The verdict over outcomes `s` for a `threshold`-of-`s.len()` policy:
/// satisfied once `threshold` outcomes are `Signed`; impossible once the
/// settled failures outnumber the margin `s.len() - threshold`; otherwise
/// still open.
pub open spec fn spec_evaluate(s: Seq<ParticipantOutcome>, threshold: nat) -> SessionStatus {
    if signed_count(s) >= threshold {
        SessionStatus::Satisfied
    } else if failed_count(s) + threshold > s.len() {
        SessionStatus::Impossible
    } else {
        SessionStatus::Unsatisfied
    }
}

/// Every outcome is counted at most once: signatures and settled failures
/// together never exceed the number of participants.
pub proof fn lemma_counts_within_len(s: Seq<ParticipantOutcome>)
    ensures
        signed_count(s) + failed_count(s) <= s.len(),
    decreases s.len(),
{
    if s.len() > 0 {
        lemma_counts_within_len(s.drop_last());
    }
}

/// A session is never reported `Satisfied` while the count of `Signed`
/// outcomes is below the required threshold — and conversely, the instant
/// the count reaches the threshold the verdict is `Satisfied`.
pub proof fn lemma_satisfied_iff_threshold_met(s: Seq<ParticipantOutcome>, threshold: nat)
    ensures
        spec_evaluate(s, threshold) is Satisfied <==> signed_count(s) >= threshold,
{
}

/// `Impossible` is reported if and only if the participants that declined or
/// are unreachable outnumber the session's failure margin, the number of
/// participants beyond the threshold.
pub proof fn lemma_impossible_iff_margin_exceeded(s: Seq<ParticipantOutcome>, threshold: nat)
    requires
        threshold <= s.len(),
    ensures
        spec_evaluate(s, threshold) is Impossible <==> failed_count(s) > s.len() - threshold,
{
    lemma_counts_within_len(s);
}

/// Counting one more outcome extends the tallies by exactly that outcome's
/// class.
proof fn lemma_count_take_step(s: Seq<ParticipantOutcome>, i: int)
    requires
        0 <= i < s.len(),
    ensures
        signed_count(s.take(i + 1)) == signed_count(s.take(i)) + if is_signed(s[i]) {
            1nat
        } else {
            0nat
        },
        failed_count(s.take(i + 1)) == failed_count(s.take(i)) + if is_settled_failure(s[i]) {
            1nat
        } else {
            0nat
        },
{
    assert(s.take(i + 1).drop_last() =~= s.take(i));
    assert(s.take(i + 1).last() == s[i]);
}

/// Executable verdict; see [`spec_evaluate`].
pub fn evaluate(outcomes: &Vec<ParticipantOutcome>, threshold: usize) -> (st: SessionStatus)
    ensures
        st == spec_evaluate(outcomes@, threshold as nat),
{
    let n: usize = outcomes.len();
    let mut signed: usize = 0;
    let mut failed: usize = 0;
    let mut i: usize = 0;
    while i < n
        invariant
            i <= n,
            n == outcomes@.len(),
            signed == signed_count(outcomes@.take(i as int)),
            failed == failed_count(outcomes@.take(i as int)),
            signed <= i,
            failed <= i,
        decreases n - i,
    {
        proof {
            lemma_count_take_step(outcomes@, i as int);
        }
        match &outcomes[i] {
            ParticipantOutcome::Signed { .. } => {
                signed = signed + 1;
            },
            ParticipantOutcome::Declined { .. } => {
                failed = failed + 1;
            },
            ParticipantOutcome::Unreachable { .. } => {
                failed = failed + 1;
            },
            ParticipantOutcome::Pending => {},
        }
        i = i + 1;
    }
    proof {
        assert(outcomes@.take(n as int) =~= outcomes@);
    }
    if signed >= threshold {
        SessionStatus::Satisfied
    } else if threshold > n || failed > n - threshold {
        SessionStatus::Impossible
    } else {
        SessionStatus::Unsatisfied
    }
}

} // verus!
