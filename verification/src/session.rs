//! Signing sessions: per-transaction bookkeeping of every participant's
//! outcome, append-only and frozen once terminal.

use vstd::prelude::*;
use crate::signer::Fingerprint;
use crate::evaluator::{SessionStatus, spec_evaluate};

verus! {

/// Where one participant stands within one signing session.
pub enum ParticipantOutcome {
    /// The request is dispatched (or about to be); no answer yet.
    Pending,
    /// The participant returned a partial-signature set for the transaction.
    Signed { signature_data: Vec<u8> },
    /// The operator declined to sign.
    Declined { reason: String },
    /// The participant could not be reached before the deadline, or failed.
    Unreachable { reason: String },
}

/// Content equality of two outcomes: same variant and same payload.
pub open spec fn outcome_identical(a: ParticipantOutcome, b: ParticipantOutcome) -> bool {
    match (a, b) {
        (ParticipantOutcome::Pending, ParticipantOutcome::Pending) => true,
        (
            ParticipantOutcome::Signed { signature_data: x },
            ParticipantOutcome::Signed { signature_data: y },
        ) => x@ == y@,
        (
            ParticipantOutcome::Declined { reason: x },
            ParticipantOutcome::Declined { reason: y },
        ) => x@ == y@,
        (
            ParticipantOutcome::Unreachable { reason: x },
            ParticipantOutcome::Unreachable { reason: y },
        ) => x@ == y@,
        _ => false,
    }
}

/// An outcome a participant may settle on: not `Pending`, and a signature
/// must be structurally well-formed (a non-empty partial-signature blob).
/// Signature content is not verified here; cryptographic checking is the
/// wallet daemon's job.
pub open spec fn outcome_valid(o: ParticipantOutcome) -> bool {
    match o {
        ParticipantOutcome::Pending => false,
        ParticipantOutcome::Signed { signature_data } => signature_data@.len() > 0,
        ParticipantOutcome::Declined { .. } => true,
        ParticipantOutcome::Unreachable { .. } => true,
    }
}

/// Byte-for-byte copy whose view provably equals the original's.
fn clone_bytes(b: &Vec<u8>) -> (r: Vec<u8>)
    ensures
        r@ == b@,
{
    let n: usize = b.len();
    let mut out: Vec<u8> = Vec::new();
    let mut i: usize = 0;
    while i < n
        invariant
            i <= n,
            n == b@.len(),
            out@ =~= b@.take(i as int),
        decreases n - i,
    {
        out.push(b[i]);
        i = i + 1;
    }
    proof {
        assert(out@ =~= b@);
    }
    out
}

/// Byte-for-byte comparison of two blobs.
fn bytes_eq(a: &Vec<u8>, b: &Vec<u8>) -> (r: bool)
    ensures
        r == (a@ == b@),
{
    let n: usize = a.len();
    if n != b.len() {
        proof {
            assert(a@.len() != b@.len());
        }
        return false;
    }
    let mut i: usize = 0;
    while i < n
        invariant
            i <= n,
            n == a@.len(),
            n == b@.len(),
            forall|k: int| 0 <= k < i ==> a@[k] == b@[k],
        decreases n - i,
    {
        if a[i] != b[i] {
            return false;
        }
        i = i + 1;
    }
    proof {
        assert(a@ =~= b@);
    }
    true
}

impl Clone for ParticipantOutcome {
    /// A clone carries identical content.
    fn clone(&self) -> (res: Self)
        ensures
            outcome_identical(*self, res),
    {
        match self {
            ParticipantOutcome::Pending => ParticipantOutcome::Pending,
            ParticipantOutcome::Signed { signature_data } => ParticipantOutcome::Signed {
                signature_data: clone_bytes(signature_data),
            },
            ParticipantOutcome::Declined { reason } => ParticipantOutcome::Declined {
                reason: reason.clone(),
            },
            ParticipantOutcome::Unreachable { reason } => ParticipantOutcome::Unreachable {
                reason: reason.clone(),
            },
        }
    }
}

/// Content comparison of two outcomes; see [`outcome_identical`].
pub fn outcomes_identical(a: &ParticipantOutcome, b: &ParticipantOutcome) -> (r: bool)
    ensures
        r == outcome_identical(*a, *b),
{
    match (a, b) {
        (ParticipantOutcome::Pending, ParticipantOutcome::Pending) => true,
        (
            ParticipantOutcome::Signed { signature_data: x },
            ParticipantOutcome::Signed { signature_data: y },
        ) => bytes_eq(x, y),
        (
            ParticipantOutcome::Declined { reason: x },
            ParticipantOutcome::Declined { reason: y },
        ) => *x == *y,
        (
            ParticipantOutcome::Unreachable { reason: x },
            ParticipantOutcome::Unreachable { reason: y },
        ) => *x == *y,
        _ => false,
    }
}

/// True when some participant slot carries fingerprint `f`.
pub open spec fn has_participant(s: Seq<Fingerprint>, f: Fingerprint) -> bool {
    exists|i: int| 0 <= i < s.len() && s[i] == f
}

/// The slot of fingerprint `f`; meaningful only under `has_participant`.
pub open spec fn participant_index(s: Seq<Fingerprint>, f: Fingerprint) -> int {
    choose|i: int| 0 <= i < s.len() && s[i] == f
}

/// What recording an outcome did.
#[derive(Clone, Copy, PartialEq, Eq, Structural, Debug)]
pub enum RecordResult {
    /// The outcome was stored; the session's verdict after storing it.
    Recorded { status: SessionStatus },
    /// The session was already terminal; the late answer was discarded.
    LateIgnored,
    /// The participant had already settled on identical content; ignored.
    DuplicateIgnored,
    /// The participant had already settled on different content: a protocol
    /// error. Nothing is overwritten.
    Conflicting,
    /// The fingerprint is not a participant of this session.
    UnknownParticipant,
    /// The answer was `Pending` or a structurally empty signature.
    InvalidOutcome,
}

/// Bookkeeping for one signing request over one unsigned transaction.
pub struct SigningSession {
    /// Digest of the unsigned transaction this session signs.
    pub txid_unsigned: Vec<u8>,
    /// The fixed participant set, in the order given at creation.
    pub participants: Vec<Fingerprint>,
    /// One outcome per participant, same order as `participants`.
    pub outcomes: Vec<ParticipantOutcome>,
    /// How many `Signed` outcomes satisfy the session.
    pub threshold: usize,
    /// When the session was created.
    pub created_at: u64,
    /// Set the instant the verdict first left `Unsatisfied`; never cleared.
    pub completed_at: Option<u64>,
    /// Set when the caller cancelled the session before completion.
    pub abandoned: bool,
}

impl SigningSession {
    /// Structural invariant: distinct participants, one outcome per
    /// participant, a reachable threshold, and a completion stamp exactly
    /// when the verdict is no longer open.
    pub open spec fn wf(&self) -> bool {
        &&& forall|i: int, j: int|
            0 <= i < j < self.participants@.len() ==> self.participants@[i]
                != self.participants@[j]
        &&& self.outcomes@.len() == self.participants@.len()
        &&& 1 <= self.threshold <= self.participants@.len()
        &&& (self.completed_at is None && !self.abandoned ==> spec_evaluate(
            self.outcomes@,
            self.threshold as nat,
        ) is Unsatisfied)
        &&& (self.completed_at is Some ==> !(spec_evaluate(
            self.outcomes@,
            self.threshold as nat,
        ) is Unsatisfied))
    }

    /// Terminal sessions accept no further outcomes.
    pub open spec fn spec_is_terminal(&self) -> bool {
        self.completed_at is Some || self.abandoned
    }

    /// Executable terminality test.
    pub fn is_terminal(&self) -> (r: bool)
        ensures
            r == self.spec_is_terminal(),
    {
        self.completed_at.is_some() || self.abandoned
    }

    /// The current verdict of the threshold evaluator over this session.
    pub fn status(&self) -> (st: SessionStatus)
        ensures
            st == spec_evaluate(self.outcomes@, self.threshold as nat),
    {
        crate::evaluator::evaluate(&self.outcomes, self.threshold)
    }

    /// The slot of fingerprint `f`, if it participates.
    fn find_participant(&self, f: Fingerprint) -> (r: Option<usize>)
        ensures
            match r {
                Some(i) => i < self.participants@.len() && self.participants@[i as int] == f,
                None => !has_participant(self.participants@, f),
            },
    {
        let n: usize = self.participants.len();
        let mut i: usize = 0;
        while i < n
            invariant
                i <= n,
                n == self.participants@.len(),
                forall|k: int| 0 <= k < i ==> self.participants@[k] != f,
            decreases n - i,
        {
            if self.participants[i] == f {
                return Some(i);
            }
            i = i + 1;
        }
        None
    }

    /// Stores participant `f`'s settled outcome, linearized with every other
    /// completion. A terminal session is never changed (late answers are
    /// discarded); a participant that already settled is never overwritten —
    /// an identical repeat is idempotently ignored, a differing one is
    /// flagged. When the stored outcome makes the verdict leave
    /// `Unsatisfied`, the session completes at `now` and freezes.
    pub fn record_outcome(
        &mut self,
        f: Fingerprint,
        outcome: ParticipantOutcome,
        now: u64,
    ) -> (r: RecordResult)
        requires
            old(self).wf(),
        ensures
            final(self).wf(),
            final(self).participants@ == old(self).participants@,
            final(self).threshold == old(self).threshold,
            final(self).txid_unsigned@ == old(self).txid_unsigned@,
            final(self).created_at == old(self).created_at,
            final(self).abandoned == old(self).abandoned,
            // Idempotent terminality: a terminal session never changes.
            old(self).spec_is_terminal() ==> *final(self) == *old(self) && r
                == RecordResult::LateIgnored,
            !old(self).spec_is_terminal() ==> {
                let ps = old(self).participants@;
                let os = old(self).outcomes@;
                if !outcome_valid(outcome) {
                    *final(self) == *old(self) && r == RecordResult::InvalidOutcome
                } else if !has_participant(ps, f) {
                    *final(self) == *old(self) && r == RecordResult::UnknownParticipant
                } else {
                    let i = participant_index(ps, f);
                    if os[i] is Pending {
                        let status = spec_evaluate(
                            os.update(i, outcome),
                            old(self).threshold as nat,
                        );
                        &&& final(self).outcomes@ == os.update(i, outcome)
                        &&& r == (RecordResult::Recorded { status })
                        &&& final(self).completed_at == if status is Unsatisfied {
                            None::<u64>
                        } else {
                            Some(now)
                        }
                    } else if outcome_identical(os[i], outcome) {
                        *final(self) == *old(self) && r == RecordResult::DuplicateIgnored
                    } else {
                        *final(self) == *old(self) && r == RecordResult::Conflicting
                    }
                }
            },
    {
        if self.is_terminal() {
            return RecordResult::LateIgnored;
        }
        let valid: bool = match &outcome {
            ParticipantOutcome::Pending => false,
            ParticipantOutcome::Signed { signature_data } => signature_data.len() > 0,
            ParticipantOutcome::Declined { .. } => true,
            ParticipantOutcome::Unreachable { .. } => true,
        };
        if !valid {
            return RecordResult::InvalidOutcome;
        }
        match self.find_participant(f) {
            None => RecordResult::UnknownParticipant,
            Some(i) => {
                proof {
                    assert(has_participant(self.participants@, f));
                    assert(participant_index(self.participants@, f) == i as int) by {
                        let j = participant_index(self.participants@, f);
                        assert(0 <= j < self.participants@.len() && self.participants@[j] == f);
                        if j != i as int {
                            assert(self.participants@[j] == self.participants@[i as int]);
                        }
                    }
                }
                let pending: bool = matches!(self.outcomes[i], ParticipantOutcome::Pending);
                if pending {
                    let slot = &mut self.outcomes[i];
                    *slot = outcome;
                    let status = crate::evaluator::evaluate(&self.outcomes, self.threshold);
                    let verdict_open: bool = matches!(status, SessionStatus::Unsatisfied);
                    if !verdict_open {
                        self.completed_at = Some(now);
                    }
                    RecordResult::Recorded { status }
                } else if outcomes_identical(&self.outcomes[i], &outcome) {
                    RecordResult::DuplicateIgnored
                } else {
                    RecordResult::Conflicting
                }
            },
        }
    }

    /// Cancels a session that has not completed: no new outcome will be
    /// stored, and answers already underway are discarded on arrival. A
    /// session that is already terminal is left exactly as it is.
    pub fn cancel(&mut self) -> (r: bool)
        requires
            old(self).wf(),
        ensures
            final(self).wf(),
            old(self).spec_is_terminal() ==> *final(self) == *old(self) && !r,
            !old(self).spec_is_terminal() ==> r && final(self).abandoned && final(self).outcomes@
                == old(self).outcomes@ && final(self).participants@ == old(self).participants@
                && final(self).threshold == old(self).threshold && final(self).completed_at
                == old(self).completed_at && final(self).txid_unsigned@
                == old(self).txid_unsigned@ && final(self).created_at == old(self).created_at,
    {
        if self.is_terminal() {
            false
        } else {
            self.abandoned = true;
            true
        }
    }
}

} // verus!
