//! Signing coordinator: creates sessions for ready participants, books each
//! settled signing answer into both the session and the registry, and leaves
//! the threshold verdict to the evaluator.
//!
//! The host dispatches the actual concurrent device calls; every decision —
//! who may participate, what an answer means, when the session is terminal —
//! is made here.

use vstd::prelude::*;
use crate::signer::Fingerprint;
use crate::adapter::SignError;
use crate::evaluator::{signed_count, failed_count, spec_evaluate};
use crate::registry::{Registry, has_fp, record_of, spec_state_after_sign_outcome};
use crate::session::{
    ParticipantOutcome, RecordResult, SigningSession, has_participant, participant_index,
};

verus! {

/// The externally supplied rule for when a transaction is fully signed:
/// how many of the session's participants must contribute a signature.
#[derive(Clone, Copy, PartialEq, Eq, Structural, Debug)]
pub struct ThresholdPolicy {
    /// Required number of `Signed` outcomes; at least 1 and at most the
    /// number of participants of the session it is applied to.
    pub threshold: usize,
}

/// Why a signing request was refused; no session is created on failure.
#[derive(Clone, Copy, PartialEq, Eq, Structural, Debug)]
pub enum CoordinatorError {
    /// This fingerprint is not currently `Selected` or `Registered`.
    ParticipantNotReady { fingerprint: Fingerprint },
    /// The same fingerprint was named twice.
    DuplicateParticipant { fingerprint: Fingerprint },
    /// The threshold is zero or exceeds the number of participants.
    InvalidPolicy,
}

/// A fingerprint is ready to sign when its registry record is `Selected` or
/// `Registered`.
pub open spec fn spec_ready_to_sign(reg: Seq<crate::signer::SignerRecord>, f: Fingerprint) -> bool {
    has_fp(reg, f) && record_of(reg, f).state.spec_is_sign_ready()
}

/// A policy fits a participant list when the threshold is at least one and
/// reachable.
pub open spec fn spec_policy_fits(policy: ThresholdPolicy, n: nat) -> bool {
    1 <= policy.threshold <= n
}

/// No fingerprint is named twice.
pub open spec fn spec_distinct(ps: Seq<Fingerprint>) -> bool {
    forall|i: int, j: int| 0 <= i < j < ps.len() ==> ps[i] != ps[j]
}

/// The outcome content a settled signing answer stands for: a signature is
/// `Signed`, an operator refusal is `Declined`, and a device failure or
/// timeout is `Unreachable` with the failure's text (or "timeout").
pub open spec fn outcome_matches_result(
    o: ParticipantOutcome,
    result: Result<Vec<u8>, SignError>,
) -> bool {
    match (o, result) {
        (ParticipantOutcome::Signed { signature_data }, Ok(sig)) => signature_data@ == sig@,
        (
            ParticipantOutcome::Declined { reason },
            Err(SignError::Declined { reason: given }),
        ) => reason@ == given@,
        (
            ParticipantOutcome::Unreachable { reason },
            Err(SignError::DeviceError { reason: given }),
        ) => reason@ == given@,
        (ParticipantOutcome::Unreachable { reason }, Err(SignError::Timeout)) => reason@
            == "timeout"@,
        _ => false,
    }
}

/// A signing answer a session may store: a returned signature must be a
/// non-empty blob; every refusal or failure is storable.
pub open spec fn sign_result_valid(result: Result<Vec<u8>, SignError>) -> bool {
    match result {
        Ok(sig) => sig@.len() > 0,
        Err(_) => true,
    }
}

/// Answers in which the participant actually spoke: a signature or an
/// explicit refusal. A timeout or device failure is no contact.
pub open spec fn sign_result_is_contact(result: Result<Vec<u8>, SignError>) -> bool {
    match result {
        Ok(_) => true,
        Err(SignError::Declined { .. }) => true,
        Err(_) => false,
    }
}

/// A sequence of still-pending outcomes counts no signature and no failure.
proof fn lemma_all_pending_counts(s: Seq<ParticipantOutcome>)
    requires
        forall|i: int| 0 <= i < s.len() ==> s[i] is Pending,
    ensures
        signed_count(s) == 0,
        failed_count(s) == 0,
    decreases s.len(),
{
    if s.len() > 0 {
        lemma_all_pending_counts(s.drop_last());
    }
}

/// Creates the signing session for one unsigned transaction, or refuses
/// without creating anything. Success requires a threshold the participants
/// can reach, no duplicate fingerprint, and every named participant currently
/// `Selected` or `Registered` in the registry. The fresh session owes every
/// participant an answer: all outcomes start `Pending` and the verdict starts
/// open.
pub fn request_signatures(
    registry: &Registry,
    txid_unsigned: Vec<u8>,
    participants: Vec<Fingerprint>,
    policy: ThresholdPolicy,
    now: u64,
) -> (r: Result<SigningSession, CoordinatorError>)
    requires
        registry.wf(),
    ensures
        r is Ok <==> spec_policy_fits(policy, participants@.len()) && spec_distinct(participants@)
            && (forall|i: int|
            0 <= i < participants@.len() ==> spec_ready_to_sign(registry@, participants@[i])),
        r matches Ok(s) ==> {
            &&& s.wf()
            &&& s.participants@ == participants@
            &&& s.outcomes@.len() == participants@.len()
            &&& forall|i: int| 0 <= i < s.outcomes@.len() ==> s.outcomes@[i] is Pending
            &&& s.threshold == policy.threshold
            &&& s.txid_unsigned@ == txid_unsigned@
            &&& s.created_at == now
            &&& s.completed_at is None
            &&& !s.abandoned
        },
        !spec_policy_fits(policy, participants@.len()) <==> r matches Err(
            CoordinatorError::InvalidPolicy,
        ),
        r matches Err(CoordinatorError::DuplicateParticipant { fingerprint }) ==> !spec_distinct(
            participants@,
        ),
        r matches Err(CoordinatorError::ParticipantNotReady { fingerprint })
            ==> has_participant(participants@, fingerprint) && !spec_ready_to_sign(
            registry@,
            fingerprint,
        ),
{
    let n: usize = participants.len();
    if policy.threshold < 1 || policy.threshold > n {
        return Err(CoordinatorError::InvalidPolicy);
    }
    // Refuse a fingerprint named twice.
    let mut i: usize = 0;
    while i < n
        invariant
            i <= n,
            n == participants@.len(),
            spec_policy_fits(policy, participants@.len()),
            forall|a: int, b: int| 0 <= a < b < i ==> participants@[a] != participants@[b],
        decreases n - i,
    {
        let mut j: usize = 0;
        while j < i
            invariant
                j <= i < n,
                n == participants@.len(),
                spec_policy_fits(policy, participants@.len()),
                forall|b: int| 0 <= b < j ==> participants@[b] != participants@[i as int],
            decreases i - j,
        {
            if participants[j] == participants[i] {
                return Err(
                    CoordinatorError::DuplicateParticipant { fingerprint: participants[i] },
                );
            }
            j = j + 1;
        }
        i = i + 1;
    }
    // Refuse any participant that is not currently ready to sign.
    let mut i: usize = 0;
    while i < n
        invariant
            i <= n,
            n == participants@.len(),
            registry.wf(),
            spec_policy_fits(policy, participants@.len()),
            spec_distinct(participants@),
            forall|a: int| 0 <= a < i ==> spec_ready_to_sign(registry@, participants@[a]),
        decreases n - i,
    {
        let f: Fingerprint = participants[i];
        let ready: bool = match registry.get(f) {
            Some(rec) => rec.state.is_sign_ready(),
            None => false,
        };
        if !ready {
            proof {
                assert(has_participant(participants@, f));
            }
            return Err(CoordinatorError::ParticipantNotReady { fingerprint: f });
        }
        i = i + 1;
    }
    // Every gate passed: open the session with one pending slot each.
    let mut outcomes: Vec<ParticipantOutcome> = Vec::new();
    let mut i: usize = 0;
    while i < n
        invariant
            i <= n,
            outcomes@.len() == i,
            forall|a: int| 0 <= a < i ==> outcomes@[a] is Pending,
        decreases n - i,
    {
        outcomes.push(ParticipantOutcome::Pending);
        i = i + 1;
    }
    proof {
        lemma_all_pending_counts(outcomes@);
    }
    Ok(
        SigningSession {
            txid_unsigned,
            participants,
            outcomes,
            threshold: policy.threshold,
            created_at: now,
            completed_at: None,
            abandoned: false,
        },
    )
}

/// Books one participant's settled signing answer: the session stores the
/// outcome under its append-only rules, and — exactly when the session
/// accepted it — the participant's record moves to `Signed` or back to
/// `Registered`, with `last_seen` refreshed if the participant answered at
/// all (a timeout or device failure is no contact).
pub fn apply_sign_result(
    registry: &mut Registry,
    session: &mut SigningSession,
    f: Fingerprint,
    result: Result<Vec<u8>, SignError>,
    now: u64,
) -> (r: RecordResult)
    requires
        old(registry).wf(),
        old(session).wf(),
    ensures
        final(registry).wf(),
        final(session).wf(),
        // The session accepts or refuses the answer exactly as
        // `SigningSession::record_outcome` would store this result's outcome.
        final(session).participants@ == old(session).participants@,
        final(session).threshold == old(session).threshold,
        final(session).abandoned == old(session).abandoned,
        old(session).spec_is_terminal() ==> *final(session) == *old(session) && r
            == RecordResult::LateIgnored,
        !old(session).spec_is_terminal() ==> {
            let ps = old(session).participants@;
            let os = old(session).outcomes@;
            if !sign_result_valid(result) {
                *final(session) == *old(session) && r == RecordResult::InvalidOutcome
            } else if !has_participant(ps, f) {
                *final(session) == *old(session) && r == RecordResult::UnknownParticipant
            } else {
                let i = participant_index(ps, f);
                if os[i] is Pending {
                    let status = spec_evaluate(
                        final(session).outcomes@,
                        old(session).threshold as nat,
                    );
                    &&& final(session).outcomes@.len() == os.len()
                    &&& forall|k: int|
                        0 <= k < os.len() && k != i ==> final(session).outcomes@[k] == os[k]
                    &&& outcome_matches_result(final(session).outcomes@[i], result)
                    &&& r == (RecordResult::Recorded { status })
                    &&& final(session).completed_at == if status is Unsatisfied {
                        None::<u64>
                    } else {
                        Some(now)
                    }
                } else if outcome_matches_result(os[i], result) {
                    *final(session) == *old(session) && r == RecordResult::DuplicateIgnored
                } else {
                    *final(session) == *old(session) && r == RecordResult::Conflicting
                }
            }
        },
        // The registry record follows only an accepted answer.
        !(r is Recorded) ==> final(registry)@ == old(registry)@,
        r is Recorded && !has_fp(old(registry)@, f) ==> final(registry)@ == old(registry)@,
        r is Recorded && has_fp(old(registry)@, f) ==> {
            let s0 = old(registry)@;
            let s1 = final(registry)@;
            let prev = record_of(s0, f);
            &&& s1.len() == s0.len()
            &&& forall|k: int| 0 <= k < s0.len() && s0[k].fingerprint != f ==> s1[k] == s0[k]
            &&& record_of(s1, f) == (crate::signer::SignerRecord {
                state: spec_state_after_sign_outcome(prev.state, result is Ok),
                last_seen: if sign_result_is_contact(result) {
                    now
                } else {
                    prev.last_seen
                },
                ..prev
            })
        },
{
    let signed: bool = result.is_ok();
    let outcome: ParticipantOutcome = match result {
        Ok(signature_data) => ParticipantOutcome::Signed { signature_data },
        Err(SignError::Declined { reason }) => ParticipantOutcome::Declined { reason },
        Err(SignError::DeviceError { reason }) => ParticipantOutcome::Unreachable { reason },
        Err(SignError::Timeout) => ParticipantOutcome::Unreachable {
            reason: String::from_str("timeout"),
        },
    };
    let contact: bool = !matches!(outcome, ParticipantOutcome::Unreachable { .. });
    let r = session.record_outcome(f, outcome, now);
    let accepted: bool = matches!(r, RecordResult::Recorded { .. });
    if accepted {
        let _ = registry.apply_sign_outcome(f, signed, contact, now);
    }
    r
}

} // verus!
