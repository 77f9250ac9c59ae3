//! Session and coordinator behaviour: threshold verdicts, append-only
//! outcomes, terminal freezing, and creation gating.

use liana_signers::adapter::{SignError, SignerPresence};
use liana_signers::coordinator::{
    apply_sign_result, request_signatures, CoordinatorError, ThresholdPolicy,
};
use liana_signers::evaluator::{evaluate, SessionStatus};
use liana_signers::pairing::PairingContext;
use liana_signers::registry::Registry;
use liana_signers::session::{ParticipantOutcome, RecordResult, SigningSession};
use liana_signers::signer::{Network, SignerKind, SignerState};

const A: u64 = 0xa;
const B: u64 = 0xb;
const C: u64 = 0xc;

fn ctx() -> PairingContext {
    PairingContext { wallet_network: Network::Mainnet, min_firmware: None, related: true }
}

fn hw(vendor: &str) -> SignerKind {
    SignerKind::Hardware { vendor: vendor.to_string(), model: "one".to_string() }
}

fn ready(f: u64) -> SignerPresence {
    SignerPresence::Ready { fingerprint: f, firmware_version: None, network: None }
}

/// A registry in which the given fingerprints are `Registered`.
fn registry_with(fps: &[u64]) -> Registry {
    let mut reg = Registry::new();
    for &f in fps {
        reg.upsert(f, hw("v"), ready(f), &ctx(), 1);
        reg.apply_registration(f, Ok(()), 1).unwrap();
    }
    reg
}

fn open_session(reg: &Registry, fps: &[u64], threshold: usize) -> SigningSession {
    request_signatures(
        reg,
        vec![0xde, 0xad],
        fps.to_vec(),
        ThresholdPolicy { threshold },
        100,
    )
    .unwrap()
}

fn sig(byte: u8) -> Result<Vec<u8>, SignError> {
    Ok(vec![byte; 4])
}

fn declined() -> Result<Vec<u8>, SignError> {
    Err(SignError::Declined { reason: "operator refused".to_string() })
}

#[test]
fn two_of_three_with_one_decline_is_satisfied_on_second_signature() {
    let mut reg = registry_with(&[A, B, C]);
    let mut session = open_session(&reg, &[A, B, C], 2);

    // A signs: one of two, still open.
    let r = apply_sign_result(&mut reg, &mut session, A, sig(1), 101);
    assert!(matches!(r, RecordResult::Recorded { status: SessionStatus::Unsatisfied }));
    assert!(!session.is_terminal());

    // B declines: a decline never aborts the session.
    let r = apply_sign_result(&mut reg, &mut session, B, declined(), 102);
    assert!(matches!(r, RecordResult::Recorded { status: SessionStatus::Unsatisfied }));
    assert!(!session.is_terminal());

    // C signs: two of three, satisfied the instant the second signature lands.
    let r = apply_sign_result(&mut reg, &mut session, C, sig(2), 103);
    assert!(matches!(r, RecordResult::Recorded { status: SessionStatus::Satisfied }));
    assert!(session.is_terminal());
    assert_eq!(session.completed_at, Some(103));
}

#[test]
fn satisfied_without_waiting_for_the_last_participant() {
    let mut reg = registry_with(&[A, B, C]);
    let mut session = open_session(&reg, &[A, B, C], 2);
    apply_sign_result(&mut reg, &mut session, A, sig(1), 101);
    let r = apply_sign_result(&mut reg, &mut session, B, sig(2), 102);
    // Two signatures satisfy 2-of-3 while C is still pending.
    assert!(matches!(r, RecordResult::Recorded { status: SessionStatus::Satisfied }));
    assert!(session.is_terminal());
}

#[test]
fn decline_and_timeout_on_two_of_two_is_impossible() {
    let mut reg = registry_with(&[A, B]);
    let mut session = open_session(&reg, &[A, B], 2);

    let r = apply_sign_result(&mut reg, &mut session, A, declined(), 101);
    // One failure already exceeds the margin of a 2-of-2 session.
    assert!(matches!(r, RecordResult::Recorded { status: SessionStatus::Impossible }));
    assert!(session.is_terminal());

    // B's timeout arrives late and is discarded: the session is frozen.
    let r = apply_sign_result(&mut reg, &mut session, B, Err(SignError::Timeout), 102);
    assert!(matches!(r, RecordResult::LateIgnored));
    assert!(matches!(session.outcomes[1], ParticipantOutcome::Pending));
}

#[test]
fn impossible_margin_is_exact() {
    // 2-of-3: one failure leaves the threshold reachable, two do not.
    let outcomes = vec![
        ParticipantOutcome::Declined { reason: "no".to_string() },
        ParticipantOutcome::Pending,
        ParticipantOutcome::Pending,
    ];
    assert_eq!(evaluate(&outcomes, 2), SessionStatus::Unsatisfied);
    let outcomes = vec![
        ParticipantOutcome::Declined { reason: "no".to_string() },
        ParticipantOutcome::Unreachable { reason: "timeout".to_string() },
        ParticipantOutcome::Pending,
    ];
    assert_eq!(evaluate(&outcomes, 2), SessionStatus::Impossible);
}

#[test]
fn evaluator_counts_exactly() {
    let outcomes = vec![
        ParticipantOutcome::Signed { signature_data: vec![1] },
        ParticipantOutcome::Signed { signature_data: vec![2] },
        ParticipantOutcome::Pending,
    ];
    assert_eq!(evaluate(&outcomes, 2), SessionStatus::Satisfied);
    assert_eq!(evaluate(&outcomes, 3), SessionStatus::Unsatisfied);
}

#[test]
fn terminal_session_never_changes_even_for_late_answers() {
    let mut reg = registry_with(&[A, B, C]);
    let mut session = open_session(&reg, &[A, B, C], 1);
    apply_sign_result(&mut reg, &mut session, A, sig(1), 101);
    assert!(session.is_terminal());
    let frozen = session.outcomes.len();

    // A late decline from B changes nothing.
    let r = apply_sign_result(&mut reg, &mut session, B, declined(), 102);
    assert!(matches!(r, RecordResult::LateIgnored));
    assert_eq!(session.outcomes.len(), frozen);
    assert!(matches!(session.outcomes[1], ParticipantOutcome::Pending));
    assert_eq!(session.completed_at, Some(101));
}

#[test]
fn settled_outcome_is_never_overwritten() {
    let mut reg = registry_with(&[A, B, C]);
    let mut session = open_session(&reg, &[A, B, C], 3);

    let r = apply_sign_result(&mut reg, &mut session, A, sig(1), 101);
    assert!(matches!(r, RecordResult::Recorded { .. }));

    // A content-identical duplicate is idempotently ignored.
    let r = apply_sign_result(&mut reg, &mut session, A, sig(1), 102);
    assert!(matches!(r, RecordResult::DuplicateIgnored));

    // A conflicting second answer is flagged, and nothing is overwritten.
    let r = apply_sign_result(&mut reg, &mut session, A, sig(9), 103);
    assert!(matches!(r, RecordResult::Conflicting));
    match &session.outcomes[0] {
        ParticipantOutcome::Signed { signature_data } => {
            assert_eq!(signature_data, &vec![1, 1, 1, 1]);
        }
        _ => panic!("expected a signed outcome"),
    }
}

#[test]
fn empty_signature_blob_is_invalid() {
    let mut reg = registry_with(&[A, B]);
    let mut session = open_session(&reg, &[A, B], 1);
    let r = apply_sign_result(&mut reg, &mut session, A, Ok(vec![]), 101);
    assert!(matches!(r, RecordResult::InvalidOutcome));
    assert!(matches!(session.outcomes[0], ParticipantOutcome::Pending));
}

#[test]
fn unknown_participant_is_refused() {
    let mut reg = registry_with(&[A, B]);
    let mut session = open_session(&reg, &[A, B], 1);
    let r = apply_sign_result(&mut reg, &mut session, C, sig(1), 101);
    assert!(matches!(r, RecordResult::UnknownParticipant));
}

#[test]
fn request_with_disconnected_participant_fails_without_a_session() {
    let mut reg = registry_with(&[A, B]);
    // A goes away: its record is now Disconnected.
    reg.upsert(A, hw("v"), SignerPresence::Absent, &ctx(), 50);
    let r = request_signatures(
        &reg,
        vec![0xde, 0xad],
        vec![A, B],
        ThresholdPolicy { threshold: 2 },
        100,
    );
    match r {
        Err(CoordinatorError::ParticipantNotReady { fingerprint }) => {
            assert_eq!(fingerprint, A);
        }
        _ => panic!("expected the request to be refused"),
    }
}

#[test]
fn threshold_above_participant_count_is_invalid_policy() {
    let reg = registry_with(&[A, B]);
    let r = request_signatures(
        &reg,
        vec![0xde],
        vec![A, B],
        ThresholdPolicy { threshold: 3 },
        100,
    );
    assert!(matches!(r, Err(CoordinatorError::InvalidPolicy)));
    let r = request_signatures(&reg, vec![0xde], vec![A, B], ThresholdPolicy { threshold: 0 }, 100);
    assert!(matches!(r, Err(CoordinatorError::InvalidPolicy)));
}

#[test]
fn duplicate_participant_is_refused() {
    let reg = registry_with(&[A, B]);
    let r = request_signatures(
        &reg,
        vec![0xde],
        vec![A, B, A],
        ThresholdPolicy { threshold: 2 },
        100,
    );
    match r {
        Err(CoordinatorError::DuplicateParticipant { fingerprint }) => assert_eq!(fingerprint, A),
        _ => panic!("expected the duplicate to be refused"),
    }
}

#[test]
fn fresh_session_owes_every_participant_an_answer() {
    let reg = registry_with(&[A, B, C]);
    let session = open_session(&reg, &[A, B, C], 2);
    assert_eq!(session.participants, vec![A, B, C]);
    assert_eq!(session.outcomes.len(), 3);
    for o in &session.outcomes {
        assert!(matches!(o, ParticipantOutcome::Pending));
    }
    assert_eq!(session.threshold, 2);
    assert_eq!(session.created_at, 100);
    assert_eq!(session.completed_at, None);
    assert!(!session.abandoned);
    assert_eq!(session.status(), SessionStatus::Unsatisfied);
}

#[test]
fn cancel_freezes_a_running_session() {
    let mut reg = registry_with(&[A, B]);
    let mut session = open_session(&reg, &[A, B], 2);
    assert!(session.cancel());
    assert!(session.abandoned);
    assert!(session.is_terminal());
    // An answer already underway is discarded on arrival.
    let r = apply_sign_result(&mut reg, &mut session, A, sig(1), 101);
    assert!(matches!(r, RecordResult::LateIgnored));
    // Cancelling twice does nothing more.
    assert!(!session.cancel());
}

#[test]
fn signing_outcomes_update_the_registry_records() {
    let mut reg = registry_with(&[A, B]);
    let mut session = open_session(&reg, &[A, B], 2);
    reg.mark_signing(A).unwrap();
    assert!(matches!(reg.get(A).unwrap().state, SignerState::Signing));

    apply_sign_result(&mut reg, &mut session, A, sig(1), 101);
    assert!(matches!(reg.get(A).unwrap().state, SignerState::Signed));
    assert_eq!(reg.get(A).unwrap().last_seen, 101);

    // A decline puts the participant back to Registered; it answered, so
    // last_seen advances.
    apply_sign_result(&mut reg, &mut session, B, declined(), 102);
    assert!(matches!(reg.get(B).unwrap().state, SignerState::Registered));
    assert_eq!(reg.get(B).unwrap().last_seen, 102);
}

#[test]
fn timeout_is_no_contact() {
    let mut reg = registry_with(&[A, B]);
    let mut session = open_session(&reg, &[A, B], 1);
    let before = reg.get(B).unwrap().last_seen;
    apply_sign_result(&mut reg, &mut session, B, Err(SignError::Timeout), 500);
    assert!(matches!(reg.get(B).unwrap().state, SignerState::Registered));
    assert_eq!(reg.get(B).unwrap().last_seen, before);
    match &session.outcomes[1] {
        ParticipantOutcome::Unreachable { reason } => assert_eq!(reason, "timeout"),
        _ => panic!("expected an unreachable outcome"),
    }
}

#[test]
fn signed_participants_are_released_for_the_next_session() {
    let mut reg = registry_with(&[A, B]);
    let mut session = open_session(&reg, &[A, B], 2);
    apply_sign_result(&mut reg, &mut session, A, sig(1), 101);
    apply_sign_result(&mut reg, &mut session, B, sig(2), 102);
    assert!(session.is_terminal());
    assert!(matches!(reg.get(A).unwrap().state, SignerState::Signed));
    assert!(matches!(reg.get(B).unwrap().state, SignerState::Signed));

    // Signed is terminal per session only: once the session is closed the
    // participants return to Registered and can serve a second transaction.
    reg.release_signed();
    assert!(matches!(reg.get(A).unwrap().state, SignerState::Registered));
    assert!(matches!(reg.get(B).unwrap().state, SignerState::Registered));

    let second = request_signatures(
        &reg,
        vec![0xbe, 0xef],
        vec![A, B],
        ThresholdPolicy { threshold: 2 },
        200,
    );
    assert!(second.is_ok());
}
