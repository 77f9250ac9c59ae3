//! Pairing and registration protocol: the pure transition rules that drive a
//! probed participant from discovery to readiness.
//!
//! A probe result is gated in this order: a fingerprint outside the wallet's
//! key set is `Unrelated`; a device on the wrong bitcoin network is an error;
//! a firmware version below the required minimum is an error and registration
//! is never attempted for it. Registration is attempted at most once per
//! transition into `Ready`; a failed registration is a persistent error state
//! that is not retried until the device has gone away and come back.

use vstd::prelude::*;
use crate::signer::{ErrorKind, Network, SignerKind, SignerState, Version, version_lt};
use crate::adapter::{RegistrationError, SignerPresence};

verus! {

/// Wallet-side facts a probe result is judged against.
#[derive(Clone, Copy)]
pub struct PairingContext {
    /// The network this wallet is configured for.
    pub wallet_network: Network,
    /// Minimum firmware version required of this vendor/model, if any.
    pub min_firmware: Option<Version>,
    /// Whether the probed fingerprint belongs to the wallet's descriptor.
    pub related: bool,
}

/// True when the device reports a network that differs from the wallet's.
/// A device that reports no network is not gated.
pub open spec fn network_mismatch(device: Option<Network>, wallet: Network) -> bool {
    match device {
        Some(n) => n != wallet,
        None => false,
    }
}

/// True when the device reports a firmware version strictly below the
/// required minimum. With no minimum, or no reported version, nothing is
/// gated.
pub open spec fn version_below(reported: Option<Version>, min: Option<Version>) -> bool {
    match (reported, min) {
        (Some(v), Some(m)) => version_lt(v, m),
        _ => false,
    }
}

/// The state a signer moves to when a probe reports `presence`, given its
/// current state. A never-seen participant is judged as if previously
/// `Disconnected`. Hot and provider keys are never `Disconnected`: an absent
/// one is reported as an unsupported-contact error instead.
pub open spec fn spec_state_after_probe(
    kind: SignerKind,
    current: SignerState,
    presence: SignerPresence,
    ctx: PairingContext,
) -> SignerState {
    match presence {
        SignerPresence::Absent => {
            if kind.spec_is_hardware() {
                SignerState::Disconnected
            } else {
                SignerState::Error { kind: ErrorKind::Unsupported }
            }
        },
        SignerPresence::Locked { pairing_code } => SignerState::Locked { pairing_code },
        SignerPresence::Error { error } => SignerState::Error { kind: ErrorKind::Unsupported },
        SignerPresence::Ready { fingerprint, firmware_version, network } => {
            if !ctx.related {
                SignerState::Unrelated
            } else if network_mismatch(network, ctx.wallet_network) {
                SignerState::Error { kind: ErrorKind::WrongNetwork }
            } else if version_below(firmware_version, ctx.min_firmware) {
                SignerState::Error { kind: ErrorKind::UnsupportedVersion }
            } else {
                match current {
                    SignerState::Registered => SignerState::Registered,
                    SignerState::Selected => SignerState::Selected,
                    SignerState::Signing => SignerState::Signing,
                    SignerState::Signed => SignerState::Signed,
                    SignerState::Error { kind: ErrorKind::RegistrationFailed } => {
                        SignerState::Error { kind: ErrorKind::RegistrationFailed }
                    },
                    _ => {
                        if kind.spec_is_hardware() {
                            SignerState::Ready
                        } else {
                            SignerState::Registered
                        }
                    },
                }
            }
        },
    }
}

/// Registration is due exactly on a transition into `Ready`: at most one
/// automatic attempt per such transition, and never for a participant gated
/// by network, firmware version or relatedness (those never map to `Ready`).
pub open spec fn spec_registration_due(current: SignerState, next: SignerState) -> bool {
    next is Ready && !(current is Ready)
}

/// The state a `Ready` signer moves to once a registration attempt settles.
/// A result arriving in any other state (the device went away meanwhile) is
/// discarded.
pub open spec fn spec_state_after_registration(
    current: SignerState,
    accepted: Result<(), RegistrationError>,
) -> SignerState {
    if current is Ready {
        match accepted {
            Ok(()) => SignerState::Registered,
            Err(RegistrationError::Rejected) => SignerState::Error {
                kind: ErrorKind::RegistrationFailed,
            },
            Err(RegistrationError::Unsupported) => SignerState::Error {
                kind: ErrorKind::Unsupported,
            },
        }
    } else {
        current
    }
}

/// Executable probe transition; see [`spec_state_after_probe`].
pub fn state_after_probe(
    kind: &SignerKind,
    current: &SignerState,
    presence: SignerPresence,
    ctx: &PairingContext,
) -> (r: SignerState)
    ensures
        r == spec_state_after_probe(*kind, *current, presence, *ctx),
{
    match presence {
        SignerPresence::Absent => {
            if kind.is_hardware() {
                SignerState::Disconnected
            } else {
                SignerState::Error { kind: ErrorKind::Unsupported }
            }
        },
        SignerPresence::Locked { pairing_code } => SignerState::Locked { pairing_code },
        SignerPresence::Error { error: _ } => SignerState::Error { kind: ErrorKind::Unsupported },
        SignerPresence::Ready { fingerprint: _, firmware_version, network } => {
            let mismatched: bool = match (network, &ctx.wallet_network) {
                (Some(n), w) => n != *w,
                (None, _) => false,
            };
            let below: bool = match (&firmware_version, &ctx.min_firmware) {
                (Some(v), Some(m)) => v.is_older_than(m),
                _ => false,
            };
            if !ctx.related {
                SignerState::Unrelated
            } else if mismatched {
                SignerState::Error { kind: ErrorKind::WrongNetwork }
            } else if below {
                SignerState::Error { kind: ErrorKind::UnsupportedVersion }
            } else {
                match current {
                    SignerState::Registered => SignerState::Registered,
                    SignerState::Selected => SignerState::Selected,
                    SignerState::Signing => SignerState::Signing,
                    SignerState::Signed => SignerState::Signed,
                    SignerState::Error { kind: ErrorKind::RegistrationFailed } => {
                        SignerState::Error { kind: ErrorKind::RegistrationFailed }
                    },
                    _ => {
                        if kind.is_hardware() {
                            SignerState::Ready
                        } else {
                            SignerState::Registered
                        }
                    },
                }
            }
        },
    }
}

/// Executable registration-due test; see [`spec_registration_due`].
pub fn registration_due(current: &SignerState, next: &SignerState) -> (r: bool)
    ensures
        r == spec_registration_due(*current, *next),
{
    match (next, current) {
        (SignerState::Ready, SignerState::Ready) => false,
        (SignerState::Ready, _) => true,
        _ => false,
    }
}

/// Executable registration transition; see [`spec_state_after_registration`].
pub fn state_after_registration(
    current: SignerState,
    accepted: Result<(), RegistrationError>,
) -> (r: SignerState)
    ensures
        r == spec_state_after_registration(current, accepted),
{
    match current {
        SignerState::Ready => {
            match accepted {
                Ok(()) => SignerState::Registered,
                Err(RegistrationError::Rejected) => SignerState::Error {
                    kind: ErrorKind::RegistrationFailed,
                },
                Err(RegistrationError::Unsupported) => SignerState::Error {
                    kind: ErrorKind::Unsupported,
                },
            }
        },
        c => c,
    }
}

/// A probe never leaves a hot or provider key `Disconnected`: only hardware
/// devices are ever reported absent from the wallet's point of view.
pub proof fn lemma_non_hardware_never_disconnected(
    kind: SignerKind,
    current: SignerState,
    presence: SignerPresence,
    ctx: PairingContext,
)
    requires
        !kind.spec_is_hardware(),
    ensures
        !(spec_state_after_probe(kind, current, presence, ctx) is Disconnected),
{
}

/// A firmware version below the required minimum short-circuits to an
/// `UnsupportedVersion` error, and registration is never attempted for it.
pub proof fn lemma_version_gate_blocks_registration(
    kind: SignerKind,
    current: SignerState,
    firmware_version: Option<Version>,
    network: Option<Network>,
    fingerprint: u64,
    ctx: PairingContext,
)
    requires
        ctx.related,
        !network_mismatch(network, ctx.wallet_network),
        version_below(firmware_version, ctx.min_firmware),
    ensures
        spec_state_after_probe(
            kind,
            current,
            SignerPresence::Ready { fingerprint, firmware_version, network },
            ctx,
        ) == (SignerState::Error { kind: ErrorKind::UnsupportedVersion }),
        !spec_registration_due(
            current,
            spec_state_after_probe(
                kind,
                current,
                SignerPresence::Ready { fingerprint, firmware_version, network },
                ctx,
            ),
        ),
{
}

} // verus!
