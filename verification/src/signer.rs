//! Core data model: signer identity, kind, firmware version, network, and
//! the per-signer connection state machine.

use vstd::prelude::*;

verus! {

/// Stable identifier of a signing participant, derived from its master
/// public key. Unique within a wallet's configured key set.
pub type Fingerprint = u64;

/// Bitcoin network a device or wallet is configured for.
#[derive(Clone, Copy, PartialEq, Eq, Structural, Debug)]
pub enum Network {
    Mainnet,
    Testnet,
    Signet,
}

/// A firmware or software version, ordered lexicographically by
/// (major, minor, patch).
#[derive(Clone, Copy, PartialEq, Eq, Structural, Debug)]
pub struct Version {
    pub major: u64,
    pub minor: u64,
    pub patch: u64,
}

/// Lexicographic order on versions.
pub open spec fn version_lt(a: Version, b: Version) -> bool {
    ||| a.major < b.major
    ||| (a.major == b.major && a.minor < b.minor)
    ||| (a.major == b.major && a.minor == b.minor && a.patch < b.patch)
}

impl Version {
    /// True when `self` is strictly older than `other`.
    pub fn is_older_than(&self, other: &Version) -> (r: bool)
        ensures
            r == version_lt(*self, *other),
    {
        if self.major != other.major {
            self.major < other.major
        } else if self.minor != other.minor {
            self.minor < other.minor
        } else {
            self.patch < other.patch
        }
    }
}

/// What kind of participant a signer is. Immutable once created.
pub enum SignerKind {
    /// A hardware security device, e.g. a USB signer.
    Hardware { vendor: String, model: String },
    /// A key derived locally from a mnemonic held on this computer.
    Hot { mnemonic_ref: u64 },
    /// A key held by a remote cosigning service, authenticated by a token.
    ProviderKey { service: String, token: String },
}

impl SignerKind {
    /// Hardware devices come and go on a transport and must have the wallet
    /// descriptor registered on them; hot and provider keys are logically
    /// always present and need no registration step.
    pub open spec fn spec_is_hardware(&self) -> bool {
        self is Hardware
    }

    /// Executable test for the hardware kind.
    pub fn is_hardware(&self) -> (r: bool)
        ensures
            r == self.spec_is_hardware(),
    {
        match self {
            SignerKind::Hardware { .. } => true,
            _ => false,
        }
    }
}

/// Why a signer is unusable for this wallet until conditions change.
#[derive(Clone, Copy, PartialEq, Eq, Structural, Debug)]
pub enum ErrorKind {
    /// The device is configured for a different bitcoin network.
    WrongNetwork,
    /// The reported firmware version is below the required minimum.
    UnsupportedVersion,
    /// The device or service could not be talked to in a supported way.
    Unsupported,
    /// Registering the wallet descriptor on the device failed.
    RegistrationFailed,
}

/// Connection/trust state of one signer, as tracked by the registry.
pub enum SignerState {
    /// A previously known hardware device that is no longer present.
    Disconnected,
    /// Present but locked; may display a pairing code to confirm.
    Locked { pairing_code: Option<String> },
    /// Present, unlocked, gates passed; wallet registration still pending.
    Ready,
    /// Fully paired: present and the wallet descriptor is registered.
    Registered,
    /// Registered and selected by the user for the next signing request.
    Selected,
    /// A signing request has been dispatched and awaits the participant.
    Signing,
    /// The participant returned a partial signature for the current session.
    Signed,
    /// Unusable until re-probed fresh; see [`ErrorKind`].
    Error { kind: ErrorKind },
    /// The probed device's fingerprint is not part of this wallet.
    Unrelated,
}

impl SignerState {
    /// States in which a participant may be handed a signing request.
    pub open spec fn spec_is_sign_ready(&self) -> bool {
        self is Registered || self is Selected
    }

    /// Executable test for readiness to sign.
    pub fn is_sign_ready(&self) -> (r: bool)
        ensures
            r == self.spec_is_sign_ready(),
    {
        match self {
            SignerState::Registered => true,
            SignerState::Selected => true,
            _ => false,
        }
    }
}

impl Clone for SignerKind {
    /// A clone of a kind equals the original.
    fn clone(&self) -> (res: Self)
        ensures
            res == *self,
    {
        match self {
            SignerKind::Hardware { vendor, model } => SignerKind::Hardware {
                vendor: vendor.clone(),
                model: model.clone(),
            },
            SignerKind::Hot { mnemonic_ref } => SignerKind::Hot { mnemonic_ref: *mnemonic_ref },
            SignerKind::ProviderKey { service, token } => SignerKind::ProviderKey {
                service: service.clone(),
                token: token.clone(),
            },
        }
    }
}

impl Clone for SignerState {
    /// A clone of a state equals the original.
    fn clone(&self) -> (res: Self)
        ensures
            res == *self,
    {
        match self {
            SignerState::Disconnected => SignerState::Disconnected,
            SignerState::Locked { pairing_code } => SignerState::Locked {
                pairing_code: match pairing_code {
                    Some(c) => Some(c.clone()),
                    None => None,
                },
            },
            SignerState::Ready => SignerState::Ready,
            SignerState::Registered => SignerState::Registered,
            SignerState::Selected => SignerState::Selected,
            SignerState::Signing => SignerState::Signing,
            SignerState::Signed => SignerState::Signed,
            SignerState::Error { kind } => SignerState::Error { kind: *kind },
            SignerState::Unrelated => SignerState::Unrelated,
        }
    }
}

/// One configured or discovered signing participant.
pub struct SignerRecord {
    /// Identity; immutable and unique within a registry.
    pub fingerprint: Fingerprint,
    /// User label; mutable, no uniqueness constraint.
    pub alias: Option<String>,
    /// Kind; immutable.
    pub kind: SignerKind,
    /// Current connection/trust state.
    pub state: SignerState,
    /// Advanced on every successful contact with the participant.
    pub last_seen: u64,
}

impl Clone for SignerRecord {
    /// A clone of a record equals the original, so a snapshot handed to a
    /// consumer shows exactly what the registry holds.
    fn clone(&self) -> (res: Self)
        ensures
            res == *self,
    {
        SignerRecord {
            fingerprint: self.fingerprint,
            alias: match &self.alias {
                Some(a) => Some(a.clone()),
                None => None,
            },
            kind: self.kind.clone(),
            state: self.state.clone(),
            last_seen: self.last_seen,
        }
    }
}

} // verus!
