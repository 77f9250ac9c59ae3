//! Results reported by vendor/service adapters at the device boundary.
//!
//! The host embedding this crate performs the actual probe, registration and
//! signing calls (USB/HID, local key derivation, remote API) and reports each
//! result here as a plain value; this crate turns those facts into state
//! transitions and never touches the transport itself.

use vstd::prelude::*;
use crate::signer::{Fingerprint, Network, Version};

verus! {

/// Why an adapter call failed; recovered locally by re-probing, never fatal.
pub enum AdapterError {
    /// The device did not answer within the probe's bounded timeout.
    Timeout,
    /// The transport dropped mid-call.
    Disconnected,
    /// The device answered in an unexpected or unsupported way.
    ProtocolError,
}

/// What a bounded, non-blocking probe of one participant reported.
pub enum SignerPresence {
    /// No device answered.
    Absent,
    /// A device answered but is locked; it may display a pairing code the
    /// user must confirm.
    Locked { pairing_code: Option<String> },
    /// A device answered and is operational.
    Ready {
        fingerprint: Fingerprint,
        firmware_version: Option<Version>,
        network: Option<Network>,
    },
    /// The probe itself failed.
    Error { error: AdapterError },
}

/// Why registering the wallet descriptor on a device failed.
pub enum RegistrationError {
    /// The device refused the descriptor.
    Rejected,
    /// The device does not support descriptor registration.
    Unsupported,
}

/// Why a signing request did not produce a partial signature.
pub enum SignError {
    /// The operator declined on the device.
    Declined { reason: String },
    /// The device reported a failure while signing.
    DeviceError { reason: String },
    /// The participant did not answer before the caller's deadline.
    Timeout,
}

} // verus!
