//! Signer coordination for a multisig wallet front-end.
//!
//! The crate tracks the signing participants of a wallet (hardware security
//! devices, locally derived hot keys, and remote cosigning-service keys),
//! drives each one from discovery through pairing and registration to
//! readiness, dispatches signing requests, collects partial-signature
//! outcomes, and decides when a transaction has met its signature threshold.
//!
//! Device and service I/O is not performed here: a host embedding this crate
//! probes devices and requests signatures, then feeds the plain results
//! (`SignerPresence`, registration results, signing results) into the
//! functions of this crate, which perform every state decision.

pub mod adapter;
pub mod card;
pub mod coordinator;
pub mod evaluator;
pub mod pairing;
pub mod registry;
pub mod session;
pub mod signer;
