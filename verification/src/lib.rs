//! Orchestration of cryptographic operations against a hardware security
//! module (HSM): resolving algorithm labels into profiles, driving a provider
//! session through its lifecycle, carrying a produced signature forward into a
//! later verification, and mapping provider outcomes into user-facing results.
//!
//! The provider itself (key storage, signing math, device transport) is an
//! external collaborator: this library decides, the surrounding program
//! performs the provider calls and feeds their outcomes back in.

pub mod catalog;
pub mod dispatch;
pub mod laws;
pub mod operation;
pub mod session;
pub mod store;
