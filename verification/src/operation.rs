//! The operations an operator can request, and the user-facing results they
//! produce. A result is structured (action, profile, failure kind); the
//! display text is rendered from it by [`OperationResult::message`].

use vstd::prelude::*;
use crate::catalog::AlgorithmFamily;
use crate::catalog::AlgorithmProfile;
use crate::catalog::ecc_profile;
use crate::catalog::rsa_profile;

verus! {

/// One of the operations reachable from the interface.
#[derive(Clone, Copy, PartialEq, Eq, Structural, Debug)]
pub enum Action {
    GenerateKey,
    Sign,
    Verify,
    Encrypt,
    Decrypt,
}

/// Why an operation failed. Provider-reported failures are collapsed per
/// lifecycle step; the last two arise locally, before any provider call.
#[derive(Clone, Copy, PartialEq, Eq, Structural, Debug)]
pub enum FailureKind {
    /// The provider module could not be initialized.
    Init,
    /// The provider rejected creating or loading the key.
    Key,
    /// The provider reported a signing failure.
    Sign,
    /// The provider did not accept the signature (all verification failures
    /// are collapsed into this one kind).
    Verify,
    /// No signature is held from a prior successful sign; detected locally.
    NoSignatureAvailable,
    /// The operation is reachable from the interface but not implemented.
    NotImplemented,
}

/// The outcome of one dispatched operation, consumed by the display layer.
#[derive(Clone, Copy, PartialEq, Eq, Structural, Debug)]
pub enum OperationResult {
    Success { action: Action, profile: AlgorithmProfile },
    Failure { action: Action, profile: AlgorithmProfile, kind: FailureKind },
}

/// The display name of an action.
pub open spec fn spec_action_name(a: Action) -> Seq<char> {
    match a {
        Action::GenerateKey => "key generation"@,
        Action::Sign => "signing"@,
        Action::Verify => "verification"@,
        Action::Encrypt => "encryption"@,
        Action::Decrypt => "decryption"@,
    }
}

/// The display label of a profile; the four resolvable profiles carry their
/// catalog labels.
pub open spec fn spec_profile_label(p: AlgorithmProfile) -> Seq<char> {
    if p == rsa_profile(1024) {
        "RSA1024"@
    } else if p == rsa_profile(2048) {
        "RSA2048"@
    } else if p == ecc_profile(256) {
        "ECC256"@
    } else if p == ecc_profile(384) {
        "ECC384"@
    } else {
        "unrecognized algorithm"@
    }
}

/// The display text of a failure kind.
pub open spec fn spec_failure_text(k: FailureKind) -> Seq<char> {
    match k {
        FailureKind::Init => "the provider module could not be initialized"@,
        FailureKind::Key => "the key could not be created or loaded"@,
        FailureKind::Sign => "no signature could be created"@,
        FailureKind::Verify => "the signature could not be verified"@,
        FailureKind::NoSignatureAvailable => "no signature to verify"@,
        FailureKind::NotImplemented => "not implemented"@,
    }
}

/// The display text of a result: it always names the action and the
/// algorithm, and for a failure also its kind.
pub open spec fn spec_message(r: OperationResult) -> Seq<char> {
    match r {
        OperationResult::Success { action, profile } => spec_action_name(action)
            + " succeeded using "@ + spec_profile_label(profile),
        OperationResult::Failure { action, profile, kind } => spec_action_name(action)
            + " failed using "@ + spec_profile_label(profile) + ": "@ + spec_failure_text(kind),
    }
}

/// The display name of an action.
pub fn action_name(a: Action) -> (r: &'static str)
    ensures
        r@ == spec_action_name(a),
{
    match a {
        Action::GenerateKey => "key generation",
        Action::Sign => "signing",
        Action::Verify => "verification",
        Action::Encrypt => "encryption",
        Action::Decrypt => "decryption",
    }
}

/// The display label of a profile.
pub fn profile_label(p: &AlgorithmProfile) -> (r: &'static str)
    ensures
        r@ == spec_profile_label(*p),
{
    match p.family {
        AlgorithmFamily::Rsa => {
            if p.strength == 1024 {
                "RSA1024"
            } else if p.strength == 2048 {
                "RSA2048"
            } else {
                "unrecognized algorithm"
            }
        },
        AlgorithmFamily::Ecc => {
            if p.strength == 256 {
                "ECC256"
            } else if p.strength == 384 {
                "ECC384"
            } else {
                "unrecognized algorithm"
            }
        },
    }
}

/// The display text of a failure kind.
pub fn failure_text(k: FailureKind) -> (r: &'static str)
    ensures
        r@ == spec_failure_text(k),
{
    match k {
        FailureKind::Init => "the provider module could not be initialized",
        FailureKind::Key => "the key could not be created or loaded",
        FailureKind::Sign => "no signature could be created",
        FailureKind::Verify => "the signature could not be verified",
        FailureKind::NoSignatureAvailable => "no signature to verify",
        FailureKind::NotImplemented => "not implemented",
    }
}

impl OperationResult {
    /// Renders the human-readable display text of this result.
    pub fn message(&self) -> (r: String)
        ensures
            r@ == spec_message(*self),
    {
        match *self {
            OperationResult::Success { action, profile } => {
                let m: String = action_name(action).to_owned();
                let m = m.concat(" succeeded using ");
                let m = m.concat(profile_label(&profile));
                m
            },
            OperationResult::Failure { action, profile, kind } => {
                let m: String = action_name(action).to_owned();
                let m = m.concat(" failed using ");
                let m = m.concat(profile_label(&profile));
                let m = m.concat(": ");
                let m = m.concat(failure_text(kind));
                m
            },
        }
    }
}

} // verus!
