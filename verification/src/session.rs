//! The provider session protocol: the calls the orchestrator asks the
//! surrounding program to perform against the HSM provider, and the outcomes
//! it accepts back. The provider itself is an external collaborator; the
//! orchestrator only decides which call comes next, and the driver performs
//! it and feeds the outcome back in.

use vstd::prelude::*;
use crate::catalog::AlgorithmProfile;
use crate::operation::OperationResult;

verus! {

/// One provider call the orchestrator asks for. A session always runs
/// initialize, then one key step (create or load), then at most one
/// operation, and ends with a release, whatever happened before.
pub enum ProviderRequest {
    /// Initialize the provider module.
    Initialize,
    /// Materialize a new key under `key_id` with the given profile.
    CreateKey { key_id: String, profile: AlgorithmProfile },
    /// Bind to an existing key under `key_id` with the given profile.
    LoadKey { key_id: String, profile: AlgorithmProfile },
    /// Sign the given bytes under the bound key.
    Sign { data: Vec<u8> },
    /// Check the signature against the given bytes under the bound key.
    Verify { data: Vec<u8>, signature: Vec<u8> },
    /// Release the provider; the session is over after this.
    Close,
}

/// Mathematical model of a provider request.
pub enum RequestModel {
    Initialize,
    CreateKey { key_id: Seq<char>, profile: AlgorithmProfile },
    LoadKey { key_id: Seq<char>, profile: AlgorithmProfile },
    Sign { data: Seq<u8> },
    Verify { data: Seq<u8>, signature: Seq<u8> },
    Close,
}

impl View for ProviderRequest {
    type V = RequestModel;

    open spec fn view(&self) -> RequestModel {
        match *self {
            ProviderRequest::Initialize => RequestModel::Initialize,
            ProviderRequest::CreateKey { key_id, profile } => RequestModel::CreateKey {
                key_id: key_id@,
                profile,
            },
            ProviderRequest::LoadKey { key_id, profile } => RequestModel::LoadKey {
                key_id: key_id@,
                profile,
            },
            ProviderRequest::Sign { data } => RequestModel::Sign { data: data@ },
            ProviderRequest::Verify { data, signature } => RequestModel::Verify {
                data: data@,
                signature: signature@,
            },
            ProviderRequest::Close => RequestModel::Close,
        }
    }
}

/// What the driver reports back for one request. Verification failures,
/// rejected profiles, missing devices and every other provider-reported
/// error are collapsed into `Rejected`; nothing of it is retried.
pub enum ProviderOutcome {
    /// The call succeeded and returned no payload.
    Accepted,
    /// A sign call succeeded and produced these signature bytes.
    Signature(Vec<u8>),
    /// The provider reported a failure.
    Rejected,
}

/// Mathematical model of a provider outcome.
pub enum OutcomeModel {
    Accepted,
    Signature(Seq<u8>),
    Rejected,
}

impl View for ProviderOutcome {
    type V = OutcomeModel;

    open spec fn view(&self) -> OutcomeModel {
        match *self {
            ProviderOutcome::Accepted => OutcomeModel::Accepted,
            ProviderOutcome::Signature(bytes) => OutcomeModel::Signature(bytes@),
            ProviderOutcome::Rejected => OutcomeModel::Rejected,
        }
    }
}

/// What the orchestrator hands the driver after each exchange: either the
/// next provider call to perform, or the finished operation's result.
pub enum Step {
    Request(ProviderRequest),
    Done(OperationResult),
}

/// Mathematical model of a step.
pub enum StepModel {
    Request(RequestModel),
    Done(OperationResult),
}

impl View for Step {
    type V = StepModel;

    open spec fn view(&self) -> StepModel {
        match *self {
            Step::Request(req) => StepModel::Request(req@),
            Step::Done(result) => StepModel::Done(result),
        }
    }
}

} // verus!
