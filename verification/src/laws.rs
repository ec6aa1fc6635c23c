//! Properties of the orchestrator, stated and proved over the transition
//! functions that `begin` and `advance` are specified by. Each law speaks of
//! every input of its shape, not of chosen values.

use vstd::prelude::*;
use crate::catalog::default_profile;
use crate::catalog::ecc_profile;
use crate::catalog::rsa_profile;
use crate::catalog::spec_resolve;
use crate::dispatch::Phase;
use crate::dispatch::TaskModel;
use crate::dispatch::failure_result;
use crate::dispatch::new_artifact;
use crate::dispatch::next_step;
use crate::dispatch::next_task;
use crate::dispatch::start_step;
use crate::dispatch::start_task;
use crate::dispatch::stores_artifact;
use crate::dispatch::trimmed_bytes_of;
use crate::operation::Action;
use crate::operation::FailureKind;
use crate::operation::OperationResult;
use crate::operation::spec_action_name;
use crate::operation::spec_failure_text;
use crate::operation::spec_message;
use crate::operation::spec_profile_label;
use crate::session::OutcomeModel;
use crate::session::RequestModel;
use crate::session::StepModel;
use crate::store::ArtifactModel;

verus! {

/// Each defined label resolves to the profile whose key size or curve
/// matches it exactly.
pub proof fn lemma_resolve_defined_labels()
    ensures
        spec_resolve("RSA1024"@) == rsa_profile(1024),
        spec_resolve("RSA2048"@) == rsa_profile(2048),
        spec_resolve("ECC256"@) == ecc_profile(256),
        spec_resolve("ECC384"@) == ecc_profile(384),
{
    reveal_strlit("RSA1024");
    reveal_strlit("RSA2048");
    reveal_strlit("ECC256");
    reveal_strlit("ECC384");
    assert("RSA1024"@.len() == 7);
    assert("RSA2048"@.len() == 7);
    assert("ECC256"@.len() == 6);
    assert("ECC384"@.len() == 6);
    assert("RSA1024"@[3] == '1' && "RSA2048"@[3] == '2');
    assert("ECC256"@[3] == '2' && "ECC384"@[3] == '3');
}

/// Any label outside the defined set resolves to the RSA-1024 default;
/// resolution never fails.
pub proof fn lemma_resolve_unknown_label(label: Seq<char>)
    requires
        label != "RSA1024"@,
        label != "RSA2048"@,
        label != "ECC256"@,
        label != "ECC384"@,
    ensures
        spec_resolve(label) == default_profile(),
{
}

/// A verification requested while no signature is stored fails at once with
/// `NoSignatureAvailable`: the task starts finished, so no provider request
/// is ever issued for it.
pub proof fn lemma_verify_without_signature(data: Seq<char>, key_id: Seq<char>, label: Seq<char>)
    ensures
        start_step(Action::Verify, data, key_id, label, None) == StepModel::Done(
            OperationResult::Failure {
                action: Action::Verify,
                profile: spec_resolve(label),
                kind: FailureKind::NoSignatureAvailable,
            },
        ),
        start_task(Action::Verify, data, key_id, label, None).phase is Finished,
{
}

/// A finished task never asks for another provider call: every further
/// outcome leaves it unchanged, reports the same result, and stores nothing.
pub proof fn lemma_finished_task_is_silent(t: TaskModel, o: OutcomeModel)
    requires
        t.phase is Finished,
    ensures
        next_step(t, o) is Done,
        next_task(t, o) == t,
        !stores_artifact(t, o),
{
}

/// Only the provider call of a sign operation itself, coming back with
/// signature bytes, ever changes the store.
pub proof fn lemma_only_sign_stores(t: TaskModel, o: OutcomeModel)
    ensures
        stores_artifact(t, o) ==> t.action is Sign && t.phase is AwaitingOperation
            && o is Signature,
{
}

/// A sign operation the provider completes: the session runs initialize,
/// create key, sign, release; the sign call carries the trimmed input bytes;
/// the produced artifact is stored under the task's key identifier and
/// resolved profile, whatever the store held before; and the reported result
/// is success. No other exchange of the run touches the store.
pub proof fn lemma_successful_sign_stores_artifact(
    data: Seq<char>,
    key_id: Seq<char>,
    label: Seq<char>,
    produced: Seq<u8>,
    held_before: Option<ArtifactModel>,
    close_reply: OutcomeModel,
)
    ensures
        ({
            let t0 = start_task(Action::Sign, data, key_id, label, held_before);
            let t1 = next_task(t0, OutcomeModel::Accepted);
            let t2 = next_task(t1, OutcomeModel::Accepted);
            let t3 = next_task(t2, OutcomeModel::Signature(produced));
            &&& start_step(Action::Sign, data, key_id, label, held_before) == StepModel::Request(
                RequestModel::Initialize,
            )
            &&& next_step(t0, OutcomeModel::Accepted) == StepModel::Request(
                RequestModel::CreateKey { key_id, profile: spec_resolve(label) },
            )
            &&& next_step(t1, OutcomeModel::Accepted) == StepModel::Request(
                RequestModel::Sign { data: trimmed_bytes_of(data) },
            )
            &&& stores_artifact(t2, OutcomeModel::Signature(produced))
            &&& new_artifact(t2, OutcomeModel::Signature(produced)) == (ArtifactModel {
                signature: produced,
                key_id,
                profile: spec_resolve(label),
            })
            &&& next_step(t2, OutcomeModel::Signature(produced)) == StepModel::Request(
                RequestModel::Close,
            )
            &&& next_step(t3, close_reply) == StepModel::Done(
                OperationResult::Success { action: Action::Sign, profile: spec_resolve(label) },
            )
            &&& !stores_artifact(t0, OutcomeModel::Accepted)
            &&& !stores_artifact(t1, OutcomeModel::Accepted)
            &&& !stores_artifact(t3, close_reply)
        }),
{
}

/// A verification begun while an artifact is held: the session runs
/// initialize, load key, verify, release; the verify call carries the
/// trimmed input bytes and exactly the held artifact's signature — the
/// newest one, since a sign replaces the whole slot; the result is success
/// exactly when the provider accepts, and the collapsed verification
/// failure otherwise. No exchange of the run touches the store.
pub proof fn lemma_verify_uses_stored_artifact(
    data: Seq<char>,
    key_id: Seq<char>,
    label: Seq<char>,
    held: ArtifactModel,
    verdict: OutcomeModel,
    close_reply: OutcomeModel,
)
    ensures
        ({
            let t0 = start_task(Action::Verify, data, key_id, label, Some(held));
            let t1 = next_task(t0, OutcomeModel::Accepted);
            let t2 = next_task(t1, OutcomeModel::Accepted);
            let t3 = next_task(t2, verdict);
            &&& start_step(Action::Verify, data, key_id, label, Some(held)) == StepModel::Request(
                RequestModel::Initialize,
            )
            &&& next_step(t0, OutcomeModel::Accepted) == StepModel::Request(
                RequestModel::LoadKey { key_id, profile: spec_resolve(label) },
            )
            &&& next_step(t1, OutcomeModel::Accepted) == StepModel::Request(
                RequestModel::Verify {
                    data: trimmed_bytes_of(data),
                    signature: held.signature,
                },
            )
            &&& next_step(t2, verdict) == StepModel::Request(RequestModel::Close)
            &&& next_step(t3, close_reply) == StepModel::Done(
                if verdict is Accepted {
                    OperationResult::Success {
                        action: Action::Verify,
                        profile: spec_resolve(label),
                    }
                } else {
                    OperationResult::Failure {
                        action: Action::Verify,
                        profile: spec_resolve(label),
                        kind: FailureKind::Verify,
                    }
                },
            )
            &&& !stores_artifact(t0, OutcomeModel::Accepted)
            &&& !stores_artifact(t1, OutcomeModel::Accepted)
            &&& !stores_artifact(t2, verdict)
            &&& !stores_artifact(t3, close_reply)
        }),
{
}

/// A later successful sign replaces whatever artifact an earlier one had
/// stored: the exchange that stores the later product does not depend on the
/// held artifact, and stores the later bytes under the later inputs.
pub proof fn lemma_second_sign_replaces(
    first: ArtifactModel,
    data: Seq<char>,
    key_id: Seq<char>,
    label: Seq<char>,
    produced: Seq<u8>,
)
    ensures
        ({
            let t2 = next_task(
                next_task(
                    start_task(Action::Sign, data, key_id, label, Some(first)),
                    OutcomeModel::Accepted,
                ),
                OutcomeModel::Accepted,
            );
            &&& stores_artifact(t2, OutcomeModel::Signature(produced))
            &&& new_artifact(t2, OutcomeModel::Signature(produced)) == (ArtifactModel {
                signature: produced,
                key_id,
                profile: spec_resolve(label),
            })
        }),
{
}

/// The failure kind a provider-reported rejection produces at each point of
/// the lifecycle.
pub open spec fn provider_failure_kind(t: TaskModel) -> FailureKind {
    match t.phase {
        Phase::AwaitingInit => FailureKind::Init,
        Phase::AwaitingKey => FailureKind::Key,
        Phase::AwaitingOperation => if t.action is Sign {
            FailureKind::Sign
        } else {
            FailureKind::Verify
        },
        _ => FailureKind::NotImplemented,
    }
}

/// A provider-reported failure at any point of an operation's lifecycle:
/// the store is not changed by that exchange nor by the release that
/// follows, the session is still released, and the reported result is a
/// failure that carries the task's own action and resolved profile — its
/// display text names both.
pub proof fn lemma_provider_failure_yields_failure(
    t: TaskModel,
    o: OutcomeModel,
    close_reply: OutcomeModel,
)
    requires
        t.phase is AwaitingInit || t.phase is AwaitingKey || t.phase is AwaitingOperation,
        o is Rejected,
    ensures
        !stores_artifact(t, o),
        !stores_artifact(next_task(t, o), close_reply),
        next_task(t, o).phase == (Phase::AwaitingClose {
            result: failure_result(t, provider_failure_kind(t)),
        }),
        next_step(t, o) == StepModel::Request(RequestModel::Close),
        next_step(next_task(t, o), close_reply) == StepModel::Done(
            failure_result(t, provider_failure_kind(t)),
        ),
        spec_message(failure_result(t, provider_failure_kind(t))) == spec_action_name(t.action)
            + " failed using "@ + spec_profile_label(t.profile) + ": "@
            + spec_failure_text(provider_failure_kind(t)),
{
}

/// A result is only reported after the release step: a step can only be
/// `Done` for a task that was awaiting its release acknowledgement or had
/// already finished, and acknowledging the release finishes the task.
pub proof fn lemma_release_before_done(t: TaskModel, o: OutcomeModel)
    ensures
        next_step(t, o) is Done ==> (t.phase is AwaitingClose || t.phase is Finished),
        t.phase is AwaitingClose ==> next_task(t, o).phase is Finished,
{
}

/// How far a phase still is from completion.
pub open spec fn phase_rank(p: Phase) -> nat {
    match p {
        Phase::AwaitingInit => 4,
        Phase::AwaitingKey => 3,
        Phase::AwaitingOperation => 2,
        Phase::AwaitingClose { .. } => 1,
        Phase::Finished { .. } => 0,
    }
}

/// Every provider outcome moves an unfinished operation strictly closer to
/// completion: each dispatched operation answers after a bounded number of
/// exchanges.
pub proof fn lemma_operation_terminates(t: TaskModel, o: OutcomeModel)
    requires
        !(t.phase is Finished),
    ensures
        phase_rank(next_task(t, o).phase) < phase_rank(t.phase),
{
}

} // verus!
