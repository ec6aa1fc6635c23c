//! The operation dispatcher: the single entry point that receives the four
//! operator inputs (action, data, key id, algorithm label), resolves the
//! profile, and drives one provider session through its lifecycle. Because
//! the provider calls are performed outside this library, an operation runs
//! as an explicit state machine: [`OperationDispatcher::begin`] yields the
//! first step, and the driver performs each requested call and hands its
//! outcome to [`OperationDispatcher::advance`] until a step reports the
//! result. The transition functions `start_task`, `start_step`, `next_task`
//! and `next_step` state the machine exactly; the executable methods are
//! proved to follow them.

use vstd::prelude::*;
use crate::catalog::AlgorithmProfile;
use crate::catalog::resolve;
use crate::catalog::spec_resolve;
use crate::operation::Action;
use crate::operation::FailureKind;
use crate::operation::OperationResult;
use crate::session::OutcomeModel;
use crate::session::ProviderOutcome;
use crate::session::ProviderRequest;
use crate::session::RequestModel;
use crate::session::Step;
use crate::session::StepModel;
use crate::store::ArtifactModel;
use crate::store::SignatureArtifact;
use crate::store::SignatureStore;

verus! {

/// The bytes an operation hands to the provider for a given data input:
/// the UTF-8 bytes of the input with leading and trailing whitespace
/// removed.
pub uninterp spec fn trimmed_bytes_of(s: Seq<char>) -> Seq<u8>;

/// Relies on str::trim (leading and trailing whitespace removed, as the
/// standard library documents it) and str::as_bytes (the UTF-8 bytes of the
/// trimmed text); the result depends on the characters alone.
#[verifier::external_body]
fn trimmed_bytes(s: &str) -> (r: Vec<u8>)
    ensures
        r@ == trimmed_bytes_of(s@),
{
    s.trim().as_bytes().to_vec()
}

/// Copies a byte vector element by element.
fn copy_bytes(v: &Vec<u8>) -> (r: Vec<u8>)
    ensures
        r@ == v@,
{
    let mut r: Vec<u8> = Vec::new();
    let mut i: usize = 0;
    while i < v.len()
        invariant
            i <= v@.len(),
            r@ == v@.subrange(0, i as int),
        decreases v@.len() - i,
    {
        r.push(v[i]);
        proof {
            assert(v@.subrange(0, i as int).push(v@[i as int]) =~= v@.subrange(0, i + 1 as int));
        }
        i = i + 1;
    }
    proof {
        assert(r@ =~= v@);
    }
    r
}

/// Where an operation stands. Each phase names the session state it reflects:
/// the session is unopened while initialization is awaited, opened while the
/// key step is awaited, key-bound while the operation is awaited, ended
/// (normally or in error) while the release is awaited, and closed once the
/// task is finished. Terminal results are only reported from `Finished`,
/// which is reached through the release step alone.
#[derive(Clone, Copy, PartialEq, Eq, Structural, Debug)]
pub enum Phase {
    /// Waiting for the provider module to initialize; the session is unopened.
    AwaitingInit,
    /// Waiting for the key to be created or loaded; the session is open.
    AwaitingKey,
    /// Waiting for the sign or verify call; the key is bound.
    AwaitingOperation,
    /// The operation ended with this result; waiting for the release.
    AwaitingClose { result: OperationResult },
    /// The session is closed (or was never needed) and the result stands.
    Finished { result: OperationResult },
}

/// Mathematical model of an operation task.
pub struct TaskModel {
    pub action: Action,
    pub profile: AlgorithmProfile,
    pub key_id: Seq<char>,
    pub data: Seq<u8>,
    pub signature: Option<Seq<u8>>,
    pub phase: Phase,
}

/// The success result of a task.
pub open spec fn success_result(t: TaskModel) -> OperationResult {
    OperationResult::Success { action: t.action, profile: t.profile }
}

/// The failure result of a task, for the given kind.
pub open spec fn failure_result(t: TaskModel, kind: FailureKind) -> OperationResult {
    OperationResult::Failure { action: t.action, profile: t.profile, kind }
}

/// The task an operation starts as: profile resolved from the label, data
/// trimmed to provider bytes, and the stored signature read for a
/// verification. Encryption and decryption start finished as not
/// implemented; a verification with nothing stored starts finished as
/// `NoSignatureAvailable`, before any provider call.
pub open spec fn start_task(
    action: Action,
    data: Seq<char>,
    key_id: Seq<char>,
    label: Seq<char>,
    held: Option<ArtifactModel>,
) -> TaskModel {
    let base = TaskModel {
        action,
        profile: spec_resolve(label),
        key_id,
        data: trimmed_bytes_of(data),
        signature: None,
        phase: Phase::AwaitingInit,
    };
    match action {
        Action::Encrypt | Action::Decrypt => TaskModel {
            phase: Phase::Finished { result: failure_result(base, FailureKind::NotImplemented) },
            ..base
        },
        Action::Verify => match held {
            None => TaskModel {
                phase: Phase::Finished {
                    result: failure_result(base, FailureKind::NoSignatureAvailable),
                },
                ..base
            },
            Some(a) => TaskModel { signature: Some(a.signature), ..base },
        },
        Action::GenerateKey | Action::Sign => base,
    }
}

/// The first step of an operation: a task that starts finished reports its
/// result at once and no provider request is ever issued for it; any other
/// task asks for the module to be initialized.
pub open spec fn start_step(
    action: Action,
    data: Seq<char>,
    key_id: Seq<char>,
    label: Seq<char>,
    held: Option<ArtifactModel>,
) -> StepModel {
    match start_task(action, data, key_id, label, held).phase {
        Phase::Finished { result } => StepModel::Done(result),
        _ => StepModel::Request(RequestModel::Initialize),
    }
}

/// The phase a task moves to on a provider outcome. Every error leads to the
/// release step, and only the release step leads to `Finished`.
pub open spec fn next_phase(t: TaskModel, o: OutcomeModel) -> Phase {
    match t.phase {
        Phase::AwaitingInit => if o is Accepted {
            Phase::AwaitingKey
        } else {
            Phase::AwaitingClose { result: failure_result(t, FailureKind::Init) }
        },
        Phase::AwaitingKey => if o is Accepted {
            match t.action {
                Action::GenerateKey => Phase::AwaitingClose { result: success_result(t) },
                Action::Verify => match t.signature {
                    Some(_) => Phase::AwaitingOperation,
                    None => Phase::AwaitingClose {
                        result: failure_result(t, FailureKind::NoSignatureAvailable),
                    },
                },
                _ => Phase::AwaitingOperation,
            }
        } else {
            Phase::AwaitingClose { result: failure_result(t, FailureKind::Key) }
        },
        Phase::AwaitingOperation => match t.action {
            Action::Sign => if o is Signature {
                Phase::AwaitingClose { result: success_result(t) }
            } else {
                Phase::AwaitingClose { result: failure_result(t, FailureKind::Sign) }
            },
            _ => if o is Accepted {
                Phase::AwaitingClose { result: success_result(t) }
            } else {
                Phase::AwaitingClose { result: failure_result(t, FailureKind::Verify) }
            },
        },
        Phase::AwaitingClose { result } => Phase::Finished { result },
        Phase::Finished { result } => Phase::Finished { result },
    }
}

/// The task after a provider outcome: only the phase moves; the inputs, the
/// resolved profile and the signature carried for verification stay as they
/// were read at the start.
pub open spec fn next_task(t: TaskModel, o: OutcomeModel) -> TaskModel {
    TaskModel { phase: next_phase(t, o), ..t }
}

/// The step handed to the driver on a provider outcome: the next request of
/// the session's lifecycle, the release request after an operation or an
/// error, or the result once the release is acknowledged.
pub open spec fn next_step(t: TaskModel, o: OutcomeModel) -> StepModel {
    match t.phase {
        Phase::AwaitingInit => if o is Accepted {
            match t.action {
                Action::Verify => StepModel::Request(
                    RequestModel::LoadKey { key_id: t.key_id, profile: t.profile },
                ),
                _ => StepModel::Request(
                    RequestModel::CreateKey { key_id: t.key_id, profile: t.profile },
                ),
            }
        } else {
            StepModel::Request(RequestModel::Close)
        },
        Phase::AwaitingKey => if o is Accepted {
            match t.action {
                Action::GenerateKey => StepModel::Request(RequestModel::Close),
                Action::Verify => match t.signature {
                    Some(s) => StepModel::Request(
                        RequestModel::Verify { data: t.data, signature: s },
                    ),
                    None => StepModel::Request(RequestModel::Close),
                },
                _ => StepModel::Request(RequestModel::Sign { data: t.data }),
            }
        } else {
            StepModel::Request(RequestModel::Close)
        },
        Phase::AwaitingOperation => StepModel::Request(RequestModel::Close),
        Phase::AwaitingClose { result } => StepModel::Done(result),
        Phase::Finished { result } => StepModel::Done(result),
    }
}

/// Whether this exchange is the one that stores a new artifact: exactly a
/// sign operation's own provider call coming back with signature bytes.
pub open spec fn stores_artifact(t: TaskModel, o: OutcomeModel) -> bool {
    t.phase is AwaitingOperation && t.action is Sign && o is Signature
}

/// The artifact such an exchange stores: the produced bytes under the task's
/// key identifier and profile.
pub open spec fn new_artifact(t: TaskModel, o: OutcomeModel) -> ArtifactModel {
    ArtifactModel {
        signature: match o {
            OutcomeModel::Signature(s) => s,
            _ => Seq::empty(),
        },
        key_id: t.key_id,
        profile: t.profile,
    }
}

/// One operation in flight: the inputs as read at the start, and the phase
/// the session is in.
pub struct OperationTask {
    action: Action,
    profile: AlgorithmProfile,
    key_id: String,
    data: Vec<u8>,
    signature: Option<Vec<u8>>,
    phase: Phase,
}

impl View for OperationTask {
    type V = TaskModel;

    closed spec fn view(&self) -> TaskModel {
        TaskModel {
            action: self.action,
            profile: self.profile,
            key_id: self.key_id@,
            data: self.data@,
            signature: match self.signature {
                Some(s) => Some(s@),
                None => None,
            },
            phase: self.phase,
        }
    }
}

impl OperationTask {
    /// The result of this operation, once it is finished.
    pub fn result(&self) -> (r: Option<OperationResult>)
        ensures
            (match self@.phase {
                Phase::Finished { result } => r == Some(result),
                _ => r is None,
            }),
    {
        match self.phase {
            Phase::Finished { result } => Some(result),
            _ => None,
        }
    }
}

/// The dispatcher: owns the signature store across operations and runs one
/// operation at a time against it. Its view is the store's contents.
pub struct OperationDispatcher {
    store: SignatureStore,
}

impl View for OperationDispatcher {
    type V = Option<ArtifactModel>;

    closed spec fn view(&self) -> Option<ArtifactModel> {
        self.store@
    }
}

impl OperationDispatcher {
    /// A dispatcher over an empty store: no sign has succeeded yet.
    pub fn new() -> (d: Self)
        ensures
            d@ is None,
    {
        OperationDispatcher { store: SignatureStore::new() }
    }

    /// A dispatcher over an injected store.
    pub fn with_store(store: SignatureStore) -> (d: Self)
        ensures
            d@ == store@,
    {
        OperationDispatcher { store }
    }

    /// Starts one operation from the four operator inputs and returns the
    /// task and its first step. The store is only read here (for a
    /// verification); nothing is written before a sign succeeds.
    pub fn begin(&self, action: Action, data: &str, key_id: &str, algorithm_label: &str) -> (r: (
        OperationTask,
        Step,
    ))
        ensures
            r.0@ == start_task(action, data@, key_id@, algorithm_label@, self@),
            r.1@ == start_step(action, data@, key_id@, algorithm_label@, self@),
    {
        let profile = resolve(algorithm_label);
        let data_bytes = trimmed_bytes(data);
        let key_id_own: String = key_id.to_owned();
        match action {
            Action::Encrypt | Action::Decrypt => {
                let result = OperationResult::Failure {
                    action,
                    profile,
                    kind: FailureKind::NotImplemented,
                };
                let task = OperationTask {
                    action,
                    profile,
                    key_id: key_id_own,
                    data: data_bytes,
                    signature: None,
                    phase: Phase::Finished { result },
                };
                (task, Step::Done(result))
            },
            Action::Verify => match self.store.get() {
                None => {
                    let result = OperationResult::Failure {
                        action,
                        profile,
                        kind: FailureKind::NoSignatureAvailable,
                    };
                    let task = OperationTask {
                        action,
                        profile,
                        key_id: key_id_own,
                        data: data_bytes,
                        signature: None,
                        phase: Phase::Finished { result },
                    };
                    (task, Step::Done(result))
                },
                Some(artifact) => {
                    let held = copy_bytes(&artifact.signature);
                    let task = OperationTask {
                        action,
                        profile,
                        key_id: key_id_own,
                        data: data_bytes,
                        signature: Some(held),
                        phase: Phase::AwaitingInit,
                    };
                    (task, Step::Request(ProviderRequest::Initialize))
                },
            },
            _ => {
                let task = OperationTask {
                    action,
                    profile,
                    key_id: key_id_own,
                    data: data_bytes,
                    signature: None,
                    phase: Phase::AwaitingInit,
                };
                (task, Step::Request(ProviderRequest::Initialize))
            },
        }
    }

    /// Feeds one provider outcome into a task and returns the next step.
    /// The store changes exactly when a sign operation's provider call comes
    /// back with signature bytes: the produced artifact then replaces
    /// whatever was held. A finished task keeps reporting its result.
    pub fn advance(&mut self, task: &mut OperationTask, outcome: ProviderOutcome) -> (r: Step)
        ensures
            final(task)@ == next_task(old(task)@, outcome@),
            r@ == next_step(old(task)@, outcome@),
            final(self)@ == (if stores_artifact(old(task)@, outcome@) {
                Some(new_artifact(old(task)@, outcome@))
            } else {
                old(self)@
            }),
    {
        match task.phase {
            Phase::AwaitingInit => match outcome {
                ProviderOutcome::Accepted => {
                    task.phase = Phase::AwaitingKey;
                    let key_id = task.key_id.clone();
                    match task.action {
                        Action::Verify => Step::Request(
                            ProviderRequest::LoadKey { key_id, profile: task.profile },
                        ),
                        _ => Step::Request(
                            ProviderRequest::CreateKey { key_id, profile: task.profile },
                        ),
                    }
                },
                _ => {
                    task.phase = Phase::AwaitingClose {
                        result: OperationResult::Failure {
                            action: task.action,
                            profile: task.profile,
                            kind: FailureKind::Init,
                        },
                    };
                    Step::Request(ProviderRequest::Close)
                },
            },
            Phase::AwaitingKey => match outcome {
                ProviderOutcome::Accepted => match task.action {
                    Action::GenerateKey => {
                        task.phase = Phase::AwaitingClose {
                            result: OperationResult::Success {
                                action: task.action,
                                profile: task.profile,
                            },
                        };
                        Step::Request(ProviderRequest::Close)
                    },
                    Action::Verify => {
                        let held = match &task.signature {
                            Some(s) => Some(copy_bytes(s)),
                            None => None,
                        };
                        match held {
                            Some(signature) => {
                                task.phase = Phase::AwaitingOperation;
                                Step::Request(
                                    ProviderRequest::Verify {
                                        data: copy_bytes(&task.data),
                                        signature,
                                    },
                                )
                            },
                            None => {
                                task.phase = Phase::AwaitingClose {
                                    result: OperationResult::Failure {
                                        action: task.action,
                                        profile: task.profile,
                                        kind: FailureKind::NoSignatureAvailable,
                                    },
                                };
                                Step::Request(ProviderRequest::Close)
                            },
                        }
                    },
                    _ => {
                        task.phase = Phase::AwaitingOperation;
                        Step::Request(ProviderRequest::Sign { data: copy_bytes(&task.data) })
                    },
                },
                _ => {
                    task.phase = Phase::AwaitingClose {
                        result: OperationResult::Failure {
                            action: task.action,
                            profile: task.profile,
                            kind: FailureKind::Key,
                        },
                    };
                    Step::Request(ProviderRequest::Close)
                },
            },
            Phase::AwaitingOperation => match task.action {
                Action::Sign => match outcome {
                    ProviderOutcome::Signature(bytes) => {
                        let artifact = SignatureArtifact {
                            signature: bytes,
                            key_id: task.key_id.clone(),
                            profile: task.profile,
                        };
                        self.store.put(artifact);
                        task.phase = Phase::AwaitingClose {
                            result: OperationResult::Success {
                                action: task.action,
                                profile: task.profile,
                            },
                        };
                        Step::Request(ProviderRequest::Close)
                    },
                    _ => {
                        task.phase = Phase::AwaitingClose {
                            result: OperationResult::Failure {
                                action: task.action,
                                profile: task.profile,
                                kind: FailureKind::Sign,
                            },
                        };
                        Step::Request(ProviderRequest::Close)
                    },
                },
                _ => match outcome {
                    ProviderOutcome::Accepted => {
                        task.phase = Phase::AwaitingClose {
                            result: OperationResult::Success {
                                action: task.action,
                                profile: task.profile,
                            },
                        };
                        Step::Request(ProviderRequest::Close)
                    },
                    _ => {
                        task.phase = Phase::AwaitingClose {
                            result: OperationResult::Failure {
                                action: task.action,
                                profile: task.profile,
                                kind: FailureKind::Verify,
                            },
                        };
                        Step::Request(ProviderRequest::Close)
                    },
                },
            },
            Phase::AwaitingClose { result } => {
                task.phase = Phase::Finished { result };
                Step::Done(result)
            },
            Phase::Finished { result } => Step::Done(result),
        }
    }

    /// Borrows the store, for reading what a later verification would use.
    pub fn store(&self) -> (r: &SignatureStore)
        ensures
            r@ == self@,
    {
        &self.store
    }
}

} // verus!
