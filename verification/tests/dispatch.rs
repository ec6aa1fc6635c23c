use hsm_orchestrator::catalog::AlgorithmFamily;
use hsm_orchestrator::dispatch::OperationDispatcher;
use hsm_orchestrator::operation::Action;
use hsm_orchestrator::operation::FailureKind;
use hsm_orchestrator::operation::OperationResult;
use hsm_orchestrator::session::ProviderOutcome;
use hsm_orchestrator::session::ProviderRequest;
use hsm_orchestrator::session::Step;
use hsm_orchestrator::store::SignatureArtifact;
use hsm_orchestrator::store::SignatureStore;

/// An in-memory stand-in for the HSM provider: it counts every call, can be
/// told to fail a given call, "signs" by reversing the data bytes, and
/// accepts a verification exactly when the signature is the reversal of the
/// data.
#[derive(Default)]
struct FakeProvider {
    init_calls: usize,
    create_calls: usize,
    load_calls: usize,
    sign_calls: usize,
    verify_calls: usize,
    close_calls: usize,
    fail_init: bool,
    fail_key: bool,
    fail_sign: bool,
}

fn fake_signature(data: &[u8]) -> Vec<u8> {
    let mut sig = data.to_vec();
    sig.reverse();
    sig
}

impl FakeProvider {
    fn handle(&mut self, request: ProviderRequest) -> ProviderOutcome {
        match request {
            ProviderRequest::Initialize => {
                self.init_calls += 1;
                if self.fail_init {
                    ProviderOutcome::Rejected
                } else {
                    ProviderOutcome::Accepted
                }
            }
            ProviderRequest::CreateKey { .. } => {
                self.create_calls += 1;
                if self.fail_key {
                    ProviderOutcome::Rejected
                } else {
                    ProviderOutcome::Accepted
                }
            }
            ProviderRequest::LoadKey { .. } => {
                self.load_calls += 1;
                if self.fail_key {
                    ProviderOutcome::Rejected
                } else {
                    ProviderOutcome::Accepted
                }
            }
            ProviderRequest::Sign { data } => {
                self.sign_calls += 1;
                if self.fail_sign {
                    ProviderOutcome::Rejected
                } else {
                    ProviderOutcome::Signature(fake_signature(&data))
                }
            }
            ProviderRequest::Verify { data, signature } => {
                self.verify_calls += 1;
                if signature == fake_signature(&data) {
                    ProviderOutcome::Accepted
                } else {
                    ProviderOutcome::Rejected
                }
            }
            ProviderRequest::Close => {
                self.close_calls += 1;
                ProviderOutcome::Accepted
            }
        }
    }
}

fn run(
    dispatcher: &mut OperationDispatcher,
    provider: &mut FakeProvider,
    action: Action,
    data: &str,
    key_id: &str,
    label: &str,
) -> OperationResult {
    let (mut task, mut step) = dispatcher.begin(action, data, key_id, label);
    loop {
        match step {
            Step::Done(result) => return result,
            Step::Request(request) => {
                let outcome = provider.handle(request);
                step = dispatcher.advance(&mut task, outcome);
            }
        }
    }
}

#[test]
fn sign_then_verify_same_data_succeeds() {
    let mut dispatcher = OperationDispatcher::new();
    let mut provider = FakeProvider::default();

    let signed = run(
        &mut dispatcher,
        &mut provider,
        Action::Sign,
        "hello",
        "k1",
        "RSA2048",
    );
    assert_eq!(signed.message(), "signing succeeded using RSA2048");
    assert_eq!(provider.init_calls, 1);
    assert_eq!(provider.create_calls, 1);
    assert_eq!(provider.load_calls, 0);
    assert_eq!(provider.sign_calls, 1);
    assert_eq!(provider.close_calls, 1);

    let verified = run(
        &mut dispatcher,
        &mut provider,
        Action::Verify,
        "hello",
        "k1",
        "RSA2048",
    );
    assert_eq!(verified.message(), "verification succeeded using RSA2048");
    assert_eq!(provider.init_calls, 2);
    assert_eq!(provider.create_calls, 1);
    assert_eq!(provider.load_calls, 1);
    assert_eq!(provider.verify_calls, 1);
    assert_eq!(provider.close_calls, 2);
}

#[test]
fn verify_different_data_fails() {
    let mut dispatcher = OperationDispatcher::new();
    let mut provider = FakeProvider::default();

    run(
        &mut dispatcher,
        &mut provider,
        Action::Sign,
        "hello",
        "k1",
        "RSA2048",
    );
    let verified = run(
        &mut dispatcher,
        &mut provider,
        Action::Verify,
        "goodbye",
        "k1",
        "RSA2048",
    );
    assert!(matches!(
        verified,
        OperationResult::Failure {
            kind: FailureKind::Verify,
            ..
        }
    ));
    assert_eq!(
        verified.message(),
        "verification failed using RSA2048: the signature could not be verified"
    );
}

#[test]
fn verify_without_prior_sign_never_calls_provider() {
    let mut dispatcher = OperationDispatcher::new();
    let mut provider = FakeProvider::default();

    let result = run(
        &mut dispatcher,
        &mut provider,
        Action::Verify,
        "hello",
        "k1",
        "RSA1024",
    );
    assert!(matches!(
        result,
        OperationResult::Failure {
            kind: FailureKind::NoSignatureAvailable,
            ..
        }
    ));
    assert_eq!(
        result.message(),
        "verification failed using RSA1024: no signature to verify"
    );
    assert_eq!(provider.init_calls, 0);
    assert_eq!(provider.load_calls, 0);
    assert_eq!(provider.verify_calls, 0);
    assert_eq!(provider.close_calls, 0);
}

#[test]
fn second_sign_replaces_stored_artifact() {
    let mut dispatcher = OperationDispatcher::new();
    let mut provider = FakeProvider::default();

    run(
        &mut dispatcher,
        &mut provider,
        Action::Sign,
        "first",
        "k1",
        "RSA1024",
    );
    run(
        &mut dispatcher,
        &mut provider,
        Action::Sign,
        "second",
        "k2",
        "ECC256",
    );

    let held = dispatcher.store().get().expect("an artifact is held");
    assert_eq!(held.signature, fake_signature(b"second"));
    assert_eq!(held.key_id, "k2");
    assert_eq!(held.profile.family, AlgorithmFamily::Ecc);
    assert_eq!(held.profile.strength, 256);

    let newest = run(
        &mut dispatcher,
        &mut provider,
        Action::Verify,
        "second",
        "k2",
        "ECC256",
    );
    assert!(matches!(newest, OperationResult::Success { .. }));

    let oldest = run(
        &mut dispatcher,
        &mut provider,
        Action::Verify,
        "first",
        "k1",
        "RSA1024",
    );
    assert!(matches!(
        oldest,
        OperationResult::Failure {
            kind: FailureKind::Verify,
            ..
        }
    ));
}

#[test]
fn sign_trims_data_before_signing() {
    let mut dispatcher = OperationDispatcher::new();
    let mut provider = FakeProvider::default();

    run(
        &mut dispatcher,
        &mut provider,
        Action::Sign,
        "  hello  ",
        "k1",
        "RSA1024",
    );
    let held = dispatcher.store().get().expect("an artifact is held");
    assert_eq!(held.signature, fake_signature(b"hello"));

    let verified = run(
        &mut dispatcher,
        &mut provider,
        Action::Verify,
        "hello",
        "k1",
        "RSA1024",
    );
    assert!(matches!(verified, OperationResult::Success { .. }));
}

#[test]
fn generate_key_reports_success_and_signs_nothing() {
    let mut dispatcher = OperationDispatcher::new();
    let mut provider = FakeProvider::default();

    let result = run(
        &mut dispatcher,
        &mut provider,
        Action::GenerateKey,
        " ",
        "k1",
        "ECC384",
    );
    assert_eq!(result.message(), "key generation succeeded using ECC384");
    assert_eq!(provider.init_calls, 1);
    assert_eq!(provider.create_calls, 1);
    assert_eq!(provider.sign_calls, 0);
    assert_eq!(provider.verify_calls, 0);
    assert_eq!(provider.close_calls, 1);
    assert!(dispatcher.store().get().is_none());
}

#[test]
fn unknown_label_falls_back_to_default_profile() {
    let mut dispatcher = OperationDispatcher::new();
    let mut provider = FakeProvider::default();

    let result = run(
        &mut dispatcher,
        &mut provider,
        Action::Sign,
        "hello",
        "k1",
        "3DES",
    );
    assert_eq!(result.message(), "signing succeeded using RSA1024");
}

#[test]
fn failed_initialization_reports_init_failure() {
    let mut dispatcher = OperationDispatcher::new();
    let mut provider = FakeProvider::default();
    provider.fail_init = true;

    let result = run(
        &mut dispatcher,
        &mut provider,
        Action::GenerateKey,
        " ",
        "k1",
        "RSA2048",
    );
    assert_eq!(
        result.message(),
        "key generation failed using RSA2048: the provider module could not be initialized"
    );
    assert_eq!(provider.create_calls, 0);
    assert_eq!(provider.close_calls, 1);
}

#[test]
fn failed_key_step_reports_key_failure() {
    let mut dispatcher = OperationDispatcher::new();
    let mut provider = FakeProvider::default();
    provider.fail_key = true;

    let result = run(
        &mut dispatcher,
        &mut provider,
        Action::Sign,
        "hello",
        "k1",
        "RSA2048",
    );
    assert_eq!(
        result.message(),
        "signing failed using RSA2048: the key could not be created or loaded"
    );
    assert_eq!(provider.sign_calls, 0);
    assert_eq!(provider.close_calls, 1);
    assert!(dispatcher.store().get().is_none());
}

#[test]
fn failed_sign_leaves_store_unchanged() {
    let mut dispatcher = OperationDispatcher::new();
    let mut provider = FakeProvider::default();

    run(
        &mut dispatcher,
        &mut provider,
        Action::Sign,
        "first",
        "k1",
        "RSA1024",
    );
    provider.fail_sign = true;
    let result = run(
        &mut dispatcher,
        &mut provider,
        Action::Sign,
        "second",
        "k1",
        "RSA1024",
    );
    assert_eq!(
        result.message(),
        "signing failed using RSA1024: no signature could be created"
    );
    let held = dispatcher.store().get().expect("the first artifact is kept");
    assert_eq!(held.signature, fake_signature(b"first"));
}

#[test]
fn encrypt_and_decrypt_report_not_implemented() {
    let mut dispatcher = OperationDispatcher::new();
    let mut provider = FakeProvider::default();

    let encrypted = run(
        &mut dispatcher,
        &mut provider,
        Action::Encrypt,
        "hello",
        "k1",
        "RSA1024",
    );
    assert_eq!(
        encrypted.message(),
        "encryption failed using RSA1024: not implemented"
    );
    let decrypted = run(
        &mut dispatcher,
        &mut provider,
        Action::Decrypt,
        "hello",
        "k1",
        "RSA1024",
    );
    assert_eq!(
        decrypted.message(),
        "decryption failed using RSA1024: not implemented"
    );
    assert_eq!(provider.init_calls, 0);
    assert_eq!(provider.close_calls, 0);
}

#[test]
fn store_put_replaces_and_get_reads() {
    let mut store = SignatureStore::new();
    assert!(store.get().is_none());

    store.put(SignatureArtifact {
        signature: vec![1, 2, 3],
        key_id: String::from("a"),
        profile: hsm_orchestrator::catalog::resolve("RSA1024"),
    });
    assert_eq!(store.get().expect("held").signature, vec![1, 2, 3]);

    store.put(SignatureArtifact {
        signature: vec![9],
        key_id: String::from("b"),
        profile: hsm_orchestrator::catalog::resolve("ECC256"),
    });
    let held = store.get().expect("held");
    assert_eq!(held.signature, vec![9]);
    assert_eq!(held.key_id, "b");
}

#[test]
fn task_result_is_available_once_finished() {
    let mut dispatcher = OperationDispatcher::new();
    let (mut task, mut step) = dispatcher.begin(Action::GenerateKey, " ", "k1", "RSA1024");
    let mut provider = FakeProvider::default();
    assert!(task.result().is_none());
    loop {
        match step {
            Step::Done(result) => {
                assert_eq!(task.result(), Some(result));
                break;
            }
            Step::Request(request) => {
                let outcome = provider.handle(request);
                step = dispatcher.advance(&mut task, outcome);
            }
        }
    }
}

#[test]
fn injected_store_is_used_for_verification() {
    let mut store = SignatureStore::new();
    store.put(SignatureArtifact {
        signature: fake_signature(b"hello"),
        key_id: String::from("k1"),
        profile: hsm_orchestrator::catalog::resolve("RSA2048"),
    });
    let mut dispatcher = OperationDispatcher::with_store(store);
    let mut provider = FakeProvider::default();

    let verified = run(
        &mut dispatcher,
        &mut provider,
        Action::Verify,
        "hello",
        "k1",
        "RSA2048",
    );
    assert!(matches!(verified, OperationResult::Success { .. }));
    assert_eq!(provider.load_calls, 1);
    assert_eq!(provider.verify_calls, 1);
}
