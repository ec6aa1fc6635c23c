use hsm_orchestrator::catalog::resolve;
use hsm_orchestrator::catalog::AlgorithmFamily;
use hsm_orchestrator::catalog::AlgorithmProfile;
use hsm_orchestrator::catalog::KeyUsageIntent;
use hsm_orchestrator::operation::Action;
use hsm_orchestrator::operation::FailureKind;
use hsm_orchestrator::operation::OperationResult;

fn rsa(bits: u32) -> AlgorithmProfile {
    AlgorithmProfile {
        family: AlgorithmFamily::Rsa,
        strength: bits,
        usage: KeyUsageIntent::SignAndEncrypt,
    }
}

fn ecc(curve_bits: u32) -> AlgorithmProfile {
    AlgorithmProfile {
        family: AlgorithmFamily::Ecc,
        strength: curve_bits,
        usage: KeyUsageIntent::SignAndEncrypt,
    }
}

#[test]
fn resolve_rsa1024() {
    assert_eq!(resolve("RSA1024"), rsa(1024));
}

#[test]
fn resolve_rsa2048() {
    assert_eq!(resolve("RSA2048"), rsa(2048));
}

#[test]
fn resolve_ecc256() {
    assert_eq!(resolve("ECC256"), ecc(256));
}

#[test]
fn resolve_ecc384() {
    assert_eq!(resolve("ECC384"), ecc(384));
}

#[test]
fn resolve_unknown_label_defaults_to_rsa1024() {
    assert_eq!(resolve("DES"), rsa(1024));
    assert_eq!(resolve(""), rsa(1024));
    assert_eq!(resolve("rsa2048"), rsa(1024));
    assert_eq!(resolve("RSA2048 "), rsa(1024));
}

#[test]
fn success_message_names_action_and_algorithm() {
    let r = OperationResult::Success {
        action: Action::Sign,
        profile: rsa(2048),
    };
    assert_eq!(r.message(), "signing succeeded using RSA2048");
}

#[test]
fn failure_message_names_action_algorithm_and_kind() {
    let r = OperationResult::Failure {
        action: Action::GenerateKey,
        profile: ecc(384),
        kind: FailureKind::Key,
    };
    assert_eq!(
        r.message(),
        "key generation failed using ECC384: the key could not be created or loaded"
    );
}

#[test]
fn no_signature_message() {
    let r = OperationResult::Failure {
        action: Action::Verify,
        profile: rsa(1024),
        kind: FailureKind::NoSignatureAvailable,
    };
    assert_eq!(
        r.message(),
        "verification failed using RSA1024: no signature to verify"
    );
}
