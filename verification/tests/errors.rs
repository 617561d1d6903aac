//! Tests of the error taxonomy: numeric codes, diagnostic messages, and
//! equality.

use verifier_lib::error::Groth16Error;

fn all_kinds() -> Vec<Groth16Error> {
    vec![
        Groth16Error::IncompatibleVerifyingKeyWithNrPublicInputs,
        Groth16Error::ProofVerificationFailed,
        Groth16Error::PreparingInputsG1AdditionFailed,
        Groth16Error::PreparingInputsG1MulFailed,
        Groth16Error::InvalidG1Length,
        Groth16Error::InvalidG2Length,
        Groth16Error::InvalidPublicInputsLength,
        Groth16Error::DecompressingG1Failed,
        Groth16Error::DecompressingG2Failed,
        Groth16Error::PublicInputGreaterThanFieldSize,
        Groth16Error::ArkworksSerializationError("a".to_string()),
        Groth16Error::ProofConversionError,
        Groth16Error::SolanaBN254Error("b".to_string()),
        Groth16Error::HashError("c".to_string()),
        Groth16Error::PedersenVerificationError("d".to_string()),
        Groth16Error::PublicWitnessParsingError,
    ]
}

#[test]
fn error_codes_are_stable() {
    for (i, e) in all_kinds().into_iter().enumerate() {
        assert_eq!(u32::from(e), i as u32);
    }
}

#[test]
fn errors_of_different_kinds_are_unequal() {
    let kinds = all_kinds();
    for (i, a) in kinds.iter().enumerate() {
        for (j, b) in kinds.iter().enumerate() {
            if i == j {
                assert_eq!(a, b);
            } else {
                assert_ne!(a, b);
            }
        }
    }
}

#[test]
fn payload_distinguishes_errors_of_one_kind() {
    assert_eq!(
        Groth16Error::PedersenVerificationError("x".to_string()),
        Groth16Error::PedersenVerificationError("x".to_string())
    );
    assert_ne!(
        Groth16Error::PedersenVerificationError("x".to_string()),
        Groth16Error::PedersenVerificationError("y".to_string())
    );
    assert_ne!(
        Groth16Error::HashError("x".to_string()),
        Groth16Error::SolanaBN254Error("x".to_string())
    );
}

#[test]
fn messages_describe_the_kind() {
    assert_eq!(
        Groth16Error::ProofVerificationFailed.message(),
        "ProofVerificationFailed"
    );
    assert_eq!(
        Groth16Error::PedersenVerificationError("detail".to_string()).message(),
        "Pedersen verification error"
    );
    assert_eq!(
        Groth16Error::IncompatibleVerifyingKeyWithNrPublicInputs.message(),
        "Incompatible Verifying Key with number of public inputs"
    );
    assert_eq!(
        Groth16Error::PublicWitnessParsingError.message(),
        "Public witness parsing error"
    );
}
