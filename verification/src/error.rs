//! Error taxonomy of the verifier. Every failure is returned to the caller as
//! a distinct, inspectable value; the outer proof verifier treats each kind as
//! "reject the proof", while diagnostic code may tell malformed input apart
//! from a genuine forgery attempt.

use vstd::prelude::*;

verus! {

#[derive(Debug)]
pub enum Groth16Error {
    IncompatibleVerifyingKeyWithNrPublicInputs,
    ProofVerificationFailed,
    PreparingInputsG1AdditionFailed,
    PreparingInputsG1MulFailed,
    InvalidG1Length,
    InvalidG2Length,
    InvalidPublicInputsLength,
    DecompressingG1Failed,
    DecompressingG2Failed,
    PublicInputGreaterThanFieldSize,
    ArkworksSerializationError(String),
    ProofConversionError,
    SolanaBN254Error(String),
    HashError(String),
    PedersenVerificationError(String),
    PublicWitnessParsingError,
}

impl Groth16Error {
    /// The numeric code of each error kind, as exposed through `u32::from`.
    pub open spec fn code_spec(&self) -> u32 {
        match self {
            Groth16Error::IncompatibleVerifyingKeyWithNrPublicInputs => 0,
            Groth16Error::ProofVerificationFailed => 1,
            Groth16Error::PreparingInputsG1AdditionFailed => 2,
            Groth16Error::PreparingInputsG1MulFailed => 3,
            Groth16Error::InvalidG1Length => 4,
            Groth16Error::InvalidG2Length => 5,
            Groth16Error::InvalidPublicInputsLength => 6,
            Groth16Error::DecompressingG1Failed => 7,
            Groth16Error::DecompressingG2Failed => 8,
            Groth16Error::PublicInputGreaterThanFieldSize => 9,
            Groth16Error::ArkworksSerializationError(_) => 10,
            Groth16Error::ProofConversionError => 11,
            Groth16Error::SolanaBN254Error(_) => 12,
            Groth16Error::HashError(_) => 13,
            Groth16Error::PedersenVerificationError(_) => 14,
            Groth16Error::PublicWitnessParsingError => 15,
        }
    }

    /// A short description of the error kind.
    pub open spec fn message_spec(&self) -> Seq<char> {
        match self {
            Groth16Error::IncompatibleVerifyingKeyWithNrPublicInputs => {
                "Incompatible Verifying Key with number of public inputs"@
            },
            Groth16Error::ProofVerificationFailed => "ProofVerificationFailed"@,
            Groth16Error::PreparingInputsG1AdditionFailed => "PreparingInputsG1AdditionFailed"@,
            Groth16Error::PreparingInputsG1MulFailed => "PreparingInputsG1MulFailed"@,
            Groth16Error::InvalidG1Length => "InvalidG1Length"@,
            Groth16Error::InvalidG2Length => "InvalidG2Length"@,
            Groth16Error::InvalidPublicInputsLength => "InvalidPublicInputsLength"@,
            Groth16Error::DecompressingG1Failed => "DecompressingG1Failed"@,
            Groth16Error::DecompressingG2Failed => "DecompressingG2Failed"@,
            Groth16Error::PublicInputGreaterThanFieldSize => "PublicInputGreaterThanFieldSize"@,
            Groth16Error::ArkworksSerializationError(_) => "Arkworks serialization error"@,
            Groth16Error::ProofConversionError => {
                "Failed to convert proof component to byte array"@
            },
            Groth16Error::SolanaBN254Error(_) => "Failed to compute solana bn254 operation"@,
            Groth16Error::HashError(_) => "Error computing FS Hashes"@,
            Groth16Error::PedersenVerificationError(_) => "Pedersen verification error"@,
            Groth16Error::PublicWitnessParsingError => "Public witness parsing error"@,
        }
    }

    /// A short description of the error kind, for diagnostics.
    pub fn message(&self) -> (r: String)
        ensures
            r@ == self.message_spec(),
    {
        match self {
            Groth16Error::IncompatibleVerifyingKeyWithNrPublicInputs => {
                "Incompatible Verifying Key with number of public inputs".to_owned()
            },
            Groth16Error::ProofVerificationFailed => "ProofVerificationFailed".to_owned(),
            Groth16Error::PreparingInputsG1AdditionFailed => {
                "PreparingInputsG1AdditionFailed".to_owned()
            },
            Groth16Error::PreparingInputsG1MulFailed => "PreparingInputsG1MulFailed".to_owned(),
            Groth16Error::InvalidG1Length => "InvalidG1Length".to_owned(),
            Groth16Error::InvalidG2Length => "InvalidG2Length".to_owned(),
            Groth16Error::InvalidPublicInputsLength => "InvalidPublicInputsLength".to_owned(),
            Groth16Error::DecompressingG1Failed => "DecompressingG1Failed".to_owned(),
            Groth16Error::DecompressingG2Failed => "DecompressingG2Failed".to_owned(),
            Groth16Error::PublicInputGreaterThanFieldSize => {
                "PublicInputGreaterThanFieldSize".to_owned()
            },
            Groth16Error::ArkworksSerializationError(_) => {
                "Arkworks serialization error".to_owned()
            },
            Groth16Error::ProofConversionError => {
                "Failed to convert proof component to byte array".to_owned()
            },
            Groth16Error::SolanaBN254Error(_) => {
                "Failed to compute solana bn254 operation".to_owned()
            },
            Groth16Error::HashError(_) => "Error computing FS Hashes".to_owned(),
            Groth16Error::PedersenVerificationError(_) => "Pedersen verification error".to_owned(),
            Groth16Error::PublicWitnessParsingError => "Public witness parsing error".to_owned(),
        }
    }
}

impl PartialEq for Groth16Error {
    fn eq(&self, other: &Self) -> (r: bool) {
        match (self, other) {
            (
                Groth16Error::IncompatibleVerifyingKeyWithNrPublicInputs,
                Groth16Error::IncompatibleVerifyingKeyWithNrPublicInputs,
            ) => true,
            (Groth16Error::ProofVerificationFailed, Groth16Error::ProofVerificationFailed) => true,
            (
                Groth16Error::PreparingInputsG1AdditionFailed,
                Groth16Error::PreparingInputsG1AdditionFailed,
            ) => true,
            (
                Groth16Error::PreparingInputsG1MulFailed,
                Groth16Error::PreparingInputsG1MulFailed,
            ) => true,
            (Groth16Error::InvalidG1Length, Groth16Error::InvalidG1Length) => true,
            (Groth16Error::InvalidG2Length, Groth16Error::InvalidG2Length) => true,
            (
                Groth16Error::InvalidPublicInputsLength,
                Groth16Error::InvalidPublicInputsLength,
            ) => true,
            (Groth16Error::DecompressingG1Failed, Groth16Error::DecompressingG1Failed) => true,
            (Groth16Error::DecompressingG2Failed, Groth16Error::DecompressingG2Failed) => true,
            (
                Groth16Error::PublicInputGreaterThanFieldSize,
                Groth16Error::PublicInputGreaterThanFieldSize,
            ) => true,
            (
                Groth16Error::ArkworksSerializationError(a),
                Groth16Error::ArkworksSerializationError(b),
            ) => a.eq(b),
            (Groth16Error::ProofConversionError, Groth16Error::ProofConversionError) => true,
            (Groth16Error::SolanaBN254Error(a), Groth16Error::SolanaBN254Error(b)) => a.eq(b),
            (Groth16Error::HashError(a), Groth16Error::HashError(b)) => a.eq(b),
            (
                Groth16Error::PedersenVerificationError(a),
                Groth16Error::PedersenVerificationError(b),
            ) => a.eq(b),
            (
                Groth16Error::PublicWitnessParsingError,
                Groth16Error::PublicWitnessParsingError,
            ) => true,
            _ => false,
        }
    }
}

impl vstd::std_specs::cmp::PartialEqSpecImpl for Groth16Error {
    open spec fn obeys_eq_spec() -> bool {
        true
    }

    open spec fn eq_spec(&self, other: &Self) -> bool {
        match (self, other) {
            (
                Groth16Error::IncompatibleVerifyingKeyWithNrPublicInputs,
                Groth16Error::IncompatibleVerifyingKeyWithNrPublicInputs,
            ) => true,
            (Groth16Error::ProofVerificationFailed, Groth16Error::ProofVerificationFailed) => true,
            (
                Groth16Error::PreparingInputsG1AdditionFailed,
                Groth16Error::PreparingInputsG1AdditionFailed,
            ) => true,
            (
                Groth16Error::PreparingInputsG1MulFailed,
                Groth16Error::PreparingInputsG1MulFailed,
            ) => true,
            (Groth16Error::InvalidG1Length, Groth16Error::InvalidG1Length) => true,
            (Groth16Error::InvalidG2Length, Groth16Error::InvalidG2Length) => true,
            (
                Groth16Error::InvalidPublicInputsLength,
                Groth16Error::InvalidPublicInputsLength,
            ) => true,
            (Groth16Error::DecompressingG1Failed, Groth16Error::DecompressingG1Failed) => true,
            (Groth16Error::DecompressingG2Failed, Groth16Error::DecompressingG2Failed) => true,
            (
                Groth16Error::PublicInputGreaterThanFieldSize,
                Groth16Error::PublicInputGreaterThanFieldSize,
            ) => true,
            (
                Groth16Error::ArkworksSerializationError(a),
                Groth16Error::ArkworksSerializationError(b),
            ) => a@ == b@,
            (Groth16Error::ProofConversionError, Groth16Error::ProofConversionError) => true,
            (Groth16Error::SolanaBN254Error(a), Groth16Error::SolanaBN254Error(b)) => a@ == b@,
            (Groth16Error::HashError(a), Groth16Error::HashError(b)) => a@ == b@,
            (
                Groth16Error::PedersenVerificationError(a),
                Groth16Error::PedersenVerificationError(b),
            ) => a@ == b@,
            (
                Groth16Error::PublicWitnessParsingError,
                Groth16Error::PublicWitnessParsingError,
            ) => true,
            _ => false,
        }
    }
}

impl From<Groth16Error> for u32 {
    fn from(error: Groth16Error) -> (r: u32) {
        match error {
            Groth16Error::IncompatibleVerifyingKeyWithNrPublicInputs => 0,
            Groth16Error::ProofVerificationFailed => 1,
            Groth16Error::PreparingInputsG1AdditionFailed => 2,
            Groth16Error::PreparingInputsG1MulFailed => 3,
            Groth16Error::InvalidG1Length => 4,
            Groth16Error::InvalidG2Length => 5,
            Groth16Error::InvalidPublicInputsLength => 6,
            Groth16Error::DecompressingG1Failed => 7,
            Groth16Error::DecompressingG2Failed => 8,
            Groth16Error::PublicInputGreaterThanFieldSize => 9,
            Groth16Error::ArkworksSerializationError(_) => 10,
            Groth16Error::ProofConversionError => 11,
            Groth16Error::SolanaBN254Error(_) => 12,
            Groth16Error::HashError(_) => 13,
            Groth16Error::PedersenVerificationError(_) => 14,
            Groth16Error::PublicWitnessParsingError => 15,
        }
    }
}

impl vstd::std_specs::convert::FromSpecImpl<Groth16Error> for u32 {
    open spec fn obeys_from_spec() -> bool {
        true
    }

    open spec fn from_spec(error: Groth16Error) -> u32 {
        error.code_spec()
    }
}

} // verus!
