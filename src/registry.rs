//! Values of the FIDO registry of predefined values.

use vstd::prelude::*;

verus! {

/// User verification methods.
#[derive(Debug, Clone, Copy, PartialEq, Eq, Structural)]
pub enum UserVerify {
    PresenceInternal,
    FingerprintInternal,
    PasscodeInternal,
    VoiceprintInternal,
    FaceprintInternal,
    LocationInternal,
    EyeprintInternal,
    PatternInternal,
    HandprintInternal,
    PasscodeExternal,
    PatternExternal,
    NoVerification,
    All,
}

/// The bit of each user verification method.
pub open spec fn user_verify_bit(u: UserVerify) -> u32 {
    match u {
        UserVerify::PresenceInternal => 0x0000_0001,
        UserVerify::FingerprintInternal => 0x0000_0002,
        UserVerify::PasscodeInternal => 0x0000_0004,
        UserVerify::VoiceprintInternal => 0x0000_0008,
        UserVerify::FaceprintInternal => 0x0000_0010,
        UserVerify::LocationInternal => 0x0000_0020,
        UserVerify::EyeprintInternal => 0x0000_0040,
        UserVerify::PatternInternal => 0x0000_0080,
        UserVerify::HandprintInternal => 0x0000_0100,
        UserVerify::PasscodeExternal => 0x0000_0800,
        UserVerify::PatternExternal => 0x0000_1000,
        UserVerify::NoVerification => 0x0000_0200,
        UserVerify::All => 0x0000_0400,
    }
}

impl UserVerify {
    /// The registry bit of the method.
    pub fn bit(&self) -> (r: u32)
        ensures
            r == user_verify_bit(*self),
    {
        match self {
            UserVerify::PresenceInternal => 0x0000_0001,
            UserVerify::FingerprintInternal => 0x0000_0002,
            UserVerify::PasscodeInternal => 0x0000_0004,
            UserVerify::VoiceprintInternal => 0x0000_0008,
            UserVerify::FaceprintInternal => 0x0000_0010,
            UserVerify::LocationInternal => 0x0000_0020,
            UserVerify::EyeprintInternal => 0x0000_0040,
            UserVerify::PatternInternal => 0x0000_0080,
            UserVerify::HandprintInternal => 0x0000_0100,
            UserVerify::PasscodeExternal => 0x0000_0800,
            UserVerify::PatternExternal => 0x0000_1000,
            UserVerify::NoVerification => 0x0000_0200,
            UserVerify::All => 0x0000_0400,
        }
    }
}

/// Key protection types.
#[derive(Debug, Clone, Copy, PartialEq, Eq, Structural)]
pub enum KeyProtection {
    Software,
    Hardware,
    Tee,
    SecureElement,
    RemoteHandle,
}

/// Matcher protection types.
#[derive(Debug, Clone, Copy, PartialEq, Eq, Structural)]
pub enum MatcherProtection {
    Software,
    Tee,
    OnChip,
}

/// Authenticator attachment hints.
#[derive(Debug, Clone, Copy, PartialEq, Eq, Structural)]
pub enum AttachmentHint {
    Internal,
    External,
    Wired,
    Wireless,
    Nfc,
    Bluetooth,
    Network,
    Ready,
    WifiDirect,
}

/// Transaction confirmation display types.
#[derive(Debug, Clone, Copy, PartialEq, Eq, Structural)]
pub enum TransactionConfirmationDisplay {
    Any,
    PrivilegedSoftware,
    Tee,
    Hardware,
    Remote,
}

/// Authentication signature algorithms.
#[derive(Debug, Clone, Copy, PartialEq, Eq, Structural)]
pub enum Signature {
    Secp256r1EcdsaSha256Raw,
    Secp256r1EcdsaSha256Der,
    RsaSsaPssSha256Raw,
    RsaSsaPssSha256Der,
    Secp256k1EcdsaSha256Raw,
    Secp256k1EcdsaSha256Der,
    Sm2Sm3Raw,
    RsaEmsaPkcs1Sha256Raw,
    RsaEmsaPkcs1Sha256Der,
    RsaSsaPsSha384Raw,
    RsaSsaPssSha512Raw,
    RsaSsaPkcsv15Sha256Raw,
    RsaSsaPkcsv15Sha384Raw,
    RsaSsaPkcsv15Sha512Raw,
    RsaSsaPkcsv15Sha1Raw,
    Secp384r1EcdsaSha384Raw,
    Secp521r1EcdsaSha512Raw,
    Ed25519EddsaSha512Raw,
    Ed448EddsaSha512Raw,
}

/// Public key representation formats.
#[derive(Debug, Clone, Copy, PartialEq, Eq, Structural)]
pub enum PublicKey {
    EccX962Raw,
    EccX962Der,
    Rsa2048Raw,
    Rsa2048Der,
    Cose,
}

/// Attestation types.
#[derive(Debug, Clone, Copy, PartialEq, Eq, Structural)]
pub enum Attestation {
    BasicFull,
    BasicSurrogate,
    EllipticCurveDirectAnonymous,
    PrivacyCA,
    AnonymizationCA,
    NoAttestation,
}

} // verus!
