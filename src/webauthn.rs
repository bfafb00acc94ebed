//! WebAuthn-facing options and the interfaces that clients implement.

use vstd::prelude::*;

verus! {

/// How an authenticator is attached.
#[derive(Debug, Clone, Copy, PartialEq, Eq, Structural)]
pub enum Attachment {
    Platform,
    CrossPlatform,
}

/// A relying party's need for user verification.
#[derive(Debug, Clone, Copy, PartialEq, Eq, Structural)]
pub enum UserVerificationRequirement {
    Required,
    Preferred,
    Discouraged,
}

/// A relying party's wish for a discoverable credential.
#[derive(Debug, Clone, Copy, PartialEq, Eq, Structural)]
pub enum ResidentKeyRequirement {
    Discouraged,
    Preferred,
    Required,
}

/// What a relying party requires of an authenticator for `create()`.
#[derive(Debug, Clone, Copy, PartialEq, Eq, Structural)]
pub struct AuthenticatorSelectionCriteria {
    /// Absent: any attachment is acceptable.
    pub attachment: Option<Attachment>,
    pub resident_key_requirement: ResidentKeyRequirement,
    pub user_verification_requirement: UserVerificationRequirement,
}

impl AuthenticatorSelectionCriteria {
    /// Whether an authenticator attached as `a` may take part.
    pub fn accepts(&self, a: Attachment) -> (r: bool)
        ensures
            r == (self.attachment matches Some(x) ==> x == a),
    {
        match self.attachment {
            Some(x) => x == a,
            None => true,
        }
    }
}

/// A public key credential as a client hands it to a relying party.
pub trait Credential {
    /// The raw credential ID.
    fn raw_id(&self) -> &[u8];

    /// How the authenticator was attached, if known.
    fn authenticator_attachment(&self) -> Option<Attachment>;
}

} // verus!
