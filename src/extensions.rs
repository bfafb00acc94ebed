//! Extension identifiers and the credProtect policy.

use vstd::prelude::*;

verus! {

/// The registered WebAuthn extension identifiers.
#[derive(Debug, Clone, Copy, PartialEq, Eq, Structural)]
pub enum Identifier {
    AppId,
    TransactionAuthSimple,
    TransactionAuthGeneric,
    AuthenticationSelection,
    Extensions,
    UserVerificationIndex,
    Location,
    UserVerificationMethod,
    CredentialProtection,
    CredentialBlob,
    LargeBlobKey,
    MinPinLength,
    HmacSecret,
    AppIdExclude,
    CredentialProperties,
    LargeBlob,
}

/// The extension inputs an authenticator may receive.
#[derive(Debug, Clone, Copy, PartialEq, Eq, Structural)]
pub enum AuthenticatorExtensionInput {
    AppId,
    TransactionAuthSimple,
    TransactionAuthGeneric,
    AuthenticationSelection,
    Extensions,
    UserVerificationIndex,
    Location,
    UserVerificationMethod,
    CredentialProtection,
    CredentialBlob,
    LargeBlobKey,
    MinPinLength,
    HmacSecret,
    AppIdExclude,
    CredentialProperties,
    LargeBlob,
}

/// The user-verification level a credential requires (credProtect).
#[derive(Debug, Clone, Copy, PartialEq, Eq, Structural)]
pub enum Policy {
    UserVerificationOptional,
    UserVerificationOptionalWithCredentialIdList,
    UserVerificationRequired,
}

pub open spec fn policy_number(p: Policy) -> u64 {
    match p {
        Policy::UserVerificationOptional => 0x01,
        Policy::UserVerificationOptionalWithCredentialIdList => 0x02,
        Policy::UserVerificationRequired => 0x03,
    }
}

impl Policy {
    /// The wire integer of the policy.
    pub fn number(&self) -> (r: u64)
        ensures
            r == policy_number(*self),
    {
        match self {
            Policy::UserVerificationOptional => 0x01,
            Policy::UserVerificationOptionalWithCredentialIdList => 0x02,
            Policy::UserVerificationRequired => 0x03,
        }
    }

    /// The policy a wire integer names, or `None`.
    pub fn from_number(n: u64) -> (r: Option<Policy>)
        ensures
            r matches Some(p) ==> policy_number(p) == n,
            r is None <==> !(1 <= n <= 3),
    {
        if n == 0x01 {
            Some(Policy::UserVerificationOptional)
        } else if n == 0x02 {
            Some(Policy::UserVerificationOptionalWithCredentialIdList)
        } else if n == 0x03 {
            Some(Policy::UserVerificationRequired)
        } else {
            None
        }
    }
}

} // verus!
