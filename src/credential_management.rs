//! Credential types and the interfaces of a credential store.

use vstd::prelude::*;

verus! {

/// The kinds of credential a store holds.
#[derive(Debug, Clone)]
pub enum Type {
    Federated,
    Identity,
    Otp,
    Password,
    PublicKey,
    Other(String),
}

/// The name of each credential type.
pub open spec fn credential_type_name(t: Type) -> Seq<char> {
    match t {
        Type::Federated => "federated"@,
        Type::Identity => "identity"@,
        Type::Otp => "otp"@,
        Type::Password => "password"@,
        Type::PublicKey => "public-key"@,
        Type::Other(s) => s@,
    }
}

impl Type {
    /// The name of the type.
    pub fn as_ref(&self) -> (r: &str)
        ensures
            r@ == credential_type_name(*self),
    {
        match self {
            Type::Federated => "federated",
            Type::Identity => "identity",
            Type::Otp => "otp",
            Type::Password => "password",
            Type::PublicKey => "public-key",
            Type::Other(s) => s.as_str(),
        }
    }
}

/// A credential as the credential store sees it.
pub trait Credential {
    /// The credential's identifier.
    fn id(&self) -> &str;

    /// The type of credential this is.
    fn credential_type() -> Type;

    /// The origin an origin-bound credential works for.
    fn origin(&self) -> Option<&str>;
}

/// A credential type that supports conditional mediation.
pub trait Conditional: Credential {}

/// Why a store refused a credential.
#[derive(Debug, Clone, Copy, PartialEq, Eq, Structural)]
pub enum StoreError {
    NotAllowed,
}

/// How much user mediation a request asks for.
#[derive(Debug, Clone, Copy, PartialEq, Eq, Structural)]
pub enum Requirement {
    Silent,
    Optional,
    Conditional,
    Required,
}

} // verus!
