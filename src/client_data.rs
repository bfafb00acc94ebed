//! The client data a WebAuthn client binds into a ceremony, and its token
//! binding.

use vstd::prelude::*;

verus! {

/// The ceremony that client data belongs to.
#[derive(Debug, Clone, Copy, PartialEq, Eq, Structural)]
pub enum DataType {
    Create,
    Get,
}

/// The state of token binding for a client.
#[derive(Debug, Clone, Copy, PartialEq, Eq, Structural)]
pub enum BindingStatus {
    /// Token binding was used; the binding ID must be present.
    Present,
    /// Supported by the client but not negotiated.
    Supported,
}

/// The token binding a client reports.
#[derive(Debug, Clone)]
pub struct Binding {
    /// The base64url-encoded token binding ID.
    pub id: String,
    pub status: BindingStatus,
}

/// The contextual bindings of relying party and client.
#[derive(Debug, Clone)]
pub struct Data {
    pub data_type: DataType,
    /// The base64url-encoded challenge.
    pub challenge: String,
    /// The fully qualified origin of the requester.
    pub origin: String,
    pub cross_origin: Option<bool>,
    pub token_binding: Option<Binding>,
}

impl Data {
    /// Whether the client data belongs to the ceremony the caller expects.
    pub fn is_for(&self, expected: DataType) -> (r: bool)
        ensures
            r == (self.data_type == expected),
    {
        self.data_type == expected
    }
}

} // verus!
