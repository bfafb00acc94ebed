//! The options a relying party passes to `create()`.

use vstd::prelude::*;
use crate::attestation::FormatIdentifier;
use crate::entities::{Descriptor, Parameters, RelyingPartyEntity, UserEntity};
use crate::webauthn::AuthenticatorSelectionCriteria;

verus! {

/// The options of `create()`.
pub trait Options {
    fn public_key_credential_relying_party_entity(&self) -> &RelyingPartyEntity;

    fn public_key_credential_user_entity(&self) -> &UserEntity;

    fn challenge(&self) -> &[u8];

    /// Most preferred first.
    fn public_key_credential_parameters(&self) -> &[Parameters];

    /// In milliseconds; a hint.
    fn timeout(&self) -> Option<u64>;

    fn exclude_credentials(&self) -> Option<&[Descriptor]>;

    fn authenticator_selection(&self) -> Option<AuthenticatorSelectionCriteria>;

    fn attestation_formats(&self) -> &[FormatIdentifier];
}

} // verus!
