//! The options a relying party passes to `get()`.

use vstd::prelude::*;
use crate::attestation::FormatIdentifier;
use crate::entities::Descriptor;
use crate::webauthn::UserVerificationRequirement;

verus! {

/// The options of `get()`.
pub trait Options {
    fn challenge(&self) -> &[u8];

    /// In milliseconds; a hint.
    fn timeout(&self) -> Option<u64>;

    fn relying_party_id(&self) -> Option<&str>;

    /// Most preferred first.
    fn allow_credentials(&self) -> Option<&[Descriptor]>;

    fn user_verification(&self) -> Option<UserVerificationRequirement>;

    fn attestation_formats(&self) -> Option<&[FormatIdentifier]>;
}

} // verus!
