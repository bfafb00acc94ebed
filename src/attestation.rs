//! Attestation statement format identifiers and enterprise attestation kinds.

use vstd::prelude::*;

verus! {

/// The registered attestation statement formats.
#[derive(Debug, Clone, Copy, PartialEq, Eq, Structural)]
pub enum FormatIdentifier {
    Packed,
    Tpm,
    AndroidKey,
    AndroidSafetyNet,
    FidoU2f,
    Apple,
    NoAttestation,
}

/// The kinds of enterprise attestation a platform may request.
#[derive(Debug, Clone, Copy, PartialEq, Eq, Structural)]
pub enum Kind {
    VendorFacilitated,
    PlatformManaged,
}

pub open spec fn kind_number(k: Kind) -> u64 {
    match k {
        Kind::VendorFacilitated => 1,
        Kind::PlatformManaged => 2,
    }
}

impl Kind {
    pub fn number(&self) -> (r: u64)
        ensures
            r == kind_number(*self),
    {
        match self {
            Kind::VendorFacilitated => 1,
            Kind::PlatformManaged => 2,
        }
    }
}

/// The identifier string of each format.
pub open spec fn format_name(f: FormatIdentifier) -> Seq<char> {
    match f {
        FormatIdentifier::Packed => "packed"@,
        FormatIdentifier::Tpm => "tpm"@,
        FormatIdentifier::AndroidKey => "android-key"@,
        FormatIdentifier::AndroidSafetyNet => "android-safetynet"@,
        FormatIdentifier::FidoU2f => "fido-u2f"@,
        FormatIdentifier::Apple => "apple"@,
        FormatIdentifier::NoAttestation => "none"@,
    }
}

fn name_is(name: &String, lit: &str) -> (r: bool)
    ensures
        r == (name@ == lit@),
{
    let l = String::from_str(lit);
    *name == l
}

impl FormatIdentifier {
    /// The identifier string of the format.
    pub fn name(&self) -> (r: &'static str)
        ensures
            r@ == format_name(*self),
    {
        match self {
            FormatIdentifier::Packed => "packed",
            FormatIdentifier::Tpm => "tpm",
            FormatIdentifier::AndroidKey => "android-key",
            FormatIdentifier::AndroidSafetyNet => "android-safetynet",
            FormatIdentifier::FidoU2f => "fido-u2f",
            FormatIdentifier::Apple => "apple",
            FormatIdentifier::NoAttestation => "none",
        }
    }

    /// The format an identifier string names; identifiers match case-sensitively.
    pub fn from_name(name: &String) -> (r: Option<FormatIdentifier>)
        ensures
            r matches Some(f) ==> format_name(f) == name@,
            r is None ==> forall|f: FormatIdentifier| format_name(f) != name@,
    {
        if name_is(name, "packed") {
            Some(FormatIdentifier::Packed)
        } else if name_is(name, "tpm") {
            Some(FormatIdentifier::Tpm)
        } else if name_is(name, "android-key") {
            Some(FormatIdentifier::AndroidKey)
        } else if name_is(name, "android-safetynet") {
            Some(FormatIdentifier::AndroidSafetyNet)
        } else if name_is(name, "fido-u2f") {
            Some(FormatIdentifier::FidoU2f)
        } else if name_is(name, "apple") {
            Some(FormatIdentifier::Apple)
        } else if name_is(name, "none") {
            Some(FormatIdentifier::NoAttestation)
        } else {
            assert forall|f: FormatIdentifier| format_name(f) != name@ by {
                match f {
                    _ => {},
                }
            }
            None
        }
    }
}

} // verus!
