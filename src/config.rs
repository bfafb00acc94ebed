//! The authenticatorConfig command.

use vstd::prelude::*;
use crate::client_pin::Version;

verus! {

/// An authenticatorConfig request.
#[derive(Debug, Clone)]
pub enum Request {
    EnableEnterpriseAttestation { pin_uv_auth_protocol: Version, pin_uv_auth_param: Vec<u8> },
    ToggleAlwaysUserVerification { pin_uv_auth_protocol: Version, pin_uv_auth_param: Vec<u8> },
    SetMinPinLength { pin_uv_auth_protocol: Version, pin_uv_auth_param: Vec<u8> },
    VendorPrototype {
        vendor_command_id: u64,
        params: Vec<(Vec<u8>, Vec<u8>)>,
        pin_uv_auth_protocol: Version,
        pin_uv_auth_param: Vec<u8>,
    },
}

pub open spec fn subcommand_number(r: Request) -> u8 {
    match r {
        Request::EnableEnterpriseAttestation { .. } => 0x01,
        Request::ToggleAlwaysUserVerification { .. } => 0x02,
        Request::SetMinPinLength { .. } => 0x03,
        Request::VendorPrototype { .. } => 0xFF,
    }
}

impl Request {
    /// The sub-command byte of this request.
    pub fn subcommand(&self) -> (r: u8)
        ensures
            r == subcommand_number(*self),
    {
        match self {
            Request::EnableEnterpriseAttestation { .. } => 0x01,
            Request::ToggleAlwaysUserVerification { .. } => 0x02,
            Request::SetMinPinLength { .. } => 0x03,
            Request::VendorPrototype { .. } => 0xFF,
        }
    }
}

#[derive(Debug, Clone, Copy, PartialEq, Eq, Structural)]
pub enum Error {
    MissingParameter,
    InvalidParameter,
    PinUvAuthTokenRequired,
    PinAuthInvalid,
}

} // verus!
