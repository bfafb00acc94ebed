//! The authenticatorClientPIN command: typed requests and responses, one
//! variant per sub-command, and their integer-tagged wire maps.

use vstd::prelude::*;
use crate::device::{lists_version, Info};
use crate::key_agreement::{key_of_raw, raw_of_key, KeyAgreement, RawCoseKey};
use crate::key_agreement::{lemma_key_round_trip, lemma_raw_key_round_trip};
use crate::permission::{lemma_permission_byte_round_trip, PermissionSet};

verus! {

/// The length of a pinUvAuthParam.
pub const PIN_UV_AUTH_PARAM_LEN: usize = 16;
/// The length of an encrypted new PIN.
pub const NEW_PIN_ENC_LEN: usize = 64;
/// The length of an encrypted PIN hash.
pub const PIN_HASH_ENC_LEN: usize = 16;

#[derive(Debug, Clone, Copy, PartialEq, Eq, Structural)]
pub enum Error {
    MissingParameter,
    InvalidParameter,
    PinAuthInvalid,
    PinPolicyViolation,
    PinBlocked,
    PinAuthBlocked,
    PinInvalid,
    OperationDenied,
    UnauthorizedPermission,
    NotAllowed,
    UserVerificationBlocked,
    UserActionTimeout,
    UserVerificationInvalid,
}

/// The description of each error.
pub open spec fn error_message(e: Error) -> Seq<char> {
    match e {
        Error::MissingParameter => "Missing parameter"@,
        Error::InvalidParameter => "Invalid parameter"@,
        Error::PinAuthInvalid => "PIN auth invalid"@,
        Error::PinPolicyViolation => "PIN policy violation"@,
        Error::PinBlocked => "PIN blocked"@,
        Error::PinAuthBlocked => "PIN auth blocked"@,
        Error::PinInvalid => "PIN invalid"@,
        Error::OperationDenied => "Operation denied"@,
        Error::UnauthorizedPermission => "Unauthorized permission"@,
        Error::NotAllowed => "Not allowed"@,
        Error::UserVerificationBlocked => "User verification blocked"@,
        Error::UserActionTimeout => "User action timeout"@,
        Error::UserVerificationInvalid => "User verification invalid"@,
    }
}

impl Error {
    /// A short description of the error.
    pub fn message(&self) -> (r: &'static str)
        ensures
            r@ == error_message(*self),
    {
        match self {
            Error::MissingParameter => "Missing parameter",
            Error::InvalidParameter => "Invalid parameter",
            Error::PinAuthInvalid => "PIN auth invalid",
            Error::PinPolicyViolation => "PIN policy violation",
            Error::PinBlocked => "PIN blocked",
            Error::PinAuthBlocked => "PIN auth blocked",
            Error::PinInvalid => "PIN invalid",
            Error::OperationDenied => "Operation denied",
            Error::UnauthorizedPermission => "Unauthorized permission",
            Error::NotAllowed => "Not allowed",
            Error::UserVerificationBlocked => "User verification blocked",
            Error::UserActionTimeout => "User action timeout",
            Error::UserVerificationInvalid => "User verification invalid",
        }
    }
}

/// The PIN/UV auth protocol version.
#[derive(Debug, Clone, Copy, PartialEq, Eq, Structural)]
pub enum Version {
    One,
    Two,
}

pub open spec fn version_number(v: Version) -> u64 {
    match v {
        Version::One => 1,
        Version::Two => 2,
    }
}

/// The version that a wire integer names.
pub open spec fn version_of_number(n: u64) -> Result<Version, Error> {
    if n == 1 {
        Ok(Version::One)
    } else if n == 2 {
        Ok(Version::Two)
    } else {
        Err(Error::InvalidParameter)
    }
}

impl Version {
    /// The wire integer of this version.
    pub fn number(&self) -> (r: u64)
        ensures
            r == version_number(*self),
    {
        match self {
            Version::One => 1,
            Version::Two => 2,
        }
    }

    /// Reads a version from its wire integer.
    pub fn from_number(n: u64) -> (r: Result<Version, Error>)
        ensures
            r == version_of_number(n),
    {
        if n == 1 {
            Ok(Version::One)
        } else if n == 2 {
            Ok(Version::Two)
        } else {
            Err(Error::InvalidParameter)
        }
    }

    /// Reads a version from a byte.
    pub fn try_from(value: u8) -> (r: Result<Version, Error>)
        ensures
            r == version_of_number(value as u64),
    {
        Version::from_number(value as u64)
    }
}

/// A pinUvAuthToken: 16 bytes under protocol one, 32 under protocol two.
#[derive(Debug, Clone)]
pub enum PinUvAuthToken {
    Short(Vec<u8>),
    Long(Vec<u8>),
}

/// The length of a short token.
pub const SHORT_TOKEN_LEN: usize = 16;
/// The length of a long token.
pub const LONG_TOKEN_LEN: usize = 32;

impl PinUvAuthToken {
    pub open spec fn wf(&self) -> bool {
        match self {
            PinUvAuthToken::Short(b) => b@.len() == SHORT_TOKEN_LEN,
            PinUvAuthToken::Long(b) => b@.len() == LONG_TOKEN_LEN,
        }
    }
}

/// The token that a byte string of the given length holds.
pub open spec fn token_of_bytes(b: Vec<u8>) -> Result<PinUvAuthToken, Error> {
    if b@.len() == SHORT_TOKEN_LEN {
        Ok(PinUvAuthToken::Short(b))
    } else if b@.len() == LONG_TOKEN_LEN {
        Ok(PinUvAuthToken::Long(b))
    } else {
        Err(Error::InvalidParameter)
    }
}

pub open spec fn bytes_of_token(t: PinUvAuthToken) -> Vec<u8> {
    match t {
        PinUvAuthToken::Short(b) => b,
        PinUvAuthToken::Long(b) => b,
    }
}

/// The number of user-verification attempts left: from 1 to 25.
#[derive(Debug, Clone, Copy, PartialEq, Eq, Structural)]
pub struct UvRetries {
    value: u8,
}

/// The largest number of user-verification retries.
pub const MAX_UV_RETRIES: u64 = 25;

impl UvRetries {
    pub closed spec fn spec_get(&self) -> u64 {
        self.value as u64
    }

    pub closed spec fn wf(&self) -> bool {
        1 <= self.value <= MAX_UV_RETRIES
    }

    /// A count from 1 to 25, or `None`.
    pub fn new(n: u64) -> (r: Option<UvRetries>)
        ensures
            r is Some <==> 1 <= n <= MAX_UV_RETRIES,
            r matches Some(u) ==> u.wf() && u.spec_get() == n && u == UvRetries::spec_new(n),
    {
        if 1 <= n && n <= MAX_UV_RETRIES {
            Some(UvRetries { value: n as u8 })
        } else {
            None
        }
    }

    pub fn get(&self) -> (r: u64)
        ensures
            r == self.spec_get(),
    {
        self.value as u64
    }

    /// The count whose value is `n`.
    pub closed spec fn spec_new(n: u64) -> UvRetries {
        UvRetries { value: n as u8 }
    }

    /// The count built from a value from 1 to 25 has that value.
    pub proof fn lemma_new_value(n: u64)
        requires
            1 <= n <= MAX_UV_RETRIES,
        ensures
            UvRetries::spec_new(n).spec_get() == n,
            UvRetries::spec_new(n).wf(),
    {
    }

    /// A count is the one built from its own value.
    pub proof fn lemma_new_get(u: UvRetries)
        requires
            u.wf(),
        ensures
            UvRetries::spec_new(u.spec_get()) == u,
    {
    }

}

/// The sub-commands of authenticatorClientPIN.
#[derive(Debug, Clone, Copy, PartialEq, Eq, Structural)]
pub enum RawSubcommand {
    GetPinRetries,
    GetKeyAgreement,
    SetPin,
    ChangePin,
    GetPinToken,
    GetPinUvAuthTokenUsingUvWithPermissions,
    GetUvRetries,
    GetPinUvAuthTokenUsingPinWithPermissions,
}

pub open spec fn subcommand_number(s: RawSubcommand) -> u64 {
    match s {
        RawSubcommand::GetPinRetries => 0x01,
        RawSubcommand::GetKeyAgreement => 0x02,
        RawSubcommand::SetPin => 0x03,
        RawSubcommand::ChangePin => 0x04,
        RawSubcommand::GetPinToken => 0x05,
        RawSubcommand::GetPinUvAuthTokenUsingUvWithPermissions => 0x06,
        RawSubcommand::GetUvRetries => 0x07,
        RawSubcommand::GetPinUvAuthTokenUsingPinWithPermissions => 0x09,
    }
}

pub open spec fn subcommand_of_number(n: u64) -> Option<RawSubcommand> {
    if n == 0x01 {
        Some(RawSubcommand::GetPinRetries)
    } else if n == 0x02 {
        Some(RawSubcommand::GetKeyAgreement)
    } else if n == 0x03 {
        Some(RawSubcommand::SetPin)
    } else if n == 0x04 {
        Some(RawSubcommand::ChangePin)
    } else if n == 0x05 {
        Some(RawSubcommand::GetPinToken)
    } else if n == 0x06 {
        Some(RawSubcommand::GetPinUvAuthTokenUsingUvWithPermissions)
    } else if n == 0x07 {
        Some(RawSubcommand::GetUvRetries)
    } else if n == 0x09 {
        Some(RawSubcommand::GetPinUvAuthTokenUsingPinWithPermissions)
    } else {
        None
    }
}

impl RawSubcommand {
    pub fn number(&self) -> (r: u64)
        ensures
            r == subcommand_number(*self),
    {
        match self {
            RawSubcommand::GetPinRetries => 0x01,
            RawSubcommand::GetKeyAgreement => 0x02,
            RawSubcommand::SetPin => 0x03,
            RawSubcommand::ChangePin => 0x04,
            RawSubcommand::GetPinToken => 0x05,
            RawSubcommand::GetPinUvAuthTokenUsingUvWithPermissions => 0x06,
            RawSubcommand::GetUvRetries => 0x07,
            RawSubcommand::GetPinUvAuthTokenUsingPinWithPermissions => 0x09,
        }
    }

    /// The sub-command that a wire integer names, or `None`.
    pub fn from_number(n: u64) -> (r: Option<RawSubcommand>)
        ensures
            r == subcommand_of_number(n),
    {
        if n == 0x01 {
            Some(RawSubcommand::GetPinRetries)
        } else if n == 0x02 {
            Some(RawSubcommand::GetKeyAgreement)
        } else if n == 0x03 {
            Some(RawSubcommand::SetPin)
        } else if n == 0x04 {
            Some(RawSubcommand::ChangePin)
        } else if n == 0x05 {
            Some(RawSubcommand::GetPinToken)
        } else if n == 0x06 {
            Some(RawSubcommand::GetPinUvAuthTokenUsingUvWithPermissions)
        } else if n == 0x07 {
            Some(RawSubcommand::GetUvRetries)
        } else if n == 0x09 {
            Some(RawSubcommand::GetPinUvAuthTokenUsingPinWithPermissions)
        } else {
            None
        }
    }
}


/// A ClientPIN request: each variant carries the fields of its sub-command.
#[derive(Debug, Clone)]
pub enum Request {
    GetPinRetries,
    GetKeyAgreement { version: Version },
    SetPin {
        version: Version,
        key_agreement: KeyAgreement,
        new_pin_encrypted: Vec<u8>,
        pin_uv_auth_param: Vec<u8>,
    },
    ChangePin {
        version: Version,
        key_agreement: KeyAgreement,
        pin_hash_encrypted: Vec<u8>,
        new_pin_encrypted: Vec<u8>,
        pin_uv_auth_param: Vec<u8>,
    },
    GetPinToken { version: Version, key_agreement: KeyAgreement, pin_hash_encrypted: Vec<u8> },
    GetPinUvAuthTokenUsingUvWithPermissions {
        version: Version,
        key_agreement: KeyAgreement,
        permissions: PermissionSet,
        relying_party_id: Option<String>,
    },
    GetUvRetries,
    GetPinUvAuthTokenUsingPinWithPermissions {
        version: Version,
        key_agreement: KeyAgreement,
        pin_hash_encrypted: Vec<u8>,
        permissions: PermissionSet,
        relying_party_id: Option<String>,
    },
}

impl Request {
    /// Byte strings have their fixed lengths, keys their shapes, and
    /// permission sets are non-empty.
    pub open spec fn wf(&self) -> bool {
        match self {
            Request::GetPinRetries | Request::GetUvRetries | Request::GetKeyAgreement { .. } => true,
            Request::SetPin { key_agreement, new_pin_encrypted, pin_uv_auth_param, .. } => {
                key_agreement.wf() && new_pin_encrypted@.len() == NEW_PIN_ENC_LEN
                    && pin_uv_auth_param@.len() == PIN_UV_AUTH_PARAM_LEN
            },
            Request::ChangePin {
                key_agreement,
                pin_hash_encrypted,
                new_pin_encrypted,
                pin_uv_auth_param,
                ..
            } => {
                key_agreement.wf() && pin_hash_encrypted@.len() == PIN_HASH_ENC_LEN
                    && new_pin_encrypted@.len() == NEW_PIN_ENC_LEN && pin_uv_auth_param@.len()
                    == PIN_UV_AUTH_PARAM_LEN
            },
            Request::GetPinToken { key_agreement, pin_hash_encrypted, .. } => {
                key_agreement.wf() && pin_hash_encrypted@.len() == PIN_HASH_ENC_LEN
            },
            Request::GetPinUvAuthTokenUsingUvWithPermissions { key_agreement, permissions, .. } => {
                key_agreement.wf() && permissions.wf() && !permissions@.is_empty()
            },
            Request::GetPinUvAuthTokenUsingPinWithPermissions {
                key_agreement,
                pin_hash_encrypted,
                permissions,
                ..
            } => {
                key_agreement.wf() && pin_hash_encrypted@.len() == PIN_HASH_ENC_LEN && permissions.wf()
                    && !permissions@.is_empty()
            },
        }
    }

    /// The sub-command of a request.
    pub open spec fn spec_subcommand(&self) -> RawSubcommand {
        match self {
            Request::GetPinRetries => RawSubcommand::GetPinRetries,
            Request::GetKeyAgreement { .. } => RawSubcommand::GetKeyAgreement,
            Request::SetPin { .. } => RawSubcommand::SetPin,
            Request::ChangePin { .. } => RawSubcommand::ChangePin,
            Request::GetPinToken { .. } => RawSubcommand::GetPinToken,
            Request::GetPinUvAuthTokenUsingUvWithPermissions { .. } => {
                RawSubcommand::GetPinUvAuthTokenUsingUvWithPermissions
            },
            Request::GetUvRetries => RawSubcommand::GetUvRetries,
            Request::GetPinUvAuthTokenUsingPinWithPermissions { .. } => {
                RawSubcommand::GetPinUvAuthTokenUsingPinWithPermissions
            },
        }
    }
}

/// The integer-tagged map of a ClientPIN request, one field per tag:
/// pinUvAuthProtocol (0x01), subCommand (0x02), keyAgreement (0x03),
/// pinUvAuthParam (0x04), newPinEnc (0x05), pinHashEnc (0x06),
/// permissions (0x09) and rpId (0x0A). An absent field is not on the wire.
#[derive(Debug, Clone)]
pub struct RawRequest {
    pub pin_uv_auth_protocol: Option<u64>,
    pub sub_command: Option<u64>,
    pub key_agreement: Option<RawCoseKey>,
    pub pin_uv_auth_param: Option<Vec<u8>>,
    pub new_pin_enc: Option<Vec<u8>>,
    pub pin_hash_enc: Option<Vec<u8>>,
    pub permissions: Option<u64>,
    pub rp_id: Option<String>,
}

/// A map with only the sub-command set.
pub open spec fn raw_request_base(sub: RawSubcommand) -> RawRequest {
    RawRequest {
        pin_uv_auth_protocol: None,
        sub_command: Some(subcommand_number(sub)),
        key_agreement: None,
        pin_uv_auth_param: None,
        new_pin_enc: None,
        pin_hash_enc: None,
        permissions: None,
        rp_id: None,
    }
}

/// The wire map of a request.
pub open spec fn raw_of_request(r: Request) -> RawRequest {
    let base = raw_request_base(r.spec_subcommand());
    match r {
        Request::GetPinRetries | Request::GetUvRetries => base,
        Request::GetKeyAgreement { version } => RawRequest {
            pin_uv_auth_protocol: Some(version_number(version)),
            ..base
        },
        Request::SetPin { version, key_agreement, new_pin_encrypted, pin_uv_auth_param } => RawRequest {
            pin_uv_auth_protocol: Some(version_number(version)),
            key_agreement: Some(raw_of_key(key_agreement)),
            pin_uv_auth_param: Some(pin_uv_auth_param),
            new_pin_enc: Some(new_pin_encrypted),
            ..base
        },
        Request::ChangePin {
            version,
            key_agreement,
            pin_hash_encrypted,
            new_pin_encrypted,
            pin_uv_auth_param,
        } => RawRequest {
            pin_uv_auth_protocol: Some(version_number(version)),
            key_agreement: Some(raw_of_key(key_agreement)),
            pin_uv_auth_param: Some(pin_uv_auth_param),
            new_pin_enc: Some(new_pin_encrypted),
            pin_hash_enc: Some(pin_hash_encrypted),
            ..base
        },
        Request::GetPinToken { version, key_agreement, pin_hash_encrypted } => RawRequest {
            pin_uv_auth_protocol: Some(version_number(version)),
            key_agreement: Some(raw_of_key(key_agreement)),
            pin_hash_enc: Some(pin_hash_encrypted),
            ..base
        },
        Request::GetPinUvAuthTokenUsingUvWithPermissions {
            version,
            key_agreement,
            permissions,
            relying_party_id,
        } => RawRequest {
            pin_uv_auth_protocol: Some(version_number(version)),
            key_agreement: Some(raw_of_key(key_agreement)),
            permissions: Some(permissions.spec_bits() as u64),
            rp_id: relying_party_id,
            ..base
        },
        Request::GetPinUvAuthTokenUsingPinWithPermissions {
            version,
            key_agreement,
            pin_hash_encrypted,
            permissions,
            relying_party_id,
        } => RawRequest {
            pin_uv_auth_protocol: Some(version_number(version)),
            key_agreement: Some(raw_of_key(key_agreement)),
            pin_hash_enc: Some(pin_hash_encrypted),
            permissions: Some(permissions.spec_bits() as u64),
            rp_id: relying_party_id,
            ..base
        },
    }
}

/// The tags present in a wire map, in ascending order.
pub open spec fn raw_request_tags(r: RawRequest) -> Seq<u8> {
    (if r.pin_uv_auth_protocol is Some { seq![0x01u8] } else { seq![] })
    + (if r.sub_command is Some { seq![0x02u8] } else { seq![] })
    + (if r.key_agreement is Some { seq![0x03u8] } else { seq![] })
    + (if r.pin_uv_auth_param is Some { seq![0x04u8] } else { seq![] })
    + (if r.new_pin_enc is Some { seq![0x05u8] } else { seq![] })
    + (if r.pin_hash_enc is Some { seq![0x06u8] } else { seq![] })
    + (if r.permissions is Some { seq![0x09u8] } else { seq![] })
    + (if r.rp_id is Some { seq![0x0Au8] } else { seq![] })
}

/// The fields that a sub-command does not use are absent.
pub open spec fn only_fields_of(r: RawRequest, sub: RawSubcommand) -> bool {
    match sub {
        RawSubcommand::GetPinRetries | RawSubcommand::GetUvRetries => r.pin_uv_auth_protocol is None
            && r.key_agreement is None && r.pin_uv_auth_param is None && r.new_pin_enc is None
            && r.pin_hash_enc is None && r.permissions is None && r.rp_id is None,
        RawSubcommand::GetKeyAgreement => r.key_agreement is None && r.pin_uv_auth_param is None
            && r.new_pin_enc is None && r.pin_hash_enc is None && r.permissions is None && r.rp_id is None,
        RawSubcommand::SetPin => r.pin_hash_enc is None && r.permissions is None && r.rp_id is None,
        RawSubcommand::ChangePin => r.permissions is None && r.rp_id is None,
        RawSubcommand::GetPinToken => r.pin_uv_auth_param is None && r.new_pin_enc is None
            && r.permissions is None && r.rp_id is None,
        RawSubcommand::GetPinUvAuthTokenUsingUvWithPermissions => r.pin_uv_auth_param is None
            && r.new_pin_enc is None && r.pin_hash_enc is None,
        RawSubcommand::GetPinUvAuthTokenUsingPinWithPermissions => r.pin_uv_auth_param is None
            && r.new_pin_enc is None,
    }
}

/// A required protocol version.
pub open spec fn version_field(v: Option<u64>) -> Result<Version, Error> {
    match v {
        None => Err(Error::MissingParameter),
        Some(n) => version_of_number(n),
    }
}

/// A required key agreement of an accepted shape.
pub open spec fn key_field(k: Option<RawCoseKey>) -> Result<KeyAgreement, Error> {
    match k {
        None => Err(Error::MissingParameter),
        Some(r) => match key_of_raw(r) {
            Ok(key) => Ok(key),
            Err(_) => Err(Error::InvalidParameter),
        },
    }
}

/// A required byte string of a fixed length.
pub open spec fn bytes_field(b: Option<Vec<u8>>, len: usize) -> Result<Vec<u8>, Error> {
    match b {
        None => Err(Error::MissingParameter),
        Some(v) => if v@.len() == len {
            Ok(v)
        } else {
            Err(Error::InvalidParameter)
        },
    }
}

/// A required, non-empty permission byte with no unknown bit.
pub open spec fn permissions_field(p: Option<u64>) -> Result<PermissionSet, Error> {
    match p {
        None => Err(Error::MissingParameter),
        Some(n) => if n > 0xFF {
            Err(Error::InvalidParameter)
        } else {
            match crate::permission::decode_permission_byte(n as u8) {
                Ok(_) => Ok(PermissionSet::spec_from_bits(n as u8)),
                Err(_) => Err(Error::InvalidParameter),
            }
        },
    }
}

/// The typed request of a wire map whose sub-command is known and which
/// carries no field foreign to it. Fields are read in tag order; the first
/// missing one gives `MissingParameter`, the first malformed one
/// `InvalidParameter`.
pub open spec fn typed_request(r: RawRequest, sub: RawSubcommand) -> Result<Request, Error> {
    match sub {
        RawSubcommand::GetPinRetries => Ok(Request::GetPinRetries),
        RawSubcommand::GetUvRetries => Ok(Request::GetUvRetries),
        RawSubcommand::GetKeyAgreement => match version_field(r.pin_uv_auth_protocol) {
            Err(e) => Err(e),
            Ok(version) => Ok(Request::GetKeyAgreement { version }),
        },
        RawSubcommand::SetPin => match version_field(r.pin_uv_auth_protocol) {
            Err(e) => Err(e),
            Ok(version) => match key_field(r.key_agreement) {
                Err(e) => Err(e),
                Ok(key_agreement) => match bytes_field(r.pin_uv_auth_param, PIN_UV_AUTH_PARAM_LEN) {
                    Err(e) => Err(e),
                    Ok(pin_uv_auth_param) => match bytes_field(r.new_pin_enc, NEW_PIN_ENC_LEN) {
                        Err(e) => Err(e),
                        Ok(new_pin_encrypted) => Ok(
                            Request::SetPin { version, key_agreement, new_pin_encrypted, pin_uv_auth_param },
                        ),
                    },
                },
            },
        },
        RawSubcommand::ChangePin => match version_field(r.pin_uv_auth_protocol) {
            Err(e) => Err(e),
            Ok(version) => match key_field(r.key_agreement) {
                Err(e) => Err(e),
                Ok(key_agreement) => match bytes_field(r.pin_uv_auth_param, PIN_UV_AUTH_PARAM_LEN) {
                    Err(e) => Err(e),
                    Ok(pin_uv_auth_param) => match bytes_field(r.new_pin_enc, NEW_PIN_ENC_LEN) {
                        Err(e) => Err(e),
                        Ok(new_pin_encrypted) => match bytes_field(r.pin_hash_enc, PIN_HASH_ENC_LEN) {
                            Err(e) => Err(e),
                            Ok(pin_hash_encrypted) => Ok(
                                Request::ChangePin {
                                    version,
                                    key_agreement,
                                    pin_hash_encrypted,
                                    new_pin_encrypted,
                                    pin_uv_auth_param,
                                },
                            ),
                        },
                    },
                },
            },
        },
        RawSubcommand::GetPinToken => match version_field(r.pin_uv_auth_protocol) {
            Err(e) => Err(e),
            Ok(version) => match key_field(r.key_agreement) {
                Err(e) => Err(e),
                Ok(key_agreement) => match bytes_field(r.pin_hash_enc, PIN_HASH_ENC_LEN) {
                    Err(e) => Err(e),
                    Ok(pin_hash_encrypted) => Ok(
                        Request::GetPinToken { version, key_agreement, pin_hash_encrypted },
                    ),
                },
            },
        },
        RawSubcommand::GetPinUvAuthTokenUsingUvWithPermissions => match version_field(
            r.pin_uv_auth_protocol,
        ) {
            Err(e) => Err(e),
            Ok(version) => match key_field(r.key_agreement) {
                Err(e) => Err(e),
                Ok(key_agreement) => match permissions_field(r.permissions) {
                    Err(e) => Err(e),
                    Ok(permissions) => Ok(
                        Request::GetPinUvAuthTokenUsingUvWithPermissions {
                            version,
                            key_agreement,
                            permissions,
                            relying_party_id: r.rp_id,
                        },
                    ),
                },
            },
        },
        RawSubcommand::GetPinUvAuthTokenUsingPinWithPermissions => match version_field(
            r.pin_uv_auth_protocol,
        ) {
            Err(e) => Err(e),
            Ok(version) => match key_field(r.key_agreement) {
                Err(e) => Err(e),
                Ok(key_agreement) => match bytes_field(r.pin_hash_enc, PIN_HASH_ENC_LEN) {
                    Err(e) => Err(e),
                    Ok(pin_hash_encrypted) => match permissions_field(r.permissions) {
                        Err(e) => Err(e),
                        Ok(permissions) => Ok(
                            Request::GetPinUvAuthTokenUsingPinWithPermissions {
                                version,
                                key_agreement,
                                pin_hash_encrypted,
                                permissions,
                                relying_party_id: r.rp_id,
                            },
                        ),
                    },
                },
            },
        },
    }
}

/// What a wire map decodes to: the sub-command is read first; a missing one
/// is `MissingParameter`, an unknown one or a field foreign to it
/// `InvalidParameter`.
pub open spec fn request_of_raw(r: RawRequest) -> Result<Request, Error> {
    match r.sub_command {
        None => Err(Error::MissingParameter),
        Some(n) => match subcommand_of_number(n) {
            None => Err(Error::InvalidParameter),
            Some(sub) => if !only_fields_of(r, sub) {
                Err(Error::InvalidParameter)
            } else {
                typed_request(r, sub)
            },
        },
    }
}


/// Appends `tag` when `present` holds.
pub(crate) fn push_tag_if(t: &mut Vec<u8>, present: bool, tag: u8)
    ensures
        final(t)@ == old(t)@ + (if present { seq![tag] } else { Seq::<u8>::empty() }),
{
    if present {
        t.push(tag);
    }
    assert(t@ =~= old(t)@ + (if present { seq![tag] } else { Seq::<u8>::empty() }));
}

fn read_version(v: Option<u64>) -> (r: Result<Version, Error>)
    ensures
        r == version_field(v),
{
    match v {
        None => Err(Error::MissingParameter),
        Some(n) => Version::from_number(n),
    }
}

fn read_key(k: Option<RawCoseKey>) -> (r: Result<KeyAgreement, Error>)
    ensures
        r == key_field(k),
        r matches Ok(key) ==> key.wf(),
{
    match k {
        None => Err(Error::MissingParameter),
        Some(raw) => match KeyAgreement::from_raw(raw) {
            Ok(key) => Ok(key),
            Err(_) => Err(Error::InvalidParameter),
        },
    }
}

fn read_bytes(b: Option<Vec<u8>>, len: usize) -> (r: Result<Vec<u8>, Error>)
    ensures
        r == bytes_field(b, len),
{
    match b {
        None => Err(Error::MissingParameter),
        Some(v) => if v.len() == len {
            Ok(v)
        } else {
            Err(Error::InvalidParameter)
        },
    }
}

fn read_permissions(p: Option<u64>) -> (r: Result<PermissionSet, Error>)
    ensures
        r == permissions_field(p),
        r matches Ok(s) ==> s.wf() && !s@.is_empty(),
{
    match p {
        None => Err(Error::MissingParameter),
        Some(n) => if n > 0xFF {
            Err(Error::InvalidParameter)
        } else {
            match PermissionSet::from_byte(n as u8) {
                Ok(s) => Ok(s),
                Err(_) => Err(Error::InvalidParameter),
            }
        },
    }
}

impl RawRequest {
    /// Whether the fields that `sub` does not use are absent.
    pub fn only_fields_of(&self, sub: RawSubcommand) -> (r: bool)
        ensures
            r == only_fields_of(*self, sub),
    {
        let r = self;
        match sub {
            RawSubcommand::GetPinRetries | RawSubcommand::GetUvRetries => r.pin_uv_auth_protocol.is_none()
                && r.key_agreement.is_none() && r.pin_uv_auth_param.is_none() && r.new_pin_enc.is_none()
                && r.pin_hash_enc.is_none() && r.permissions.is_none() && r.rp_id.is_none(),
            RawSubcommand::GetKeyAgreement => r.key_agreement.is_none() && r.pin_uv_auth_param.is_none()
                && r.new_pin_enc.is_none() && r.pin_hash_enc.is_none() && r.permissions.is_none()
                && r.rp_id.is_none(),
            RawSubcommand::SetPin => r.pin_hash_enc.is_none() && r.permissions.is_none()
                && r.rp_id.is_none(),
            RawSubcommand::ChangePin => r.permissions.is_none() && r.rp_id.is_none(),
            RawSubcommand::GetPinToken => r.pin_uv_auth_param.is_none() && r.new_pin_enc.is_none()
                && r.permissions.is_none() && r.rp_id.is_none(),
            RawSubcommand::GetPinUvAuthTokenUsingUvWithPermissions => r.pin_uv_auth_param.is_none()
                && r.new_pin_enc.is_none() && r.pin_hash_enc.is_none(),
            RawSubcommand::GetPinUvAuthTokenUsingPinWithPermissions => r.pin_uv_auth_param.is_none()
                && r.new_pin_enc.is_none(),
        }
    }

    /// The tags present in the map, in ascending order.
    pub fn tags(&self) -> (t: Vec<u8>)
        ensures
            t@ == raw_request_tags(*self),
    {
        let mut t: Vec<u8> = Vec::new();
        push_tag_if(&mut t, self.pin_uv_auth_protocol.is_some(), 0x01);
        push_tag_if(&mut t, self.sub_command.is_some(), 0x02);
        push_tag_if(&mut t, self.key_agreement.is_some(), 0x03);
        push_tag_if(&mut t, self.pin_uv_auth_param.is_some(), 0x04);
        push_tag_if(&mut t, self.new_pin_enc.is_some(), 0x05);
        push_tag_if(&mut t, self.pin_hash_enc.is_some(), 0x06);
        push_tag_if(&mut t, self.permissions.is_some(), 0x09);
        push_tag_if(&mut t, self.rp_id.is_some(), 0x0A);
        assert(t@ =~= raw_request_tags(*self));
        t
    }

    fn base(sub: RawSubcommand) -> (r: RawRequest)
        ensures
            r == raw_request_base(sub),
    {
        RawRequest {
            pin_uv_auth_protocol: None,
            sub_command: Some(sub.number()),
            key_agreement: None,
            pin_uv_auth_param: None,
            new_pin_enc: None,
            pin_hash_enc: None,
            permissions: None,
            rp_id: None,
        }
    }

    /// The wire map of a request. Only the fields of its sub-command are set,
    /// and an absent relying party ID is not written.
    pub fn from(value: Request) -> (r: RawRequest)
        ensures
            r == raw_of_request(value),
    {
        let base = RawRequest::base(value.subcommand());
        match value {
            Request::GetPinRetries | Request::GetUvRetries => base,
            Request::GetKeyAgreement { version } => RawRequest {
                pin_uv_auth_protocol: Some(version.number()),
                ..base
            },
            Request::SetPin { version, key_agreement, new_pin_encrypted, pin_uv_auth_param } => RawRequest {
                pin_uv_auth_protocol: Some(version.number()),
                key_agreement: Some(key_agreement.into_raw()),
                pin_uv_auth_param: Some(pin_uv_auth_param),
                new_pin_enc: Some(new_pin_encrypted),
                ..base
            },
            Request::ChangePin {
                version,
                key_agreement,
                pin_hash_encrypted,
                new_pin_encrypted,
                pin_uv_auth_param,
            } => RawRequest {
                pin_uv_auth_protocol: Some(version.number()),
                key_agreement: Some(key_agreement.into_raw()),
                pin_uv_auth_param: Some(pin_uv_auth_param),
                new_pin_enc: Some(new_pin_encrypted),
                pin_hash_enc: Some(pin_hash_encrypted),
                ..base
            },
            Request::GetPinToken { version, key_agreement, pin_hash_encrypted } => RawRequest {
                pin_uv_auth_protocol: Some(version.number()),
                key_agreement: Some(key_agreement.into_raw()),
                pin_hash_enc: Some(pin_hash_encrypted),
                ..base
            },
            Request::GetPinUvAuthTokenUsingUvWithPermissions {
                version,
                key_agreement,
                permissions,
                relying_party_id,
            } => RawRequest {
                pin_uv_auth_protocol: Some(version.number()),
                key_agreement: Some(key_agreement.into_raw()),
                permissions: Some(permissions.to_byte() as u64),
                rp_id: relying_party_id,
                ..base
            },
            Request::GetPinUvAuthTokenUsingPinWithPermissions {
                version,
                key_agreement,
                pin_hash_encrypted,
                permissions,
                relying_party_id,
            } => RawRequest {
                pin_uv_auth_protocol: Some(version.number()),
                key_agreement: Some(key_agreement.into_raw()),
                pin_hash_enc: Some(pin_hash_encrypted),
                permissions: Some(permissions.to_byte() as u64),
                rp_id: relying_party_id,
                ..base
            },
        }
    }
}

impl Request {
    /// The sub-command of this request.
    pub fn subcommand(&self) -> (r: RawSubcommand)
        ensures
            r == self.spec_subcommand(),
    {
        match self {
            Request::GetPinRetries => RawSubcommand::GetPinRetries,
            Request::GetKeyAgreement { .. } => RawSubcommand::GetKeyAgreement,
            Request::SetPin { .. } => RawSubcommand::SetPin,
            Request::ChangePin { .. } => RawSubcommand::ChangePin,
            Request::GetPinToken { .. } => RawSubcommand::GetPinToken,
            Request::GetPinUvAuthTokenUsingUvWithPermissions { .. } => {
                RawSubcommand::GetPinUvAuthTokenUsingUvWithPermissions
            },
            Request::GetUvRetries => RawSubcommand::GetUvRetries,
            Request::GetPinUvAuthTokenUsingPinWithPermissions { .. } => {
                RawSubcommand::GetPinUvAuthTokenUsingPinWithPermissions
            },
        }
    }

    /// Decodes a wire map into a typed request.
    pub fn try_from(value: RawRequest) -> (r: Result<Request, Error>)
        ensures
            r == request_of_raw(value),
            r matches Ok(req) ==> req.wf(),
    {
        let n = match value.sub_command {
            None => return Err(Error::MissingParameter),
            Some(n) => n,
        };
        let sub = match RawSubcommand::from_number(n) {
            None => return Err(Error::InvalidParameter),
            Some(sub) => sub,
        };
        if !value.only_fields_of(sub) {
            return Err(Error::InvalidParameter);
        }
        let RawRequest {
            pin_uv_auth_protocol,
            sub_command: _,
            key_agreement,
            pin_uv_auth_param,
            new_pin_enc,
            pin_hash_enc,
            permissions,
            rp_id,
        } = value;
        match sub {
            RawSubcommand::GetPinRetries => Ok(Request::GetPinRetries),
            RawSubcommand::GetUvRetries => Ok(Request::GetUvRetries),
            RawSubcommand::GetKeyAgreement => {
                let version = read_version(pin_uv_auth_protocol)?;
                Ok(Request::GetKeyAgreement { version })
            },
            RawSubcommand::SetPin => {
                let version = read_version(pin_uv_auth_protocol)?;
                let key_agreement = read_key(key_agreement)?;
                let pin_uv_auth_param = read_bytes(pin_uv_auth_param, PIN_UV_AUTH_PARAM_LEN)?;
                let new_pin_encrypted = read_bytes(new_pin_enc, NEW_PIN_ENC_LEN)?;
                Ok(Request::SetPin { version, key_agreement, new_pin_encrypted, pin_uv_auth_param })
            },
            RawSubcommand::ChangePin => {
                let version = read_version(pin_uv_auth_protocol)?;
                let key_agreement = read_key(key_agreement)?;
                let pin_uv_auth_param = read_bytes(pin_uv_auth_param, PIN_UV_AUTH_PARAM_LEN)?;
                let new_pin_encrypted = read_bytes(new_pin_enc, NEW_PIN_ENC_LEN)?;
                let pin_hash_encrypted = read_bytes(pin_hash_enc, PIN_HASH_ENC_LEN)?;
                Ok(
                    Request::ChangePin {
                        version,
                        key_agreement,
                        pin_hash_encrypted,
                        new_pin_encrypted,
                        pin_uv_auth_param,
                    },
                )
            },
            RawSubcommand::GetPinToken => {
                let version = read_version(pin_uv_auth_protocol)?;
                let key_agreement = read_key(key_agreement)?;
                let pin_hash_encrypted = read_bytes(pin_hash_enc, PIN_HASH_ENC_LEN)?;
                Ok(Request::GetPinToken { version, key_agreement, pin_hash_encrypted })
            },
            RawSubcommand::GetPinUvAuthTokenUsingUvWithPermissions => {
                let version = read_version(pin_uv_auth_protocol)?;
                let key_agreement = read_key(key_agreement)?;
                let permissions = read_permissions(permissions)?;
                Ok(
                    Request::GetPinUvAuthTokenUsingUvWithPermissions {
                        version,
                        key_agreement,
                        permissions,
                        relying_party_id: rp_id,
                    },
                )
            },
            RawSubcommand::GetPinUvAuthTokenUsingPinWithPermissions => {
                let version = read_version(pin_uv_auth_protocol)?;
                let key_agreement = read_key(key_agreement)?;
                let pin_hash_encrypted = read_bytes(pin_hash_enc, PIN_HASH_ENC_LEN)?;
                let permissions = read_permissions(permissions)?;
                Ok(
                    Request::GetPinUvAuthTokenUsingPinWithPermissions {
                        version,
                        key_agreement,
                        pin_hash_encrypted,
                        permissions,
                        relying_party_id: rp_id,
                    },
                )
            },
        }
    }
}


proof fn lemma_permissions_field_round_trip(p: PermissionSet)
    requires
        p.wf(),
        !p@.is_empty(),
    ensures
        permissions_field(Some(p.spec_bits() as u64)) == Ok::<_, Error>(p),
{
    lemma_permission_byte_round_trip(p, 0);
    PermissionSet::lemma_from_own_bits(p);
    assert((p.spec_bits() as u64) as u8 == p.spec_bits());
}

/// A well-formed request decodes from its own wire map.
pub proof fn lemma_request_round_trip(req: Request)
    requires
        req.wf(),
    ensures
        request_of_raw(raw_of_request(req)) == Ok::<_, Error>(req),
{
    match req {
        Request::GetPinRetries | Request::GetUvRetries | Request::GetKeyAgreement { .. } => {},
        Request::SetPin { key_agreement, .. } => {
            lemma_key_round_trip(key_agreement);
        },
        Request::ChangePin { key_agreement, .. } => {
            lemma_key_round_trip(key_agreement);
        },
        Request::GetPinToken { key_agreement, .. } => {
            lemma_key_round_trip(key_agreement);
        },
        Request::GetPinUvAuthTokenUsingUvWithPermissions { key_agreement, permissions, .. } => {
            lemma_key_round_trip(key_agreement);
            lemma_permissions_field_round_trip(permissions);
        },
        Request::GetPinUvAuthTokenUsingPinWithPermissions { key_agreement, permissions, .. } => {
            lemma_key_round_trip(key_agreement);
            lemma_permissions_field_round_trip(permissions);
        },
    }
}

proof fn lemma_key_field_inverse(k: Option<RawCoseKey>)
    ensures
        key_field(k) matches Ok(key) ==> k == Some(raw_of_key(key)),
{
    if let Some(r) = k {
        lemma_raw_key_round_trip(r);
    }
}

proof fn lemma_permissions_field_inverse(p: Option<u64>)
    ensures
        permissions_field(p) matches Ok(s) ==> p == Some(s.spec_bits() as u64),
{
    if let Some(n) = p {
        if n <= 0xFF {
            PermissionSet::lemma_bits_of_from_bits(n as u8);
        }
    }
}

/// A wire map that decodes is exactly the map of the request it decodes to.
pub proof fn lemma_raw_request_round_trip(raw: RawRequest)
    ensures
        request_of_raw(raw) matches Ok(req) ==> raw_of_request(req) == raw,
{
    lemma_key_field_inverse(raw.key_agreement);
    lemma_permissions_field_inverse(raw.permissions);
}

/// Encoding writes only the fields of the request's sub-command, and leaves
/// out a relying party ID that is not given.
pub proof fn lemma_unset_fields_not_written(req: Request)
    ensures
        only_fields_of(raw_of_request(req), req.spec_subcommand()),
        raw_of_request(req).sub_command == Some(subcommand_number(req.spec_subcommand())),
        (req matches Request::GetPinUvAuthTokenUsingUvWithPermissions { relying_party_id: None, .. })
            ==> raw_of_request(req).rp_id is None,
        (req matches Request::GetPinUvAuthTokenUsingPinWithPermissions { relying_party_id: None, .. })
            ==> raw_of_request(req).rp_id is None,
{
}


/// A ClientPIN response: each variant carries the fields of its sub-command.
#[derive(Debug, Clone)]
pub enum Response {
    GetPinRetries { pin_retries: u64, power_cycle_state: Option<u64> },
    GetKeyAgreement { key_agreement: KeyAgreement },
    SetPin,
    ChangePin,
    GetPinToken { pin_uv_auth_token: PinUvAuthToken },
    GetPinUvAuthTokenUsingUvWithPermissions { pin_uv_auth_token: PinUvAuthToken },
    GetUvRetries { uv_retries: UvRetries },
    GetPinUvAuthTokenUsingPinWithPermissions { pin_uv_auth_token: PinUvAuthToken },
}

impl Response {
    pub open spec fn wf(&self) -> bool {
        match self {
            Response::GetKeyAgreement { key_agreement } => key_agreement.wf(),
            Response::GetPinToken { pin_uv_auth_token } => pin_uv_auth_token.wf(),
            Response::GetPinUvAuthTokenUsingUvWithPermissions { pin_uv_auth_token } => pin_uv_auth_token.wf(),
            Response::GetPinUvAuthTokenUsingPinWithPermissions { pin_uv_auth_token } => pin_uv_auth_token.wf(),
            Response::GetUvRetries { uv_retries } => uv_retries.wf(),
            _ => true,
        }
    }

    /// The sub-command that a response answers.
    pub open spec fn spec_subcommand(&self) -> RawSubcommand {
        match self {
            Response::GetPinRetries { .. } => RawSubcommand::GetPinRetries,
            Response::GetKeyAgreement { .. } => RawSubcommand::GetKeyAgreement,
            Response::SetPin => RawSubcommand::SetPin,
            Response::ChangePin => RawSubcommand::ChangePin,
            Response::GetPinToken { .. } => RawSubcommand::GetPinToken,
            Response::GetPinUvAuthTokenUsingUvWithPermissions { .. } => {
                RawSubcommand::GetPinUvAuthTokenUsingUvWithPermissions
            },
            Response::GetUvRetries { .. } => RawSubcommand::GetUvRetries,
            Response::GetPinUvAuthTokenUsingPinWithPermissions { .. } => {
                RawSubcommand::GetPinUvAuthTokenUsingPinWithPermissions
            },
        }
    }
}

/// The integer-tagged map of a ClientPIN response: keyAgreement (0x01),
/// pinUvAuthToken (0x02), pinRetries (0x03), powerCycleState (0x04) and
/// uvRetries (0x05).
#[derive(Debug, Clone)]
pub struct RawResponse {
    pub key_agreement: Option<RawCoseKey>,
    pub pin_uv_auth_token: Option<Vec<u8>>,
    pub pin_retries: Option<u64>,
    pub power_cycle_state: Option<u64>,
    pub uv_retries: Option<u64>,
}

pub open spec fn empty_raw_response() -> RawResponse {
    RawResponse {
        key_agreement: None,
        pin_uv_auth_token: None,
        pin_retries: None,
        power_cycle_state: None,
        uv_retries: None,
    }
}

/// The wire map of a response.
pub open spec fn raw_of_response(r: Response) -> RawResponse {
    let e = empty_raw_response();
    match r {
        Response::GetPinRetries { pin_retries, power_cycle_state } => RawResponse {
            pin_retries: Some(pin_retries),
            power_cycle_state,
            ..e
        },
        Response::GetKeyAgreement { key_agreement } => RawResponse {
            key_agreement: Some(raw_of_key(key_agreement)),
            ..e
        },
        Response::SetPin | Response::ChangePin => e,
        Response::GetPinToken { pin_uv_auth_token } => RawResponse {
            pin_uv_auth_token: Some(bytes_of_token(pin_uv_auth_token)),
            ..e
        },
        Response::GetPinUvAuthTokenUsingUvWithPermissions { pin_uv_auth_token } => RawResponse {
            pin_uv_auth_token: Some(bytes_of_token(pin_uv_auth_token)),
            ..e
        },
        Response::GetUvRetries { uv_retries } => RawResponse {
            uv_retries: Some(uv_retries.spec_get()),
            ..e
        },
        Response::GetPinUvAuthTokenUsingPinWithPermissions { pin_uv_auth_token } => RawResponse {
            pin_uv_auth_token: Some(bytes_of_token(pin_uv_auth_token)),
            ..e
        },
    }
}

/// A required pinUvAuthToken of 16 or 32 bytes.
pub open spec fn token_field(t: Option<Vec<u8>>) -> Result<PinUvAuthToken, Error> {
    match t {
        None => Err(Error::MissingParameter),
        Some(b) => token_of_bytes(b),
    }
}

/// What a response map decodes to, given the sub-command it answers. Fields
/// that the sub-command does not use are ignored.
pub open spec fn response_of_raw(r: RawResponse, sub: RawSubcommand) -> Result<Response, Error> {
    match sub {
        RawSubcommand::GetPinRetries => match r.pin_retries {
            None => Err(Error::MissingParameter),
            Some(pin_retries) => Ok(
                Response::GetPinRetries { pin_retries, power_cycle_state: r.power_cycle_state },
            ),
        },
        RawSubcommand::GetKeyAgreement => match key_field(r.key_agreement) {
            Err(e) => Err(e),
            Ok(key_agreement) => Ok(Response::GetKeyAgreement { key_agreement }),
        },
        RawSubcommand::SetPin => Ok(Response::SetPin),
        RawSubcommand::ChangePin => Ok(Response::ChangePin),
        RawSubcommand::GetPinToken => match token_field(r.pin_uv_auth_token) {
            Err(e) => Err(e),
            Ok(pin_uv_auth_token) => Ok(Response::GetPinToken { pin_uv_auth_token }),
        },
        RawSubcommand::GetPinUvAuthTokenUsingUvWithPermissions => match token_field(r.pin_uv_auth_token) {
            Err(e) => Err(e),
            Ok(pin_uv_auth_token) => Ok(
                Response::GetPinUvAuthTokenUsingUvWithPermissions { pin_uv_auth_token },
            ),
        },
        RawSubcommand::GetUvRetries => match r.uv_retries {
            None => Err(Error::MissingParameter),
            Some(n) => if 1 <= n <= MAX_UV_RETRIES {
                Ok(Response::GetUvRetries { uv_retries: UvRetries::spec_new(n) })
            } else {
                Err(Error::InvalidParameter)
            },
        },
        RawSubcommand::GetPinUvAuthTokenUsingPinWithPermissions => match token_field(r.pin_uv_auth_token) {
            Err(e) => Err(e),
            Ok(pin_uv_auth_token) => Ok(
                Response::GetPinUvAuthTokenUsingPinWithPermissions { pin_uv_auth_token },
            ),
        },
    }
}

fn read_token(t: Option<Vec<u8>>) -> (r: Result<PinUvAuthToken, Error>)
    ensures
        r == token_field(t),
        r matches Ok(tok) ==> tok.wf(),
{
    match t {
        None => Err(Error::MissingParameter),
        Some(b) => if b.len() == SHORT_TOKEN_LEN {
            Ok(PinUvAuthToken::Short(b))
        } else if b.len() == LONG_TOKEN_LEN {
            Ok(PinUvAuthToken::Long(b))
        } else {
            Err(Error::InvalidParameter)
        },
    }
}

impl PinUvAuthToken {
    /// The token's bytes.
    pub fn into_bytes(self) -> (r: Vec<u8>)
        ensures
            r == bytes_of_token(self),
    {
        match self {
            PinUvAuthToken::Short(b) => b,
            PinUvAuthToken::Long(b) => b,
        }
    }
}

impl RawResponse {
    /// The wire map of a response; only the fields of its sub-command are set.
    pub fn from(value: Response) -> (r: RawResponse)
        ensures
            r == raw_of_response(value),
    {
        let e = RawResponse {
            key_agreement: None,
            pin_uv_auth_token: None,
            pin_retries: None,
            power_cycle_state: None,
            uv_retries: None,
        };
        match value {
            Response::GetPinRetries { pin_retries, power_cycle_state } => RawResponse {
                pin_retries: Some(pin_retries),
                power_cycle_state,
                ..e
            },
            Response::GetKeyAgreement { key_agreement } => RawResponse {
                key_agreement: Some(key_agreement.into_raw()),
                ..e
            },
            Response::SetPin | Response::ChangePin => e,
            Response::GetPinToken { pin_uv_auth_token } => RawResponse {
                pin_uv_auth_token: Some(pin_uv_auth_token.into_bytes()),
                ..e
            },
            Response::GetPinUvAuthTokenUsingUvWithPermissions { pin_uv_auth_token } => RawResponse {
                pin_uv_auth_token: Some(pin_uv_auth_token.into_bytes()),
                ..e
            },
            Response::GetUvRetries { uv_retries } => RawResponse {
                uv_retries: Some(uv_retries.get()),
                ..e
            },
            Response::GetPinUvAuthTokenUsingPinWithPermissions { pin_uv_auth_token } => RawResponse {
                pin_uv_auth_token: Some(pin_uv_auth_token.into_bytes()),
                ..e
            },
        }
    }
}

impl Response {
    /// Decodes the response map to a request of sub-command `sub`.
    pub fn try_from(value: RawResponse, sub: RawSubcommand) -> (r: Result<Response, Error>)
        ensures
            r == response_of_raw(value, sub),
            r matches Ok(resp) ==> resp.wf() && resp.spec_subcommand() == sub,
    {
        match sub {
            RawSubcommand::GetPinRetries => match value.pin_retries {
                None => Err(Error::MissingParameter),
                Some(pin_retries) => Ok(
                    Response::GetPinRetries { pin_retries, power_cycle_state: value.power_cycle_state },
                ),
            },
            RawSubcommand::GetKeyAgreement => {
                let key_agreement = read_key(value.key_agreement)?;
                Ok(Response::GetKeyAgreement { key_agreement })
            },
            RawSubcommand::SetPin => Ok(Response::SetPin),
            RawSubcommand::ChangePin => Ok(Response::ChangePin),
            RawSubcommand::GetPinToken => {
                let pin_uv_auth_token = read_token(value.pin_uv_auth_token)?;
                Ok(Response::GetPinToken { pin_uv_auth_token })
            },
            RawSubcommand::GetPinUvAuthTokenUsingUvWithPermissions => {
                let pin_uv_auth_token = read_token(value.pin_uv_auth_token)?;
                Ok(Response::GetPinUvAuthTokenUsingUvWithPermissions { pin_uv_auth_token })
            },
            RawSubcommand::GetUvRetries => match value.uv_retries {
                None => Err(Error::MissingParameter),
                Some(n) => match UvRetries::new(n) {
                    Some(uv_retries) => Ok(Response::GetUvRetries { uv_retries }),
                    None => Err(Error::InvalidParameter),
                },
            },
            RawSubcommand::GetPinUvAuthTokenUsingPinWithPermissions => {
                let pin_uv_auth_token = read_token(value.pin_uv_auth_token)?;
                Ok(Response::GetPinUvAuthTokenUsingPinWithPermissions { pin_uv_auth_token })
            },
        }
    }
}

/// A well-formed response decodes from its own wire map.
pub proof fn lemma_response_round_trip(resp: Response)
    requires
        resp.wf(),
    ensures
        response_of_raw(raw_of_response(resp), resp.spec_subcommand()) == Ok::<_, Error>(resp),
{
    match resp {
        Response::GetKeyAgreement { key_agreement } => {
            lemma_key_round_trip(key_agreement);
        },
        Response::GetUvRetries { uv_retries } => {
            UvRetries::lemma_new_get(uv_retries);
        },
        _ => {},
    }
}


/// The fields that a response to `sub` does not use are absent.
pub open spec fn response_fields_of(r: RawResponse, sub: RawSubcommand) -> bool {
    match sub {
        RawSubcommand::GetPinRetries => r.key_agreement is None && r.pin_uv_auth_token is None
            && r.uv_retries is None,
        RawSubcommand::GetKeyAgreement => r.pin_uv_auth_token is None && r.pin_retries is None
            && r.power_cycle_state is None && r.uv_retries is None,
        RawSubcommand::SetPin | RawSubcommand::ChangePin => r.key_agreement is None
            && r.pin_uv_auth_token is None && r.pin_retries is None && r.power_cycle_state is None
            && r.uv_retries is None,
        RawSubcommand::GetUvRetries => r.key_agreement is None && r.pin_uv_auth_token is None
            && r.pin_retries is None && r.power_cycle_state is None,
        _ => r.key_agreement is None && r.pin_retries is None && r.power_cycle_state is None
            && r.uv_retries is None,
    }
}

/// Encoding a response writes only the fields of its sub-command, and leaves
/// out a power-cycle state that is not given.
pub proof fn lemma_unset_response_fields_not_written(resp: Response)
    ensures
        response_fields_of(raw_of_response(resp), resp.spec_subcommand()),
        (resp matches Response::GetPinRetries { power_cycle_state: None, .. })
            ==> raw_of_response(resp).power_cycle_state is None,
{
}


/// The protocol version a request names, if it names one.
pub open spec fn request_version(r: Request) -> Option<Version> {
    match r {
        Request::GetPinRetries | Request::GetUvRetries => None,
        Request::GetKeyAgreement { version } => Some(version),
        Request::SetPin { version, .. } => Some(version),
        Request::ChangePin { version, .. } => Some(version),
        Request::GetPinToken { version, .. } => Some(version),
        Request::GetPinUvAuthTokenUsingUvWithPermissions { version, .. } => Some(version),
        Request::GetPinUvAuthTokenUsingPinWithPermissions { version, .. } => Some(version),
    }
}

/// Whether the authenticator lists the protocol version a request names.
pub open spec fn version_supported(r: Request, info: Info) -> bool {
    request_version(r) matches Some(v) ==> (info.spec_parts().pin_uv_auth_protocols matches Some(ps)
        && ps@.contains(v))
}

impl Request {
    /// The protocol version this request names, if it names one.
    pub fn version(&self) -> (r: Option<Version>)
        ensures
            r == request_version(*self),
    {
        match self {
            Request::GetPinRetries | Request::GetUvRetries => None,
            Request::GetKeyAgreement { version } => Some(*version),
            Request::SetPin { version, .. } => Some(*version),
            Request::ChangePin { version, .. } => Some(*version),
            Request::GetPinToken { version, .. } => Some(*version),
            Request::GetPinUvAuthTokenUsingUvWithPermissions { version, .. } => Some(*version),
            Request::GetPinUvAuthTokenUsingPinWithPermissions { version, .. } => Some(*version),
        }
    }

    /// Refuses, before it is sent, a request whose protocol version the
    /// authenticator does not list.
    pub fn check_against(&self, info: &Info) -> (r: Result<(), Error>)
        ensures
            r is Ok <==> version_supported(*self, *info),
            r is Err ==> r == Err::<(), _>(Error::InvalidParameter),
    {
        match self.version() {
            None => Ok(()),
            Some(v) => {
                let listed = match &info.parts().pin_uv_auth_protocols {
                    Some(ps) => lists_version(ps, v),
                    None => false,
                };
                if listed {
                    Ok(())
                } else {
                    Err(Error::InvalidParameter)
                }
            },
        }
    }
}

} // verus!
