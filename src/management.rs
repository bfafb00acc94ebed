//! The authenticatorCredentialManagement command and the enumeration cursor
//! that its multi-step sub-commands share.

use vstd::prelude::*;
use crate::client_pin::{version_number, version_of_number, Version};
use crate::command::Command;
use crate::entities::{Descriptor, RelyingPartyEntity, UserEntity};
use crate::extensions::Policy;

verus! {

#[derive(Debug, Clone)]
pub enum Request {
    GetCredentialsMetadata { pin_uv_auth_protocol: Version, pin_uv_auth_param: Vec<u8> },
    EnumerateRPsBegin { pin_uv_auth_protocol: Version, pin_uv_auth_param: Vec<u8> },
    EnumerateRPsGetNextRP,
    EnumerateCredentialsBegin {
        relying_party_id_hash: Vec<u8>,
        pin_uv_auth_protocol: Version,
        pin_uv_auth_param: Vec<u8>,
    },
    EnumerateCredentialsGetNextCredential,
    DeleteCredential {
        credential_id: Descriptor,
        pin_uv_auth_protocol: Version,
        pin_uv_auth_param: Vec<u8>,
    },
    UpdateUserInformation {
        credential_id: Descriptor,
        user: UserEntity,
        pin_uv_auth_protocol: Version,
        pin_uv_auth_param: Vec<u8>,
    },
}

#[derive(Debug, Clone)]
pub enum Response {
    GetCredentialsMetadata {
        existing_resident_credentials_count: u64,
        max_possible_remaining_resident_credentials_count: u64,
    },
    EnumerateRPsBegin { relying_party: RelyingParty, total_relying_parties: u64 },
    EnumerateRPsGetNextRP { relying_party: RelyingParty },
    EnumerateCredentialsBegin { credential: Credential, total_credentials: u64 },
    EnumerateCredentialsGetNextCredential { credential: Credential },
    DeleteCredential,
    UpdateUserInformation,
}

#[derive(Debug, Clone)]
pub struct RelyingParty {
    pub relying_party: RelyingPartyEntity,
    pub relying_party_id_hash: Vec<u8>,
}

#[derive(Debug, Clone)]
pub struct Credential {
    pub user: UserEntity,
    pub credential_id: Descriptor,
    pub public_key: Vec<u8>,
    pub credential_protection_policy: Policy,
    pub large_blob_key: Vec<u8>,
}

#[derive(Debug, Clone, Copy, PartialEq, Eq, Structural)]
pub enum Error {
    PinUvAuthTokenRequired,
    MissingParameter,
    InvalidParameter,
    PinAuthInvalid,
    NoCredentials,
    KeyStoreFull,
    /// A "get next" sub-command without a live enumeration.
    NotAllowed,
}

/// The description of each error.
pub open spec fn error_message(e: Error) -> Seq<char> {
    match e {
        Error::PinUvAuthTokenRequired => "PIN/UV auth token required"@,
        Error::MissingParameter => "Missing parameter"@,
        Error::InvalidParameter => "Invalid parameter"@,
        Error::PinAuthInvalid => "PIN auth invalid"@,
        Error::NoCredentials => "No credentials"@,
        Error::KeyStoreFull => "Key store full"@,
        Error::NotAllowed => "Not allowed"@,
    }
}

impl Error {
    /// A short description of the error.
    pub fn message(&self) -> (r: &'static str)
        ensures
            r@ == error_message(*self),
    {
        match self {
            Error::PinUvAuthTokenRequired => "PIN/UV auth token required",
            Error::MissingParameter => "Missing parameter",
            Error::InvalidParameter => "Invalid parameter",
            Error::PinAuthInvalid => "PIN auth invalid",
            Error::NoCredentials => "No credentials",
            Error::KeyStoreFull => "Key store full",
            Error::NotAllowed => "Not allowed",
        }
    }
}

/// The sub-commands of authenticatorCredentialManagement.
#[derive(Debug, Clone, Copy, PartialEq, Eq, Structural)]
pub enum RawSubcommand {
    GetCredsMetadata,
    EnumerateRpsBegin,
    EnumerateRpsGetNextRp,
    EnumerateCredentialsBegin,
    EnumerateCredentialsGetNextCredential,
    DeleteCredential,
    UpdateUserInformation,
}

pub open spec fn subcommand_number(s: RawSubcommand) -> u8 {
    match s {
        RawSubcommand::GetCredsMetadata => 0x01,
        RawSubcommand::EnumerateRpsBegin => 0x02,
        RawSubcommand::EnumerateRpsGetNextRp => 0x03,
        RawSubcommand::EnumerateCredentialsBegin => 0x04,
        RawSubcommand::EnumerateCredentialsGetNextCredential => 0x05,
        RawSubcommand::DeleteCredential => 0x06,
        RawSubcommand::UpdateUserInformation => 0x07,
    }
}

impl RawSubcommand {
    pub fn number(&self) -> (r: u8)
        ensures
            r == subcommand_number(*self),
    {
        match self {
            RawSubcommand::GetCredsMetadata => 0x01,
            RawSubcommand::EnumerateRpsBegin => 0x02,
            RawSubcommand::EnumerateRpsGetNextRp => 0x03,
            RawSubcommand::EnumerateCredentialsBegin => 0x04,
            RawSubcommand::EnumerateCredentialsGetNextCredential => 0x05,
            RawSubcommand::DeleteCredential => 0x06,
            RawSubcommand::UpdateUserInformation => 0x07,
        }
    }

    /// The sub-command a wire byte names; an unknown byte is `InvalidParameter`.
    pub fn try_from(value: u8) -> (r: Result<RawSubcommand, Error>)
        ensures
            r matches Ok(s) ==> subcommand_number(s) == value,
            r is Err <==> !(1 <= value <= 7),
            r matches Err(e) ==> e == Error::InvalidParameter,
    {
        if value == 0x01 {
            Ok(RawSubcommand::GetCredsMetadata)
        } else if value == 0x02 {
            Ok(RawSubcommand::EnumerateRpsBegin)
        } else if value == 0x03 {
            Ok(RawSubcommand::EnumerateRpsGetNextRp)
        } else if value == 0x04 {
            Ok(RawSubcommand::EnumerateCredentialsBegin)
        } else if value == 0x05 {
            Ok(RawSubcommand::EnumerateCredentialsGetNextCredential)
        } else if value == 0x06 {
            Ok(RawSubcommand::DeleteCredential)
        } else if value == 0x07 {
            Ok(RawSubcommand::UpdateUserInformation)
        } else {
            Err(Error::InvalidParameter)
        }
    }
}

impl Request {
    pub open spec fn spec_subcommand(&self) -> RawSubcommand {
        match self {
            Request::GetCredentialsMetadata { .. } => RawSubcommand::GetCredsMetadata,
            Request::EnumerateRPsBegin { .. } => RawSubcommand::EnumerateRpsBegin,
            Request::EnumerateRPsGetNextRP => RawSubcommand::EnumerateRpsGetNextRp,
            Request::EnumerateCredentialsBegin { .. } => RawSubcommand::EnumerateCredentialsBegin,
            Request::EnumerateCredentialsGetNextCredential => {
                RawSubcommand::EnumerateCredentialsGetNextCredential
            },
            Request::DeleteCredential { .. } => RawSubcommand::DeleteCredential,
            Request::UpdateUserInformation { .. } => RawSubcommand::UpdateUserInformation,
        }
    }

    /// The sub-command of this request.
    pub fn subcommand(&self) -> (r: RawSubcommand)
        ensures
            r == self.spec_subcommand(),
    {
        match self {
            Request::GetCredentialsMetadata { .. } => RawSubcommand::GetCredsMetadata,
            Request::EnumerateRPsBegin { .. } => RawSubcommand::EnumerateRpsBegin,
            Request::EnumerateRPsGetNextRP => RawSubcommand::EnumerateRpsGetNextRp,
            Request::EnumerateCredentialsBegin { .. } => RawSubcommand::EnumerateCredentialsBegin,
            Request::EnumerateCredentialsGetNextCredential => {
                RawSubcommand::EnumerateCredentialsGetNextCredential
            },
            Request::DeleteCredential { .. } => RawSubcommand::DeleteCredential,
            Request::UpdateUserInformation { .. } => RawSubcommand::UpdateUserInformation,
        }
    }
}

/// The length of a pinUvAuthParam.
pub const PIN_UV_AUTH_PARAM_LEN: usize = 16;
/// The length of an RP ID hash.
pub const RP_ID_HASH_LEN: usize = 32;

impl Request {
    /// The RP ID hash and auth param have their fixed lengths, and
    /// descriptors and users their bounds.
    pub open spec fn wf(&self) -> bool {
        match self {
            Request::GetCredentialsMetadata { pin_uv_auth_param, .. } | Request::EnumerateRPsBegin {
                pin_uv_auth_param,
                ..
            } => pin_uv_auth_param@.len() == PIN_UV_AUTH_PARAM_LEN,
            Request::EnumerateRPsGetNextRP | Request::EnumerateCredentialsGetNextCredential => true,
            Request::EnumerateCredentialsBegin { relying_party_id_hash, pin_uv_auth_param, .. } => {
                relying_party_id_hash@.len() == RP_ID_HASH_LEN && pin_uv_auth_param@.len()
                    == PIN_UV_AUTH_PARAM_LEN
            },
            Request::DeleteCredential { credential_id, pin_uv_auth_param, .. } => credential_id.wf()
                && pin_uv_auth_param@.len() == PIN_UV_AUTH_PARAM_LEN,
            Request::UpdateUserInformation { credential_id, user, pin_uv_auth_param, .. } => {
                credential_id.wf() && user.wf() && pin_uv_auth_param@.len() == PIN_UV_AUTH_PARAM_LEN
            },
        }
    }
}

/// The integer-tagged map of a credential management request: subCommand
/// (0x01), the subCommandParams map (0x02) with rpIDHash (0x01),
/// credentialID (0x02) and user (0x03), pinUvAuthProtocol (0x03) and
/// pinUvAuthParam (0x04). The parameters map is held flat.
#[derive(Debug, Clone)]
pub struct RawRequest {
    pub sub_command: Option<u64>,
    pub rp_id_hash: Option<Vec<u8>>,
    pub credential_id: Option<Descriptor>,
    pub user: Option<UserEntity>,
    pub pin_uv_auth_protocol: Option<u64>,
    pub pin_uv_auth_param: Option<Vec<u8>>,
}

pub open spec fn raw_request_base(sub: RawSubcommand) -> RawRequest {
    RawRequest {
        sub_command: Some(subcommand_number(sub) as u64),
        rp_id_hash: None,
        credential_id: None,
        user: None,
        pin_uv_auth_protocol: None,
        pin_uv_auth_param: None,
    }
}

/// The wire map of a request.
pub open spec fn raw_of_request(r: Request) -> RawRequest {
    let base = raw_request_base(r.spec_subcommand());
    match r {
        Request::EnumerateRPsGetNextRP | Request::EnumerateCredentialsGetNextCredential => base,
        Request::GetCredentialsMetadata { pin_uv_auth_protocol, pin_uv_auth_param }
        | Request::EnumerateRPsBegin { pin_uv_auth_protocol, pin_uv_auth_param } => RawRequest {
            pin_uv_auth_protocol: Some(version_number(pin_uv_auth_protocol)),
            pin_uv_auth_param: Some(pin_uv_auth_param),
            ..base
        },
        Request::EnumerateCredentialsBegin { relying_party_id_hash, pin_uv_auth_protocol, pin_uv_auth_param } => RawRequest {
            rp_id_hash: Some(relying_party_id_hash),
            pin_uv_auth_protocol: Some(version_number(pin_uv_auth_protocol)),
            pin_uv_auth_param: Some(pin_uv_auth_param),
            ..base
        },
        Request::DeleteCredential { credential_id, pin_uv_auth_protocol, pin_uv_auth_param } => RawRequest {
            credential_id: Some(credential_id),
            pin_uv_auth_protocol: Some(version_number(pin_uv_auth_protocol)),
            pin_uv_auth_param: Some(pin_uv_auth_param),
            ..base
        },
        Request::UpdateUserInformation { credential_id, user, pin_uv_auth_protocol, pin_uv_auth_param } => RawRequest {
            credential_id: Some(credential_id),
            user: Some(user),
            pin_uv_auth_protocol: Some(version_number(pin_uv_auth_protocol)),
            pin_uv_auth_param: Some(pin_uv_auth_param),
            ..base
        },
    }
}

/// The sub-command a wire integer names.
pub open spec fn subcommand_of_number(n: u64) -> Option<RawSubcommand> {
    if 1 <= n <= 7 {
        Some(
            if n == 1 {
                RawSubcommand::GetCredsMetadata
            } else if n == 2 {
                RawSubcommand::EnumerateRpsBegin
            } else if n == 3 {
                RawSubcommand::EnumerateRpsGetNextRp
            } else if n == 4 {
                RawSubcommand::EnumerateCredentialsBegin
            } else if n == 5 {
                RawSubcommand::EnumerateCredentialsGetNextCredential
            } else if n == 6 {
                RawSubcommand::DeleteCredential
            } else {
                RawSubcommand::UpdateUserInformation
            },
        )
    } else {
        None
    }
}

/// The fields that a sub-command does not use are absent.
pub open spec fn only_fields_of(r: RawRequest, sub: RawSubcommand) -> bool {
    match sub {
        RawSubcommand::EnumerateRpsGetNextRp | RawSubcommand::EnumerateCredentialsGetNextCredential => {
            r.rp_id_hash is None && r.credential_id is None && r.user is None && r.pin_uv_auth_protocol
                is None && r.pin_uv_auth_param is None
        },
        RawSubcommand::GetCredsMetadata | RawSubcommand::EnumerateRpsBegin => r.rp_id_hash is None
            && r.credential_id is None && r.user is None,
        RawSubcommand::EnumerateCredentialsBegin => r.credential_id is None && r.user is None,
        RawSubcommand::DeleteCredential => r.rp_id_hash is None && r.user is None,
        RawSubcommand::UpdateUserInformation => r.rp_id_hash is None,
    }
}

pub open spec fn protocol_field(v: Option<u64>) -> Result<Version, Error> {
    match v {
        None => Err(Error::MissingParameter),
        Some(n) => match version_of_number(n) {
            Ok(v) => Ok(v),
            Err(_) => Err(Error::InvalidParameter),
        },
    }
}

pub open spec fn bytes_field(b: Option<Vec<u8>>, len: usize) -> Result<Vec<u8>, Error> {
    match b {
        None => Err(Error::MissingParameter),
        Some(v) => if v@.len() == len {
            Ok(v)
        } else {
            Err(Error::InvalidParameter)
        },
    }
}

pub open spec fn descriptor_field(d: Option<Descriptor>) -> Result<Descriptor, Error> {
    match d {
        None => Err(Error::MissingParameter),
        Some(d) => if d.wf() {
            Ok(d)
        } else {
            Err(Error::InvalidParameter)
        },
    }
}

pub open spec fn user_field(u: Option<UserEntity>) -> Result<UserEntity, Error> {
    match u {
        None => Err(Error::MissingParameter),
        Some(u) => if u.wf() {
            Ok(u)
        } else {
            Err(Error::InvalidParameter)
        },
    }
}

/// The typed request of a wire map whose sub-command is known and which
/// carries no foreign field. Parameters are read first, in tag order, then
/// the protocol version and the auth param.
pub open spec fn typed_request(r: RawRequest, sub: RawSubcommand) -> Result<Request, Error> {
    match sub {
        RawSubcommand::EnumerateRpsGetNextRp => Ok(Request::EnumerateRPsGetNextRP),
        RawSubcommand::EnumerateCredentialsGetNextCredential => Ok(Request::EnumerateCredentialsGetNextCredential),
        RawSubcommand::GetCredsMetadata | RawSubcommand::EnumerateRpsBegin => match protocol_field(r.pin_uv_auth_protocol) {
            Err(e) => Err(e),
            Ok(pin_uv_auth_protocol) => match bytes_field(r.pin_uv_auth_param, PIN_UV_AUTH_PARAM_LEN) {
                Err(e) => Err(e),
                Ok(pin_uv_auth_param) => Ok(
                    if sub == RawSubcommand::GetCredsMetadata {
                        Request::GetCredentialsMetadata { pin_uv_auth_protocol, pin_uv_auth_param }
                    } else {
                        Request::EnumerateRPsBegin { pin_uv_auth_protocol, pin_uv_auth_param }
                    },
                ),
            },
        },
        RawSubcommand::EnumerateCredentialsBegin => match bytes_field(r.rp_id_hash, RP_ID_HASH_LEN) {
            Err(e) => Err(e),
            Ok(relying_party_id_hash) => match protocol_field(r.pin_uv_auth_protocol) {
                Err(e) => Err(e),
                Ok(pin_uv_auth_protocol) => match bytes_field(r.pin_uv_auth_param, PIN_UV_AUTH_PARAM_LEN) {
                    Err(e) => Err(e),
                    Ok(pin_uv_auth_param) => Ok(
                        Request::EnumerateCredentialsBegin { relying_party_id_hash, pin_uv_auth_protocol, pin_uv_auth_param },
                    ),
                },
            },
        },
        RawSubcommand::DeleteCredential => match descriptor_field(r.credential_id) {
            Err(e) => Err(e),
            Ok(credential_id) => match protocol_field(r.pin_uv_auth_protocol) {
                Err(e) => Err(e),
                Ok(pin_uv_auth_protocol) => match bytes_field(r.pin_uv_auth_param, PIN_UV_AUTH_PARAM_LEN) {
                    Err(e) => Err(e),
                    Ok(pin_uv_auth_param) => Ok(
                        Request::DeleteCredential { credential_id, pin_uv_auth_protocol, pin_uv_auth_param },
                    ),
                },
            },
        },
        RawSubcommand::UpdateUserInformation => match descriptor_field(r.credential_id) {
            Err(e) => Err(e),
            Ok(credential_id) => match user_field(r.user) {
                Err(e) => Err(e),
                Ok(user) => match protocol_field(r.pin_uv_auth_protocol) {
                    Err(e) => Err(e),
                    Ok(pin_uv_auth_protocol) => match bytes_field(r.pin_uv_auth_param, PIN_UV_AUTH_PARAM_LEN) {
                        Err(e) => Err(e),
                        Ok(pin_uv_auth_param) => Ok(
                            Request::UpdateUserInformation { credential_id, user, pin_uv_auth_protocol, pin_uv_auth_param },
                        ),
                    },
                },
            },
        },
    }
}

/// What a wire map decodes to: a missing sub-command is `MissingParameter`,
/// an unknown one or a foreign field `InvalidParameter`.
pub open spec fn request_of_raw(r: RawRequest) -> Result<Request, Error> {
    match r.sub_command {
        None => Err(Error::MissingParameter),
        Some(n) => match subcommand_of_number(n) {
            None => Err(Error::InvalidParameter),
            Some(sub) => if !only_fields_of(r, sub) {
                Err(Error::InvalidParameter)
            } else {
                typed_request(r, sub)
            },
        },
    }
}

fn read_protocol(v: Option<u64>) -> (r: Result<Version, Error>)
    ensures
        r == protocol_field(v),
{
    match v {
        None => Err(Error::MissingParameter),
        Some(n) => match Version::from_number(n) {
            Ok(v) => Ok(v),
            Err(_) => Err(Error::InvalidParameter),
        },
    }
}

fn read_bytes(b: Option<Vec<u8>>, len: usize) -> (r: Result<Vec<u8>, Error>)
    ensures
        r == bytes_field(b, len),
{
    match b {
        None => Err(Error::MissingParameter),
        Some(v) => if v.len() == len {
            Ok(v)
        } else {
            Err(Error::InvalidParameter)
        },
    }
}

fn read_descriptor(d: Option<Descriptor>) -> (r: Result<Descriptor, Error>)
    ensures
        r == descriptor_field(d),
{
    match d {
        None => Err(Error::MissingParameter),
        Some(d) => if d.validate().is_ok() {
            Ok(d)
        } else {
            Err(Error::InvalidParameter)
        },
    }
}

fn read_user(u: Option<UserEntity>) -> (r: Result<UserEntity, Error>)
    ensures
        r == user_field(u),
{
    match u {
        None => Err(Error::MissingParameter),
        Some(u) => if u.id.len() <= crate::entities::MAX_USER_ID_LEN {
            Ok(u)
        } else {
            Err(Error::InvalidParameter)
        },
    }
}

impl RawRequest {
    /// Whether the fields that `sub` does not use are absent.
    pub fn only_fields_of(&self, sub: RawSubcommand) -> (r: bool)
        ensures
            r == only_fields_of(*self, sub),
    {
        let r = self;
        match sub {
            RawSubcommand::EnumerateRpsGetNextRp | RawSubcommand::EnumerateCredentialsGetNextCredential => {
                r.rp_id_hash.is_none() && r.credential_id.is_none() && r.user.is_none()
                    && r.pin_uv_auth_protocol.is_none() && r.pin_uv_auth_param.is_none()
            },
            RawSubcommand::GetCredsMetadata | RawSubcommand::EnumerateRpsBegin => r.rp_id_hash.is_none()
                && r.credential_id.is_none() && r.user.is_none(),
            RawSubcommand::EnumerateCredentialsBegin => r.credential_id.is_none() && r.user.is_none(),
            RawSubcommand::DeleteCredential => r.rp_id_hash.is_none() && r.user.is_none(),
            RawSubcommand::UpdateUserInformation => r.rp_id_hash.is_none(),
        }
    }

    /// The wire map of a request; only the fields of its sub-command are set.
    pub fn from(value: Request) -> (r: RawRequest)
        ensures
            r == raw_of_request(value),
    {
        let base = RawRequest {
            sub_command: Some(value.subcommand().number() as u64),
            rp_id_hash: None,
            credential_id: None,
            user: None,
            pin_uv_auth_protocol: None,
            pin_uv_auth_param: None,
        };
        match value {
            Request::EnumerateRPsGetNextRP | Request::EnumerateCredentialsGetNextCredential => base,
            Request::GetCredentialsMetadata { pin_uv_auth_protocol, pin_uv_auth_param }
            | Request::EnumerateRPsBegin { pin_uv_auth_protocol, pin_uv_auth_param } => RawRequest {
                pin_uv_auth_protocol: Some(pin_uv_auth_protocol.number()),
                pin_uv_auth_param: Some(pin_uv_auth_param),
                ..base
            },
            Request::EnumerateCredentialsBegin { relying_party_id_hash, pin_uv_auth_protocol, pin_uv_auth_param } => RawRequest {
                rp_id_hash: Some(relying_party_id_hash),
                pin_uv_auth_protocol: Some(pin_uv_auth_protocol.number()),
                pin_uv_auth_param: Some(pin_uv_auth_param),
                ..base
            },
            Request::DeleteCredential { credential_id, pin_uv_auth_protocol, pin_uv_auth_param } => RawRequest {
                credential_id: Some(credential_id),
                pin_uv_auth_protocol: Some(pin_uv_auth_protocol.number()),
                pin_uv_auth_param: Some(pin_uv_auth_param),
                ..base
            },
            Request::UpdateUserInformation { credential_id, user, pin_uv_auth_protocol, pin_uv_auth_param } => RawRequest {
                credential_id: Some(credential_id),
                user: Some(user),
                pin_uv_auth_protocol: Some(pin_uv_auth_protocol.number()),
                pin_uv_auth_param: Some(pin_uv_auth_param),
                ..base
            },
        }
    }
}

impl Request {
    /// Decodes a wire map into a typed request.
    pub fn try_from(value: RawRequest) -> (r: Result<Request, Error>)
        ensures
            r == request_of_raw(value),
            r matches Ok(req) ==> req.wf(),
    {
        let n = match value.sub_command {
            None => return Err(Error::MissingParameter),
            Some(n) => n,
        };
        if n == 0 || n > 7 {
            return Err(Error::InvalidParameter);
        }
        let sub = match RawSubcommand::try_from(n as u8) {
            Ok(sub) => sub,
            Err(e) => return Err(e),
        };
        if !value.only_fields_of(sub) {
            return Err(Error::InvalidParameter);
        }
        let RawRequest { sub_command: _, rp_id_hash, credential_id, user, pin_uv_auth_protocol, pin_uv_auth_param } = value;
        match sub {
            RawSubcommand::EnumerateRpsGetNextRp => Ok(Request::EnumerateRPsGetNextRP),
            RawSubcommand::EnumerateCredentialsGetNextCredential => Ok(Request::EnumerateCredentialsGetNextCredential),
            RawSubcommand::GetCredsMetadata => {
                let pin_uv_auth_protocol = read_protocol(pin_uv_auth_protocol)?;
                let pin_uv_auth_param = read_bytes(pin_uv_auth_param, PIN_UV_AUTH_PARAM_LEN)?;
                Ok(Request::GetCredentialsMetadata { pin_uv_auth_protocol, pin_uv_auth_param })
            },
            RawSubcommand::EnumerateRpsBegin => {
                let pin_uv_auth_protocol = read_protocol(pin_uv_auth_protocol)?;
                let pin_uv_auth_param = read_bytes(pin_uv_auth_param, PIN_UV_AUTH_PARAM_LEN)?;
                Ok(Request::EnumerateRPsBegin { pin_uv_auth_protocol, pin_uv_auth_param })
            },
            RawSubcommand::EnumerateCredentialsBegin => {
                let relying_party_id_hash = read_bytes(rp_id_hash, RP_ID_HASH_LEN)?;
                let pin_uv_auth_protocol = read_protocol(pin_uv_auth_protocol)?;
                let pin_uv_auth_param = read_bytes(pin_uv_auth_param, PIN_UV_AUTH_PARAM_LEN)?;
                Ok(Request::EnumerateCredentialsBegin { relying_party_id_hash, pin_uv_auth_protocol, pin_uv_auth_param })
            },
            RawSubcommand::DeleteCredential => {
                let credential_id = read_descriptor(credential_id)?;
                let pin_uv_auth_protocol = read_protocol(pin_uv_auth_protocol)?;
                let pin_uv_auth_param = read_bytes(pin_uv_auth_param, PIN_UV_AUTH_PARAM_LEN)?;
                Ok(Request::DeleteCredential { credential_id, pin_uv_auth_protocol, pin_uv_auth_param })
            },
            RawSubcommand::UpdateUserInformation => {
                let credential_id = read_descriptor(credential_id)?;
                let user = read_user(user)?;
                let pin_uv_auth_protocol = read_protocol(pin_uv_auth_protocol)?;
                let pin_uv_auth_param = read_bytes(pin_uv_auth_param, PIN_UV_AUTH_PARAM_LEN)?;
                Ok(Request::UpdateUserInformation { credential_id, user, pin_uv_auth_protocol, pin_uv_auth_param })
            },
        }
    }
}

/// A well-formed request decodes from its own wire map.
pub proof fn lemma_request_round_trip(req: Request)
    requires
        req.wf(),
    ensures
        request_of_raw(raw_of_request(req)) == Ok::<_, Error>(req),
{
}

/// A wire map that decodes is exactly the map of the request it decodes to.
pub proof fn lemma_raw_request_round_trip(raw: RawRequest)
    ensures
        request_of_raw(raw) matches Ok(req) ==> raw_of_request(req) == raw,
{
}

/// Encoding writes only the fields of the request's sub-command.
pub proof fn lemma_unset_fields_not_written(req: Request)
    ensures
        only_fields_of(raw_of_request(req), req.spec_subcommand()),
{
}

/// Where an enumeration stands: how many items are still to be fetched.
#[derive(Debug, Clone, Copy, PartialEq, Eq, Structural)]
pub enum Cursor {
    Idle,
    RelyingParties { remaining: u64 },
    Credentials { remaining: u64 },
}

/// Whether a command belongs to credential management.
pub open spec fn is_management(c: Command) -> bool {
    c == Command::AuthenticatorCredentialManagement || c
        == Command::PrototypeAuthenticatorCredentialmanagement
}

/// The cursor after a begin sub-command reported `total` items, the first of
/// which came with it.
pub open spec fn cursor_after_begin(total: u64, relying_parties: bool) -> Cursor {
    if total == 0 {
        Cursor::Idle
    } else if relying_parties {
        Cursor::RelyingParties { remaining: (total - 1) as u64 }
    } else {
        Cursor::Credentials { remaining: (total - 1) as u64 }
    }
}

/// The cursor after a request, and whether the request may go on. Any command
/// other than credential management, and any of its other sub-commands,
/// drops the cursor. A "get next" goes on only while its own enumeration has
/// items left; otherwise it fails and the cursor is dropped.
pub open spec fn cursor_step(c: Cursor, command: Command, sub: Option<RawSubcommand>) -> (Cursor, Result<(), Error>) {
    if !is_management(command) {
        (Cursor::Idle, Ok(()))
    } else {
        match sub {
            None => (Cursor::Idle, Err(Error::MissingParameter)),
            Some(RawSubcommand::EnumerateRpsGetNextRp) => match c {
                Cursor::RelyingParties { remaining } => if remaining > 0 {
                    (Cursor::RelyingParties { remaining: (remaining - 1) as u64 }, Ok(()))
                } else {
                    (Cursor::Idle, Err(Error::NotAllowed))
                },
                _ => (Cursor::Idle, Err(Error::NotAllowed)),
            },
            Some(RawSubcommand::EnumerateCredentialsGetNextCredential) => match c {
                Cursor::Credentials { remaining } => if remaining > 0 {
                    (Cursor::Credentials { remaining: (remaining - 1) as u64 }, Ok(()))
                } else {
                    (Cursor::Idle, Err(Error::NotAllowed))
                },
                _ => (Cursor::Idle, Err(Error::NotAllowed)),
            },
            Some(_) => (Cursor::Idle, Ok(())),
        }
    }
}

/// The authenticator-held enumeration state of one session.
#[derive(Debug, Clone, Copy, PartialEq, Eq, Structural)]
pub struct EnumerationSession {
    pub cursor: Cursor,
}

impl EnumerationSession {
    /// A session with no enumeration under way.
    pub fn new() -> (r: EnumerationSession)
        ensures
            r.cursor == Cursor::Idle,
    {
        EnumerationSession { cursor: Cursor::Idle }
    }

    /// Records an incoming request, and says whether it may go on.
    pub fn on_request(&mut self, command: Command, sub: Option<RawSubcommand>) -> (r: Result<(), Error>)
        ensures
            (final(self).cursor, r) == cursor_step(old(self).cursor, command, sub),
    {
        let management = match command {
            Command::AuthenticatorCredentialManagement => true,
            Command::PrototypeAuthenticatorCredentialmanagement => true,
            _ => false,
        };
        if !management {
            self.cursor = Cursor::Idle;
            return Ok(());
        }
        match sub {
            None => {
                self.cursor = Cursor::Idle;
                Err(Error::MissingParameter)
            },
            Some(RawSubcommand::EnumerateRpsGetNextRp) => match self.cursor {
                Cursor::RelyingParties { remaining } => if remaining > 0 {
                    self.cursor = Cursor::RelyingParties { remaining: remaining - 1 };
                    Ok(())
                } else {
                    self.cursor = Cursor::Idle;
                    Err(Error::NotAllowed)
                },
                _ => {
                    self.cursor = Cursor::Idle;
                    Err(Error::NotAllowed)
                },
            },
            Some(RawSubcommand::EnumerateCredentialsGetNextCredential) => match self.cursor {
                Cursor::Credentials { remaining } => if remaining > 0 {
                    self.cursor = Cursor::Credentials { remaining: remaining - 1 };
                    Ok(())
                } else {
                    self.cursor = Cursor::Idle;
                    Err(Error::NotAllowed)
                },
                _ => {
                    self.cursor = Cursor::Idle;
                    Err(Error::NotAllowed)
                },
            },
            Some(_) => {
                self.cursor = Cursor::Idle;
                Ok(())
            },
        }
    }

    /// Records that an EnumerateRPsBegin answered with `total` relying parties.
    pub fn on_rps_begun(&mut self, total: u64)
        ensures
            final(self).cursor == cursor_after_begin(total, true),
    {
        self.cursor = if total == 0 {
            Cursor::Idle
        } else {
            Cursor::RelyingParties { remaining: total - 1 }
        };
    }

    /// Records that an EnumerateCredentialsBegin answered with `total` credentials.
    pub fn on_credentials_begun(&mut self, total: u64)
        ensures
            final(self).cursor == cursor_after_begin(total, false),
    {
        self.cursor = if total == 0 {
            Cursor::Idle
        } else {
            Cursor::Credentials { remaining: total - 1 }
        };
    }
}

/// The result of a "get next" of kind `next` sent right after `other`.
pub open spec fn next_after(c: Cursor, other: Command, next: RawSubcommand) -> Result<(), Error> {
    let dropped = cursor_step(c, other, None).0;
    cursor_step(dropped, Command::AuthenticatorCredentialManagement, Some(next)).1
}

/// Any command outside credential management drops the cursor, so a "get
/// next" that follows it fails instead of resuming the enumeration.
pub proof fn lemma_unrelated_command_invalidates(c: Cursor, other: Command, next: RawSubcommand)
    requires
        !is_management(other),
        next == RawSubcommand::EnumerateRpsGetNextRp || next
            == RawSubcommand::EnumerateCredentialsGetNextCredential,
    ensures
        cursor_step(c, other, None).0 == Cursor::Idle,
        (next_after(c, other, next) == Err::<(), Error>(Error::NotAllowed)),
{
}

/// A "get next" goes on only while its own enumeration has items left:
/// after the count that a begin announced is used up, or during the other
/// enumeration, or with none under way, it fails.
pub proof fn lemma_get_next_needs_live_enumeration(c: Cursor, command: Command)
    requires
        is_management(command),
    ensures
        (cursor_step(c, command, Some(RawSubcommand::EnumerateRpsGetNextRp)).1 is Ok) == (c matches Cursor::RelyingParties { remaining } && remaining > 0),
        (cursor_step(c, command, Some(RawSubcommand::EnumerateCredentialsGetNextCredential)).1 is Ok) == (c matches Cursor::Credentials { remaining } && remaining > 0),
{
}

} // verus!
