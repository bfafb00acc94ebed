//! The authenticatorMakeCredential command.

use vstd::prelude::*;
use crate::attestation::{format_name, FormatIdentifier, Kind};
use crate::authenticator_data::{parse_data, Data};
use crate::client_pin::Version;
use crate::device::{has_option, lists_parameters, lists_version, option_is, Info, OptionId, OptionSupport};
use crate::entities::{Descriptor, Parameters, RelyingPartyEntity, UserEntity};
use crate::extensions::Identifier;

verus! {

/// The length of a client data hash.
pub const CLIENT_DATA_HASH_LEN: usize = 32;

#[derive(Debug, Clone, Copy, PartialEq, Eq, Structural)]
pub enum Error {
    OperationDenied,
    PinNotSet,
    PinInvalid,
    InvalidParameter,
    MissingParameter,
    UnsupportedAlgorithm,
    InvalidOption,
    UnsupportedOption,
    PinUvAuthTokenRequired,
    PinAuthInvalid,
    UserActionTimeout,
    PinBlocked,
    CredentialExcluded,
    KeyStoreFull,
}

/// The option keys of a MakeCredential request.
#[derive(Debug, Clone, Copy, PartialEq, Eq, Structural)]
pub enum OptionKey {
    Discoverable,
    UserPresence,
    UserVerification,
}

/// A MakeCredential request.
#[derive(Debug, Clone)]
pub struct Request {
    pub client_data_hash: Vec<u8>,
    pub relying_party: RelyingPartyEntity,
    pub user: UserEntity,
    /// Most preferred first.
    pub public_key_credential_params: Vec<Parameters>,
    pub exclude_list: Option<Vec<Descriptor>>,
    pub extensions: Option<Vec<(Identifier, Vec<u8>)>>,
    pub options: Option<Vec<(OptionKey, bool)>>,
    pub pin_uv_auth_param: Option<Vec<u8>>,
    pub pin_uv_auth_protocol_version: Option<Version>,
    pub enterprise_attestation: Option<Kind>,
}

/// Whether every descriptor of a list has a legal ID length.
pub open spec fn descriptors_ok(ds: Seq<Descriptor>) -> bool {
    forall|i: int| 0 <= i < ds.len() ==> (#[trigger] ds[i]).wf()
}

/// Whether no key occurs twice in a list of pairs.
pub open spec fn option_keys_unique<K, V>(os: Seq<(K, V)>) -> bool {
    forall|i: int, j: int| 0 <= i < j < os.len() ==> os[i].0 != os[j].0
}

/// The first shape error of a request, if any: the client data hash must
/// have 32 bytes, the user handle at most 64, at least one credential
/// parameter must be given, every excluded descriptor must be well formed,
/// no extension and no option may be given twice, and a pinUvAuthParam
/// needs a protocol version.
pub open spec fn request_shape(r: Request) -> Result<(), Error> {
    if r.client_data_hash@.len() != CLIENT_DATA_HASH_LEN {
        Err(Error::InvalidParameter)
    } else if !r.user.wf() {
        Err(Error::InvalidParameter)
    } else if r.public_key_credential_params@.len() == 0 {
        Err(Error::MissingParameter)
    } else if r.exclude_list matches Some(l) && !descriptors_ok(l@) {
        Err(Error::InvalidParameter)
    } else if r.extensions matches Some(e) && !option_keys_unique(e@) {
        Err(Error::InvalidParameter)
    } else if r.options matches Some(o) && !option_keys_unique(o@) {
        Err(Error::InvalidOption)
    } else if r.pin_uv_auth_param is Some && r.pin_uv_auth_protocol_version is None {
        Err(Error::MissingParameter)
    } else {
        Ok(())
    }
}

/// Checks a list of descriptors.
pub fn all_descriptors_ok(ds: &Vec<Descriptor>) -> (r: bool)
    ensures
        r == descriptors_ok(ds@),
{
    let mut i: usize = 0;
    while i < ds.len()
        invariant
            i <= ds.len(),
            forall|j: int| 0 <= j < i ==> (#[trigger] ds@[j]).wf(),
        decreases ds.len() - i,
    {
        if ds[i].validate().is_err() {
            return false;
        }
        i = i + 1;
    }
    true
}

/// Checks that no key of an options list occurs twice.
pub fn option_keys_distinct(os: &Vec<(OptionKey, bool)>) -> (r: bool)
    ensures
        r == option_keys_unique(os@),
{
    let mut i: usize = 0;
    while i < os.len()
        invariant
            i <= os.len(),
            forall|a: int, b: int| 0 <= a < b < os.len() && a < i ==> os@[a].0 != os@[b].0,
        decreases os.len() - i,
    {
        let mut j: usize = i + 1;
        while j < os.len()
            invariant
                i < os.len(),
                i + 1 <= j <= os.len(),
                forall|a: int, b: int| 0 <= a < b < os.len() && a < i ==> os@[a].0 != os@[b].0,
                forall|b: int| i < b < j ==> os@[i as int].0 != os@[b].0,
            decreases os.len() - j,
        {
            if os[i].0 == os[j].0 {
                return false;
            }
            j = j + 1;
        }
        i = i + 1;
    }
    true
}

/// Checks that no identifier of an extensions list occurs twice.
pub fn extension_ids_distinct(es: &Vec<(Identifier, Vec<u8>)>) -> (r: bool)
    ensures
        r == option_keys_unique(es@),
{
    let mut i: usize = 0;
    while i < es.len()
        invariant
            i <= es.len(),
            forall|a: int, b: int| 0 <= a < b < es.len() && a < i ==> es@[a].0 != es@[b].0,
        decreases es.len() - i,
    {
        let mut j: usize = i + 1;
        while j < es.len()
            invariant
                i < es.len(),
                i + 1 <= j <= es.len(),
                forall|a: int, b: int| 0 <= a < b < es.len() && a < i ==> es@[a].0 != es@[b].0,
                forall|b: int| i < b < j ==> es@[i as int].0 != es@[b].0,
            decreases es.len() - j,
        {
            if es[i].0 == es[j].0 {
                return false;
            }
            j = j + 1;
        }
        i = i + 1;
    }
    true
}

impl Request {
    /// Checks the shape of the request before it is handed on.
    pub fn validate(&self) -> (r: Result<(), Error>)
        ensures
            r == request_shape(*self),
    {
        if self.client_data_hash.len() != CLIENT_DATA_HASH_LEN {
            return Err(Error::InvalidParameter);
        }
        if self.user.id.len() > crate::entities::MAX_USER_ID_LEN {
            return Err(Error::InvalidParameter);
        }
        if self.public_key_credential_params.len() == 0 {
            return Err(Error::MissingParameter);
        }
        match &self.exclude_list {
            Some(l) => {
                if !all_descriptors_ok(l) {
                    return Err(Error::InvalidParameter);
                }
            },
            None => {},
        }
        match &self.extensions {
            Some(e) => {
                if !extension_ids_distinct(e) {
                    return Err(Error::InvalidParameter);
                }
            },
            None => {},
        }
        match &self.options {
            Some(o) => {
                if !option_keys_distinct(o) {
                    return Err(Error::InvalidOption);
                }
            },
            None => {},
        }
        if self.pin_uv_auth_param.is_some() && self.pin_uv_auth_protocol_version.is_none() {
            return Err(Error::MissingParameter);
        }
        Ok(())
    }
}

/// A MakeCredential response.
#[derive(Debug, Clone)]
pub struct Response {
    pub format: FormatIdentifier,
    pub authenticator_data: Data,
    pub enterprise_attestation: Option<bool>,
    pub large_blob_key: Option<Vec<u8>>,
    /// The encoded map of unsigned extension outputs.
    pub unsigned_extension_outputs: Option<Vec<u8>>,
}

/// The integer-tagged map of a MakeCredential response: fmt (0x01),
/// authData (0x02), attStmt (0x03), epAtt (0x04), largeBlobKey (0x05) and
/// unsignedExtensionOutputs (0x06).
#[derive(Debug, Clone)]
pub struct RawResponse {
    pub fmt: Option<String>,
    pub auth_data: Option<Vec<u8>>,
    pub att_stmt: Option<Vec<u8>>,
    pub ep_att: Option<bool>,
    pub large_blob_key: Option<Vec<u8>>,
    pub unsigned_extension_outputs: Option<Vec<u8>>,
}

/// Whether some format has the identifier `name`.
pub open spec fn known_format(name: Seq<char>) -> bool {
    exists|f: FormatIdentifier| format_name(f) == name
}

/// Which error, if any, decoding a response map gives: fmt and authData are
/// required; an unknown format or malformed authenticator data is invalid.
pub open spec fn response_error(r: RawResponse) -> Option<Error> {
    match r.fmt {
        None => Some(Error::MissingParameter),
        Some(f) => if !known_format(f@) {
            Some(Error::InvalidParameter)
        } else {
            match r.auth_data {
                None => Some(Error::MissingParameter),
                Some(a) => if parse_data(a@) is Err {
                    Some(Error::InvalidParameter)
                } else {
                    None
                },
            }
        },
    }
}

impl Response {
    /// Decodes a response map. Unknown or unused fields are ignored.
    pub fn try_from(value: RawResponse) -> (r: Result<Response, Error>)
        ensures
            r is Err <==> response_error(value) is Some,
            r matches Err(e) ==> response_error(value) == Some(e),
            r matches Ok(resp) ==> {
                &&& value.fmt matches Some(f) && format_name(resp.format) == f@
                &&& value.auth_data matches Some(a) && parse_data(a@) == Ok::<_, crate::authenticator_data::DataError>(resp.authenticator_data@)
                &&& resp.enterprise_attestation == value.ep_att
                &&& resp.large_blob_key == value.large_blob_key
                &&& resp.unsigned_extension_outputs == value.unsigned_extension_outputs
            },
    {
        let format = match &value.fmt {
            None => return Err(Error::MissingParameter),
            Some(f) => match FormatIdentifier::from_name(f) {
                Some(format) => format,
                None => return Err(Error::InvalidParameter),
            },
        };
        let authenticator_data = match &value.auth_data {
            None => return Err(Error::MissingParameter),
            Some(a) => match Data::deserialize(a.as_slice()) {
                Ok(d) => d,
                Err(_) => return Err(Error::InvalidParameter),
            },
        };
        Ok(
            Response {
                format,
                authenticator_data,
                enterprise_attestation: value.ep_att,
                large_blob_key: value.large_blob_key,
                unsigned_extension_outputs: value.unsigned_extension_outputs,
            },
        )
    }
}


/// Whether a request's options ask for `key` to be true.
pub open spec fn asks_for(options: Option<Vec<(OptionKey, bool)>>, key: OptionKey) -> bool {
    options matches Some(o) && o@.contains((key, true))
}

/// Whether some requested credential parameter is one the authenticator
/// lists.
pub open spec fn shares_algorithm(requested: Seq<Parameters>, listed: Seq<Parameters>) -> bool {
    exists|i: int| 0 <= i < requested.len() && listed.contains(#[trigger] requested[i])
}

/// The first capability the authenticator lacks for a request, if any: a
/// discoverable credential needs the rk option enabled, built-in user
/// verification needs the uv option, a protocol version must be listed,
/// one credential parameter must be listed (when the authenticator lists
/// any), and enterprise attestation needs the ep option.
pub open spec fn capability_error(r: Request, info: Info) -> Option<Error> {
    let p = info.spec_parts();
    if asks_for(r.options, OptionKey::Discoverable) && !option_is(p.options, OptionId::DiscoverableCredentials, true) {
        Some(Error::UnsupportedOption)
    } else if asks_for(r.options, OptionKey::UserVerification) && !has_option(p.options, OptionId::UserVerification) {
        Some(Error::UnsupportedOption)
    } else if r.pin_uv_auth_protocol_version matches Some(v) && !(p.pin_uv_auth_protocols matches Some(ps) && ps@.contains(v)) {
        Some(Error::InvalidParameter)
    } else if p.algorithms matches Some(a) && !shares_algorithm(r.public_key_credential_params@, a@) {
        Some(Error::UnsupportedAlgorithm)
    } else if r.enterprise_attestation is Some && !has_option(p.options, OptionId::EnterpriseAttestation) {
        Some(Error::InvalidParameter)
    } else {
        None
    }
}

fn asks_for_exec(options: &Option<Vec<(OptionKey, bool)>>, key: OptionKey) -> (r: bool)
    ensures
        r == asks_for(*options, key),
{
    match options {
        None => false,
        Some(o) => option_list_asks(o, key),
    }
}

fn option_list_asks(o: &Vec<(OptionKey, bool)>, key: OptionKey) -> (r: bool)
    ensures
        r == o@.contains((key, true)),
{
    let mut i: usize = 0;
    while i < o.len()
        invariant
            i <= o.len(),
            forall|j: int| 0 <= j < i ==> o@[j] != (key, true),
        decreases o.len() - i,
    {
        if o[i].0 == key && o[i].1 {
            assert(o@[i as int] == (key, true));
            return true;
        }
        i = i + 1;
    }
    false
}

fn shares_algorithm_exec(requested: &Vec<Parameters>, listed: &Vec<Parameters>) -> (r: bool)
    ensures
        r == shares_algorithm(requested@, listed@),
{
    let mut i: usize = 0;
    while i < requested.len()
        invariant
            i <= requested.len(),
            forall|j: int| 0 <= j < i ==> !listed@.contains(#[trigger] requested@[j]),
        decreases requested.len() - i,
    {
        if lists_parameters(listed, requested[i]) {
            return true;
        }
        i = i + 1;
    }
    false
}

impl Request {
    /// Checks the request against the capabilities an authenticator
    /// reported, so that it can be refused before it is sent.
    pub fn check_against(&self, info: &Info) -> (r: Result<(), Error>)
        requires
            info.wf(),
        ensures
            r is Err <==> capability_error(*self, *info) is Some,
            r matches Err(e) ==> capability_error(*self, *info) == Some(e),
    {
        if asks_for_exec(&self.options, OptionKey::Discoverable) && info.supports(
            OptionId::DiscoverableCredentials,
        ) != OptionSupport::Enabled {
            return Err(Error::UnsupportedOption);
        }
        if asks_for_exec(&self.options, OptionKey::UserVerification) && info.supports(
            OptionId::UserVerification,
        ) == OptionSupport::Unsupported {
            return Err(Error::UnsupportedOption);
        }
        let parts = info.parts();
        match self.pin_uv_auth_protocol_version {
            Some(v) => {
                let listed = match &parts.pin_uv_auth_protocols {
                    Some(ps) => lists_version(ps, v),
                    None => false,
                };
                if !listed {
                    return Err(Error::InvalidParameter);
                }
            },
            None => {},
        }
        match &parts.algorithms {
            Some(a) => {
                if !shares_algorithm_exec(&self.public_key_credential_params, a) {
                    return Err(Error::UnsupportedAlgorithm);
                }
            },
            None => {},
        }
        if self.enterprise_attestation.is_some() && info.supports(OptionId::EnterpriseAttestation)
            == OptionSupport::Unsupported {
            return Err(Error::InvalidParameter);
        }
        Ok(())
    }
}


/// The error a non-zero CTAP status byte stands for. A status that
/// MakeCredential does not define is taken as `OperationDenied`.
pub open spec fn error_of_status(status: u8) -> Error {
    if status == 0x02 {
        Error::InvalidParameter
    } else if status == 0x14 {
        Error::MissingParameter
    } else if status == 0x19 {
        Error::CredentialExcluded
    } else if status == 0x26 {
        Error::UnsupportedAlgorithm
    } else if status == 0x27 {
        Error::OperationDenied
    } else if status == 0x28 {
        Error::KeyStoreFull
    } else if status == 0x2B {
        Error::UnsupportedOption
    } else if status == 0x2C {
        Error::InvalidOption
    } else if status == 0x2F {
        Error::UserActionTimeout
    } else if status == 0x31 {
        Error::PinInvalid
    } else if status == 0x32 {
        Error::PinBlocked
    } else if status == 0x33 {
        Error::PinAuthInvalid
    } else if status == 0x35 {
        Error::PinNotSet
    } else if status == 0x36 {
        Error::PinUvAuthTokenRequired
    } else {
        Error::OperationDenied
    }
}

/// The error a non-zero CTAP status byte stands for.
pub fn status_error(status: u8) -> (r: Error)
    ensures
        r == error_of_status(status),
{
    if status == 0x02 {
        Error::InvalidParameter
    } else if status == 0x14 {
        Error::MissingParameter
    } else if status == 0x19 {
        Error::CredentialExcluded
    } else if status == 0x26 {
        Error::UnsupportedAlgorithm
    } else if status == 0x27 {
        Error::OperationDenied
    } else if status == 0x28 {
        Error::KeyStoreFull
    } else if status == 0x2B {
        Error::UnsupportedOption
    } else if status == 0x2C {
        Error::InvalidOption
    } else if status == 0x2F {
        Error::UserActionTimeout
    } else if status == 0x31 {
        Error::PinInvalid
    } else if status == 0x32 {
        Error::PinBlocked
    } else if status == 0x33 {
        Error::PinAuthInvalid
    } else if status == 0x35 {
        Error::PinNotSet
    } else if status == 0x36 {
        Error::PinUvAuthTokenRequired
    } else {
        Error::OperationDenied
    }
}

/// What an authenticator's reply decodes to: a non-zero status is its error,
/// status zero is followed by the response map.
pub open spec fn reply_error(status: u8, raw: RawResponse) -> Option<Error> {
    if status != 0 {
        Some(error_of_status(status))
    } else {
        response_error(raw)
    }
}

impl Response {
    /// Decodes an authenticator's reply to MakeCredential: its status byte
    /// and, for status zero, the response map.
    pub fn from_reply(status: u8, raw: RawResponse) -> (r: Result<Response, Error>)
        ensures
            r is Err <==> reply_error(status, raw) is Some,
            r matches Err(e) ==> reply_error(status, raw) == Some(e),
            r matches Ok(resp) ==> status == 0 && {
                &&& raw.fmt matches Some(f) && format_name(resp.format) == f@
                &&& raw.auth_data matches Some(a) && parse_data(a@) == Ok::<_, crate::authenticator_data::DataError>(resp.authenticator_data@)
            },
    {
        if status != 0 {
            return Err(status_error(status));
        }
        Response::try_from(raw)
    }
}

/// A successful reply whose map has a known format but lacks authData is
/// refused with `MissingParameter`, whatever else the map holds.
pub proof fn lemma_reply_missing_auth_data(raw: RawResponse)
    requires
        raw.fmt matches Some(f) && known_format(f@),
        raw.auth_data is None,
    ensures
        reply_error(0, raw) == Some(Error::MissingParameter),
{
}

} // verus!
