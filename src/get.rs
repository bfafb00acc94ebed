//! The authenticatorGetAssertion command.

use vstd::prelude::*;
use crate::client_pin::Version;
use crate::entities::{Descriptor, UserEntity};
use crate::extensions::Identifier;
use crate::make::{all_descriptors_ok, descriptors_ok, extension_ids_distinct, option_keys_unique, CLIENT_DATA_HASH_LEN};

verus! {

#[derive(Debug, Clone, Copy, PartialEq, Eq, Structural)]
pub enum Error {
    OperationDenied,
    PinNotSet,
    PinInvalid,
    InvalidParameter,
    MissingParameter,
    InvalidOption,
    UnsupportedOption,
    PinUvAuthTokenRequired,
    PinAuthInvalid,
    UserActionTimeout,
    PinBlocked,
    NoCredentials,
}

/// The option keys of a GetAssertion request.
#[derive(Debug, Clone, Copy, PartialEq, Eq, Structural)]
pub enum OptionKey {
    UserPresence,
    UserVerification,
}

/// A GetAssertion request.
#[derive(Debug, Clone)]
pub struct Request {
    pub relying_party_id: String,
    pub client_data_hash: Vec<u8>,
    /// Not empty when present.
    pub allow_list: Option<Vec<Descriptor>>,
    pub extensions: Option<Vec<(Identifier, Vec<u8>)>>,
    pub options: Option<Vec<(OptionKey, bool)>>,
    pub pin_uv_auth_param: Option<Vec<u8>>,
    pub pin_uv_auth_protocol_version: Option<Version>,
}

/// The first shape error of a request, if any: the client data hash must
/// have 32 bytes, an allow list must not be empty and must hold well-formed
/// descriptors, no extension and no option may be given twice, and a
/// pinUvAuthParam needs a protocol version.
pub open spec fn request_shape(r: Request) -> Result<(), Error> {
    if r.client_data_hash@.len() != CLIENT_DATA_HASH_LEN {
        Err(Error::InvalidParameter)
    } else if r.allow_list matches Some(l) && l@.len() == 0 {
        Err(Error::InvalidParameter)
    } else if r.allow_list matches Some(l) && !descriptors_ok(l@) {
        Err(Error::InvalidParameter)
    } else if r.extensions matches Some(e) && !option_keys_unique(e@) {
        Err(Error::InvalidParameter)
    } else if r.options matches Some(o) && !option_keys_unique(o@) {
        Err(Error::InvalidOption)
    } else if r.pin_uv_auth_param is Some && r.pin_uv_auth_protocol_version is None {
        Err(Error::MissingParameter)
    } else {
        Ok(())
    }
}

/// Checks that no key of an options list occurs twice.
pub fn get_option_keys_distinct(os: &Vec<(OptionKey, bool)>) -> (r: bool)
    ensures
        r == option_keys_unique(os@),
{
    let mut i: usize = 0;
    while i < os.len()
        invariant
            i <= os.len(),
            forall|a: int, b: int| 0 <= a < b < os.len() && a < i ==> os@[a].0 != os@[b].0,
        decreases os.len() - i,
    {
        let mut j: usize = i + 1;
        while j < os.len()
            invariant
                i < os.len(),
                i + 1 <= j <= os.len(),
                forall|a: int, b: int| 0 <= a < b < os.len() && a < i ==> os@[a].0 != os@[b].0,
                forall|b: int| i < b < j ==> os@[i as int].0 != os@[b].0,
            decreases os.len() - j,
        {
            if os[i].0 == os[j].0 {
                return false;
            }
            j = j + 1;
        }
        i = i + 1;
    }
    true
}

impl Request {
    /// Checks the shape of the request before it is handed on.
    pub fn validate(&self) -> (r: Result<(), Error>)
        ensures
            r == request_shape(*self),
    {
        if self.client_data_hash.len() != CLIENT_DATA_HASH_LEN {
            return Err(Error::InvalidParameter);
        }
        match &self.allow_list {
            Some(l) => {
                if l.len() == 0 {
                    return Err(Error::InvalidParameter);
                }
                if !all_descriptors_ok(l) {
                    return Err(Error::InvalidParameter);
                }
            },
            None => {},
        }
        match &self.extensions {
            Some(e) => {
                if !extension_ids_distinct(e) {
                    return Err(Error::InvalidParameter);
                }
            },
            None => {},
        }
        match &self.options {
            Some(o) => {
                if !get_option_keys_distinct(o) {
                    return Err(Error::InvalidOption);
                }
            },
            None => {},
        }
        if self.pin_uv_auth_param.is_some() && self.pin_uv_auth_protocol_version.is_none() {
            return Err(Error::MissingParameter);
        }
        Ok(())
    }
}

/// A GetAssertion response.
#[derive(Debug, Clone)]
pub struct Response {
    pub credential: Descriptor,
    pub auth_data: Vec<u8>,
    pub signature: Vec<u8>,
    pub user: Option<UserEntity>,
    pub number_of_credentials: Option<u64>,
    pub user_selected: Option<bool>,
    pub large_blob_key: Option<Vec<u8>>,
}

/// The integer-tagged map of a GetAssertion response: credential (0x01),
/// authData (0x02), signature (0x03), user (0x04), numberOfCredentials
/// (0x05), userSelected (0x06) and largeBlobKey (0x07).
#[derive(Debug, Clone)]
pub struct RawResponse {
    pub credential: Option<Descriptor>,
    pub auth_data: Option<Vec<u8>>,
    pub signature: Option<Vec<u8>>,
    pub user: Option<UserEntity>,
    pub number_of_credentials: Option<u64>,
    pub user_selected: Option<bool>,
    pub large_blob_key: Option<Vec<u8>>,
}

/// Which error, if any, decoding a response map gives: credential, authData
/// and signature are required; the credential must be well formed.
pub open spec fn response_error(r: RawResponse) -> Option<Error> {
    match r.credential {
        None => Some(Error::MissingParameter),
        Some(c) => if !c.wf() {
            Some(Error::InvalidParameter)
        } else if r.auth_data is None || r.signature is None {
            Some(Error::MissingParameter)
        } else {
            None
        },
    }
}

impl Response {
    /// Decodes a response map.
    pub fn try_from(value: RawResponse) -> (r: Result<Response, Error>)
        ensures
            r is Err <==> response_error(value) is Some,
            r matches Err(e) ==> response_error(value) == Some(e),
            r matches Ok(resp) ==> (Some(resp.credential) == value.credential && Some(resp.auth_data)
                == value.auth_data && Some(resp.signature) == value.signature && resp.user == value.user
                && resp.number_of_credentials == value.number_of_credentials && resp.user_selected
                == value.user_selected && resp.large_blob_key == value.large_blob_key),
    {
        let credential = match value.credential {
            None => return Err(Error::MissingParameter),
            Some(c) => c,
        };
        if credential.validate().is_err() {
            return Err(Error::InvalidParameter);
        }
        match (value.auth_data, value.signature) {
            (Some(auth_data), Some(signature)) => Ok(
                Response {
                    credential,
                    auth_data,
                    signature,
                    user: value.user,
                    number_of_credentials: value.number_of_credentials,
                    user_selected: value.user_selected,
                    large_blob_key: value.large_blob_key,
                },
            ),
            _ => Err(Error::MissingParameter),
        }
    }
}

} // verus!
