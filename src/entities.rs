//! The identity value objects shared across commands: credential
//! descriptors, user and relying-party entities, credential parameters and
//! transports.

use vstd::prelude::*;

verus! {

/// The smallest credential ID length a descriptor admits.
pub const MIN_DESCRIPTOR_ID_LEN: usize = 16;
/// The largest credential ID length a descriptor admits.
pub const MAX_DESCRIPTOR_ID_LEN: usize = 1023;
/// The largest user handle length.
pub const MAX_USER_ID_LEN: usize = 64;

/// The valid credential types.
#[derive(Debug, Clone, Copy, PartialEq, Eq, Structural)]
pub enum Type {
    PublicKey,
}

/// How a client might reach an authenticator.
#[derive(Debug, Clone)]
pub enum Transport {
    Usb,
    Nfc,
    Ble,
    Hybrid,
    Internal,
    Unknown(String),
}

/// The credential type and the COSE algorithm identifier of a credential to
/// be created.
#[derive(Debug, Clone, Copy, PartialEq, Eq, Structural)]
pub struct Parameters {
    pub credential_type: Type,
    pub algorithm: i64,
}

/// Identifies one public key credential.
#[derive(Debug, Clone)]
pub struct Descriptor {
    pub credential_type: Type,
    /// Between 16 and 1023 bytes.
    pub id: Vec<u8>,
    pub transports: Option<Vec<Transport>>,
}

/// The user account a credential is associated with.
#[derive(Debug, Clone)]
pub struct UserEntity {
    /// At most 64 bytes; may be empty.
    pub id: Vec<u8>,
    pub name: Option<String>,
    pub display_name: Option<String>,
}

/// The relying party a credential is associated with.
#[derive(Debug, Clone)]
pub struct RelyingPartyEntity {
    pub id: String,
    pub name: Option<String>,
}

/// Why an entity was refused.
#[derive(Debug, Clone, Copy, PartialEq, Eq, Structural)]
pub enum EntityError {
    /// The identifier is shorter than allowed.
    IdTooShort,
    /// The identifier is longer than allowed.
    IdTooLong,
}

pub open spec fn descriptor_id_ok(len: nat) -> bool {
    MIN_DESCRIPTOR_ID_LEN <= len <= MAX_DESCRIPTOR_ID_LEN
}

impl Descriptor {
    pub open spec fn wf(&self) -> bool {
        descriptor_id_ok(self.id@.len())
    }

    /// A public-key descriptor, refused unless the ID has 16 to 1023 bytes.
    pub fn new(id: Vec<u8>, transports: Option<Vec<Transport>>) -> (r: Result<Descriptor, EntityError>)
        ensures
            id@.len() < MIN_DESCRIPTOR_ID_LEN <==> r == Err::<Descriptor, _>(EntityError::IdTooShort),
            id@.len() > MAX_DESCRIPTOR_ID_LEN <==> r == Err::<Descriptor, _>(EntityError::IdTooLong),
            r matches Ok(d) ==> d.wf() && d.id == id && d.transports == transports && d.credential_type
                == Type::PublicKey,
    {
        if id.len() < MIN_DESCRIPTOR_ID_LEN {
            Err(EntityError::IdTooShort)
        } else if id.len() > MAX_DESCRIPTOR_ID_LEN {
            Err(EntityError::IdTooLong)
        } else {
            Ok(Descriptor { credential_type: Type::PublicKey, id, transports })
        }
    }

    /// Checks the ID length of a descriptor built field by field.
    pub fn validate(&self) -> (r: Result<(), EntityError>)
        ensures
            r is Ok <==> self.wf(),
            self.id@.len() < MIN_DESCRIPTOR_ID_LEN ==> r == Err::<(), _>(EntityError::IdTooShort),
            self.id@.len() > MAX_DESCRIPTOR_ID_LEN ==> r == Err::<(), _>(EntityError::IdTooLong),
    {
        if self.id.len() < MIN_DESCRIPTOR_ID_LEN {
            Err(EntityError::IdTooShort)
        } else if self.id.len() > MAX_DESCRIPTOR_ID_LEN {
            Err(EntityError::IdTooLong)
        } else {
            Ok(())
        }
    }
}

impl UserEntity {
    pub open spec fn wf(&self) -> bool {
        self.id@.len() <= MAX_USER_ID_LEN
    }

    /// A user entity, refused when the user handle exceeds 64 bytes.
    pub fn new(id: Vec<u8>, name: Option<String>, display_name: Option<String>) -> (r: Result<
        UserEntity,
        EntityError,
    >)
        ensures
            id@.len() > MAX_USER_ID_LEN <==> r is Err,
            r matches Err(e) ==> e == EntityError::IdTooLong,
            r matches Ok(u) ==> u.wf() && u.id == id && u.name == name && u.display_name == display_name,
    {
        if id.len() > MAX_USER_ID_LEN {
            Err(EntityError::IdTooLong)
        } else {
            Ok(UserEntity { id, name, display_name })
        }
    }
}

} // verus!
