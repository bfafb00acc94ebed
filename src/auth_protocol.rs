//! The PIN/UV auth protocol engine. The version is chosen once, when a role
//! is built, and fixes the byte lengths and the key split; the cryptography
//! itself is left to a backend that the user of the library supplies.

use vstd::prelude::*;
use vstd::slice::slice_to_vec;
use crate::client_pin::{Error, Version};
use crate::key_agreement::KeyAgreement;

verus! {

/// The AES block length.
pub const BLOCK_LEN: usize = 16;

/// What a protocol version fixes.
#[derive(Debug, Clone, Copy, PartialEq, Eq, Structural)]
pub struct ProtocolParameters {
    pub version: Version,
    /// The length of a pinUvAuthToken.
    pub token_len: usize,
    /// The length of the shared secret the backend derives.
    pub shared_secret_len: usize,
    /// The length of a MAC as sent on the wire.
    pub mac_len: usize,
    /// The length of the IV that leads each ciphertext.
    pub iv_len: usize,
    /// Whether the shared secret comes from HKDF (two keys) or is the hashed
    /// ECDH coordinate (one key).
    pub uses_hkdf: bool,
}

pub open spec fn parameters_of(v: Version) -> ProtocolParameters {
    match v {
        Version::One => ProtocolParameters {
            version: v,
            token_len: 16,
            shared_secret_len: 32,
            mac_len: 16,
            iv_len: 0,
            uses_hkdf: false,
        },
        Version::Two => ProtocolParameters {
            version: v,
            token_len: 32,
            shared_secret_len: 64,
            mac_len: 32,
            iv_len: 16,
            uses_hkdf: true,
        },
    }
}

/// The length of an HMAC-SHA-256 output.
pub const HMAC_LEN: usize = 32;

impl ProtocolParameters {
    /// The parameters of a version.
    pub fn for_version(v: Version) -> (r: ProtocolParameters)
        ensures
            r == parameters_of(v),
    {
        match v {
            Version::One => ProtocolParameters {
                version: v,
                token_len: 16,
                shared_secret_len: 32,
                mac_len: 16,
                iv_len: 0,
                uses_hkdf: false,
            },
            Version::Two => ProtocolParameters {
                version: v,
                token_len: 32,
                shared_secret_len: 64,
                mac_len: 32,
                iv_len: 16,
                uses_hkdf: true,
            },
        }
    }

    /// The HMAC key within a shared secret: all of it under version one,
    /// its first 32 bytes under version two.
    pub fn hmac_key(&self, shared_secret: &[u8]) -> (r: Vec<u8>)
        requires
            *self == parameters_of(self.version),
            shared_secret@.len() == self.shared_secret_len,
        ensures
            r@ == shared_secret@.subrange(0, 32),
    {
        slice_to_vec(&shared_secret[0..32])
    }

    /// The AES key within a shared secret: all of it under version one, its
    /// last 32 bytes under version two.
    pub fn aes_key(&self, shared_secret: &[u8]) -> (r: Vec<u8>)
        requires
            *self == parameters_of(self.version),
            shared_secret@.len() == self.shared_secret_len,
        ensures
            r@ == shared_secret@.subrange(self.shared_secret_len - 32, self.shared_secret_len as int),
    {
        let start = self.shared_secret_len - 32;
        slice_to_vec(&shared_secret[start..self.shared_secret_len])
    }

    /// The wire MAC of a full HMAC-SHA-256 output: its first 16 bytes under
    /// version one, all 32 under version two.
    pub fn wire_mac(&self, hmac: &[u8]) -> (r: Vec<u8>)
        requires
            *self == parameters_of(self.version),
            hmac@.len() == HMAC_LEN,
        ensures
            r@ == hmac@.subrange(0, self.mac_len as int),
    {
        slice_to_vec(&hmac[0..self.mac_len])
    }

    /// Accepts a shared secret from the backend only with the version's
    /// length.
    pub fn check_shared_secret(&self, s: Vec<u8>) -> (r: Result<Vec<u8>, Error>)
        ensures
            s@.len() == self.shared_secret_len ==> r == Ok::<_, Error>(s),
            s@.len() != self.shared_secret_len ==> r == Err::<Vec<u8>, _>(Error::InvalidParameter),
    {
        if s.len() == self.shared_secret_len {
            Ok(s)
        } else {
            Err(Error::InvalidParameter)
        }
    }

    /// The wire MAC of the backend's HMAC-SHA-256 output; an output of the
    /// wrong length is refused.
    pub fn mac_of_hmac(&self, h: Vec<u8>) -> (r: Result<Vec<u8>, Error>)
        requires
            *self == parameters_of(self.version),
        ensures
            h@.len() == HMAC_LEN ==> (r matches Ok(m) && m@ == h@.subrange(0, self.mac_len as int)),
            h@.len() != HMAC_LEN ==> r == Err::<Vec<u8>, _>(Error::OperationDenied),
    {
        if h.len() == HMAC_LEN {
            Ok(self.wire_mac(h.as_slice()))
        } else {
            Err(Error::OperationDenied)
        }
    }

    /// Whether a ciphertext has a legal length: whole AES blocks, after the
    /// IV under version two.
    pub fn ciphertext_len_ok(&self, len: usize) -> (r: bool)
        requires
            *self == parameters_of(self.version),
        ensures
            r == (len >= self.iv_len && (len - self.iv_len) % (BLOCK_LEN as int) == 0),
    {
        len >= self.iv_len && (len - self.iv_len) % BLOCK_LEN == 0
    }
}

/// The state of the pinUvAuthToken, owned by the authenticator role.
#[derive(Debug, Clone, Copy, PartialEq, Eq, Structural)]
pub enum TokenState {
    /// No token was ever issued since power-up.
    Unset,
    /// A token was issued and not yet used.
    Issued,
    /// The token is in use by a command.
    InUse,
    /// The token was invalidated.
    Invalidated,
}

/// The token state after the current token is invalidated.
pub open spec fn invalidated(t: TokenState) -> TokenState {
    if t == TokenState::Unset {
        TokenState::Unset
    } else {
        TokenState::Invalidated
    }
}

/// The backend of the authenticator role: key agreement, decryption and MAC
/// checks.
pub trait Authenticator {
    type Error;

    /// Runs at power-on.
    fn initialize(&mut self) -> Result<(), Self::Error>;

    /// Generates a fresh key-agreement key pair.
    fn regenerate(&mut self) -> Result<(), Self::Error>;

    /// Generates a fresh pinUvAuthToken.
    fn reset_pin_uv_auth_token(&mut self) -> Result<(), Self::Error>;

    /// The authenticator's key-agreement public key.
    fn get_public_key(&self) -> Result<KeyAgreement, Self::Error>;

    /// Derives the shared secret from the platform's public key.
    fn decapsulate(&self, peer_cose_key: KeyAgreement) -> Result<Vec<u8>, Self::Error>;

    /// Decrypts a ciphertext under the shared secret.
    fn decrypt(&self, ciphertext: &[u8]) -> Result<Vec<u8>, Self::Error>;

    /// Checks that `signature` is a valid MAC of `message` under `key`.
    fn verify(&self, key: &[u8], message: &[u8], signature: &[u8]) -> Result<(), Self::Error>;
}

/// The backend of the platform role.
pub trait Platform {
    type Error;

    /// Runs when a series of transactions with an authenticator starts.
    fn initialize(&self) -> Result<(), Self::Error>;

    /// Returns an ephemeral public key to send and the shared secret.
    fn encapsulate(&self, peer_cose_key: KeyAgreement) -> Result<(KeyAgreement, Vec<u8>), Self::Error>;

    /// Encrypts whole AES blocks.
    fn encrypt(&self, key: &[u8], plaintext: &[u8]) -> Result<Vec<u8>, Self::Error>;

    /// Decrypts a ciphertext.
    fn decrypt(&self, key: &[u8], ciphertext: &[u8]) -> Result<Vec<u8>, Self::Error>;

    /// Computes the full HMAC-SHA-256 of `message` under `key`.
    fn authenticate(&self, key: &[u8], message: &[u8]) -> Result<Vec<u8>, Self::Error>;
}

/// Whether a peer key has the shape the protocol agrees keys with.
pub open spec fn is_agreement_key(k: KeyAgreement) -> bool {
    k is EcdhEsHkdf256 && k.wf()
}

fn agreement_key_ok(k: &KeyAgreement) -> (r: bool)
    ensures
        r == is_agreement_key(*k),
{
    match k {
        KeyAgreement::EcdhEsHkdf256 { x, y } => x.len() == 32 && y.len() == 32,
        _ => false,
    }
}

/// The authenticator role: its backend, its protocol parameters and the
/// state of its token.
pub struct AuthenticatorRole<B: Authenticator> {
    pub backend: B,
    parameters: ProtocolParameters,
    token: TokenState,
}

impl<B: Authenticator> AuthenticatorRole<B> {
    pub closed spec fn spec_parameters(&self) -> ProtocolParameters {
        self.parameters
    }

    pub closed spec fn spec_token(&self) -> TokenState {
        self.token
    }

    pub open spec fn wf(&self) -> bool {
        self.spec_parameters() == parameters_of(self.spec_parameters().version)
    }

    /// A role for protocol `version`, with no token issued.
    pub fn new(backend: B, version: Version) -> (r: Self)
        ensures
            r.wf(),
            r.spec_parameters() == parameters_of(version),
            r.spec_token() == TokenState::Unset,
    {
        AuthenticatorRole { backend, parameters: ProtocolParameters::for_version(version), token: TokenState::Unset }
    }

    pub fn parameters(&self) -> (r: ProtocolParameters)
        ensures
            r == self.spec_parameters(),
    {
        self.parameters
    }

    pub fn token_state(&self) -> (r: TokenState)
        ensures
            r == self.spec_token(),
    {
        self.token
    }

    /// Power-on: invalidates any earlier token and asks the backend for an
    /// ephemeral key pair. Running it again changes nothing more.
    pub fn initialize(&mut self) -> (r: Result<(), Error>)
        ensures
            final(self).spec_token() == invalidated(old(self).spec_token()),
            final(self).spec_parameters() == old(self).spec_parameters(),
            r is Err ==> r == Err::<(), _>(Error::OperationDenied),
    {
        self.token = if self.token == TokenState::Unset { TokenState::Unset } else { TokenState::Invalidated };
        match self.backend.initialize() {
            Ok(()) => Ok(()),
            Err(_) => Err(Error::OperationDenied),
        }
    }

    /// Rotates the key-agreement key pair; the token is kept.
    pub fn regenerate(&mut self) -> (r: Result<(), Error>)
        ensures
            final(self).spec_token() == old(self).spec_token(),
            final(self).spec_parameters() == old(self).spec_parameters(),
            r is Err ==> r == Err::<(), _>(Error::OperationDenied),
    {
        match self.backend.regenerate() {
            Ok(()) => Ok(()),
            Err(_) => Err(Error::OperationDenied),
        }
    }

    /// Invalidates the current token, on power-cycle or forced
    /// re-authentication.
    pub fn reset_pin_uv_auth_token(&mut self) -> (r: Result<(), Error>)
        ensures
            final(self).spec_token() == invalidated(old(self).spec_token()),
            final(self).spec_parameters() == old(self).spec_parameters(),
            r is Err ==> r == Err::<(), _>(Error::OperationDenied),
    {
        self.token = if self.token == TokenState::Unset { TokenState::Unset } else { TokenState::Invalidated };
        match self.backend.reset_pin_uv_auth_token() {
            Ok(()) => Ok(()),
            Err(_) => Err(Error::OperationDenied),
        }
    }

    /// Records that a fresh token was handed out by SetPin, ChangePin or a
    /// GetToken sub-command.
    pub fn issue_token(&mut self)
        ensures
            final(self).spec_token() == TokenState::Issued,
            final(self).spec_parameters() == old(self).spec_parameters(),
    {
        self.token = TokenState::Issued;
    }

    /// Starts using the issued token; only a token that is set can start.
    pub fn begin_use(&mut self) -> (r: Result<(), Error>)
        ensures
            r is Ok <==> old(self).spec_token() == TokenState::Issued,
            r is Ok ==> final(self).spec_token() == TokenState::InUse,
            r is Err ==> final(self).spec_token() == old(self).spec_token() && r == Err::<(), _>(
                Error::PinAuthInvalid,
            ),
            final(self).spec_parameters() == old(self).spec_parameters(),
    {
        if self.token == TokenState::Issued {
            self.token = TokenState::InUse;
            Ok(())
        } else {
            Err(Error::PinAuthInvalid)
        }
    }

    /// The authenticator's public key.
    pub fn get_public_key(&self) -> (r: Result<KeyAgreement, Error>)
        ensures
            r is Err ==> r == Err::<KeyAgreement, _>(Error::OperationDenied),
    {
        match self.backend.get_public_key() {
            Ok(k) => Ok(k),
            Err(_) => Err(Error::OperationDenied),
        }
    }

    /// Derives the shared secret from the platform's key. A key of the wrong
    /// shape is refused before the backend is asked; a backend failure, or a
    /// secret of the wrong length, is `InvalidParameter` too.
    pub fn decapsulate(&self, peer_cose_key: KeyAgreement) -> (r: Result<Vec<u8>, Error>)
        requires
            self.wf(),
        ensures
            !is_agreement_key(peer_cose_key) ==> r == Err::<Vec<u8>, _>(Error::InvalidParameter),
            r is Err ==> r == Err::<Vec<u8>, _>(Error::InvalidParameter),
            r matches Ok(s) ==> s@.len() == self.spec_parameters().shared_secret_len,
    {
        if !agreement_key_ok(&peer_cose_key) {
            return Err(Error::InvalidParameter);
        }
        match self.backend.decapsulate(peer_cose_key) {
            Ok(s) => self.parameters.check_shared_secret(s),
            Err(_) => Err(Error::InvalidParameter),
        }
    }

    /// Decrypts a ciphertext; one of an illegal length is refused before the
    /// backend is asked.
    pub fn decrypt(&self, ciphertext: &[u8]) -> (r: Result<Vec<u8>, Error>)
        requires
            self.wf(),
        ensures
            !(ciphertext@.len() >= self.spec_parameters().iv_len && (ciphertext@.len()
                - self.spec_parameters().iv_len) % (BLOCK_LEN as int) == 0) ==> r == Err::<Vec<u8>, _>(
                Error::InvalidParameter,
            ),
            r is Err ==> r == Err::<Vec<u8>, _>(Error::InvalidParameter),
    {
        if !self.parameters.ciphertext_len_ok(ciphertext.len()) {
            return Err(Error::InvalidParameter);
        }
        match self.backend.decrypt(ciphertext) {
            Ok(p) => Ok(p),
            Err(_) => Err(Error::InvalidParameter),
        }
    }

    /// Checks a MAC. With the current token as key, the token must be in
    /// use. Every failure after the structural checks is `OperationDenied`,
    /// whatever the backend reported.
    pub fn verify(&self, key_is_token: bool, key: &[u8], message: &[u8], signature: &[u8]) -> (r: Result<(), Error>)
        requires
            self.wf(),
        ensures
            signature@.len() != self.spec_parameters().mac_len ==> r == Err::<(), _>(Error::PinAuthInvalid),
            signature@.len() == self.spec_parameters().mac_len && key_is_token && self.spec_token()
                != TokenState::InUse ==> r == Err::<(), _>(Error::PinAuthInvalid),
            r is Ok ==> signature@.len() == self.spec_parameters().mac_len && (key_is_token
                ==> self.spec_token() == TokenState::InUse),
            r is Err ==> (r == Err::<(), _>(Error::PinAuthInvalid) || r == Err::<(), _>(Error::OperationDenied)),
    {
        if signature.len() != self.parameters.mac_len {
            return Err(Error::PinAuthInvalid);
        }
        if key_is_token && self.token != TokenState::InUse {
            return Err(Error::PinAuthInvalid);
        }
        match self.backend.verify(key, message, signature) {
            Ok(()) => Ok(()),
            Err(_) => Err(Error::OperationDenied),
        }
    }
}

/// Power-on twice leaves the token as power-on once does.
pub proof fn lemma_initialize_idempotent(t: TokenState)
    ensures
        invalidated(invalidated(t)) == invalidated(t),
        invalidated(t) != TokenState::Issued && invalidated(t) != TokenState::InUse,
{
}

/// The platform role: its backend and its protocol parameters.
pub struct PlatformRole<B: Platform> {
    pub backend: B,
    parameters: ProtocolParameters,
}

impl<B: Platform> PlatformRole<B> {
    pub closed spec fn spec_parameters(&self) -> ProtocolParameters {
        self.parameters
    }

    pub open spec fn wf(&self) -> bool {
        self.spec_parameters() == parameters_of(self.spec_parameters().version)
    }

    pub fn new(backend: B, version: Version) -> (r: Self)
        ensures
            r.wf(),
            r.spec_parameters() == parameters_of(version),
    {
        PlatformRole { backend, parameters: ProtocolParameters::for_version(version) }
    }

    /// Agrees a shared secret with the authenticator's key. A key of the
    /// wrong shape is refused before the backend is asked.
    pub fn encapsulate(&self, peer_cose_key: KeyAgreement) -> (r: Result<(KeyAgreement, Vec<u8>), Error>)
        requires
            self.wf(),
        ensures
            !is_agreement_key(peer_cose_key) ==> r is Err,
            r is Err ==> r == Err::<(KeyAgreement, Vec<u8>), _>(Error::InvalidParameter),
            r matches Ok((_, s)) ==> s@.len() == self.spec_parameters().shared_secret_len,
    {
        if !agreement_key_ok(&peer_cose_key) {
            return Err(Error::InvalidParameter);
        }
        match self.backend.encapsulate(peer_cose_key) {
            Ok((k, s)) => match self.parameters.check_shared_secret(s) {
                Ok(s) => Ok((k, s)),
                Err(e) => Err(e),
            },
            Err(_) => Err(Error::InvalidParameter),
        }
    }

    /// Encrypts whole AES blocks under the AES part of the shared secret.
    pub fn encrypt(&self, shared_secret: &[u8], plaintext: &[u8]) -> (r: Result<Vec<u8>, Error>)
        requires
            self.wf(),
            shared_secret@.len() == self.spec_parameters().shared_secret_len,
        ensures
            plaintext@.len() % (BLOCK_LEN as nat) != 0 ==> r == Err::<Vec<u8>, _>(Error::InvalidParameter),
            r is Err ==> r == Err::<Vec<u8>, _>(Error::InvalidParameter),
    {
        if plaintext.len() % BLOCK_LEN != 0 {
            return Err(Error::InvalidParameter);
        }
        let key = self.parameters.aes_key(shared_secret);
        match self.backend.encrypt(key.as_slice(), plaintext) {
            Ok(c) => Ok(c),
            Err(_) => Err(Error::InvalidParameter),
        }
    }

    /// Decrypts under the AES part of the shared secret; a ciphertext of an
    /// illegal length is refused before the backend is asked.
    pub fn decrypt(&self, shared_secret: &[u8], ciphertext: &[u8]) -> (r: Result<Vec<u8>, Error>)
        requires
            self.wf(),
            shared_secret@.len() == self.spec_parameters().shared_secret_len,
        ensures
            !(ciphertext@.len() >= self.spec_parameters().iv_len && (ciphertext@.len()
                - self.spec_parameters().iv_len) % (BLOCK_LEN as int) == 0) ==> r == Err::<Vec<u8>, _>(
                Error::InvalidParameter,
            ),
            r is Err ==> r == Err::<Vec<u8>, _>(Error::InvalidParameter),
    {
        if !self.parameters.ciphertext_len_ok(ciphertext.len()) {
            return Err(Error::InvalidParameter);
        }
        let key = self.parameters.aes_key(shared_secret);
        match self.backend.decrypt(key.as_slice(), ciphertext) {
            Ok(p) => Ok(p),
            Err(_) => Err(Error::InvalidParameter),
        }
    }

    /// The wire MAC of `message` under `key`: the backend's HMAC-SHA-256,
    /// cut to the version's MAC length.
    pub fn authenticate(&self, key: &[u8], message: &[u8]) -> (r: Result<Vec<u8>, Error>)
        requires
            self.wf(),
        ensures
            r matches Ok(m) ==> m@.len() == self.spec_parameters().mac_len,
            r is Err ==> r == Err::<Vec<u8>, _>(Error::OperationDenied),
    {
        match self.backend.authenticate(key, message) {
            Ok(h) => self.parameters.mac_of_hmac(h),
            Err(_) => Err(Error::OperationDenied),
        }
    }
}

} // verus!
