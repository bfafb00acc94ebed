use ctap2_core::auth_protocol::{
    Authenticator, AuthenticatorRole, Platform, PlatformRole, ProtocolParameters, TokenState,
};
use ctap2_core::client_pin::{Error, Version};
use ctap2_core::key_agreement::KeyAgreement;

struct Backend {
    secret_len: usize,
    mac_ok: bool,
}

impl Authenticator for Backend {
    type Error = &'static str;

    fn initialize(&mut self) -> Result<(), Self::Error> {
        Ok(())
    }

    fn regenerate(&mut self) -> Result<(), Self::Error> {
        Err("no entropy")
    }

    fn reset_pin_uv_auth_token(&mut self) -> Result<(), Self::Error> {
        Ok(())
    }

    fn get_public_key(&self) -> Result<KeyAgreement, Self::Error> {
        Ok(KeyAgreement::EcdhEsHkdf256 { x: vec![1; 32], y: vec![2; 32] })
    }

    fn decapsulate(&self, _peer: KeyAgreement) -> Result<Vec<u8>, Self::Error> {
        Ok(vec![0x42; self.secret_len])
    }

    fn decrypt(&self, ciphertext: &[u8]) -> Result<Vec<u8>, Self::Error> {
        Ok(ciphertext.to_vec())
    }

    fn verify(&self, _key: &[u8], _message: &[u8], _signature: &[u8]) -> Result<(), Self::Error> {
        if self.mac_ok { Ok(()) } else { Err("bad mac: detail that must not leak") }
    }
}

impl Platform for Backend {
    type Error = ();

    fn initialize(&self) -> Result<(), Self::Error> {
        Ok(())
    }

    fn encapsulate(&self, _peer: KeyAgreement) -> Result<(KeyAgreement, Vec<u8>), Self::Error> {
        Ok((KeyAgreement::EcdhEsHkdf256 { x: vec![3; 32], y: vec![4; 32] }, vec![0x24; self.secret_len]))
    }

    fn encrypt(&self, key: &[u8], plaintext: &[u8]) -> Result<Vec<u8>, Self::Error> {
        let mut out = key.to_vec();
        out.extend_from_slice(plaintext);
        Ok(out)
    }

    fn decrypt(&self, _key: &[u8], ciphertext: &[u8]) -> Result<Vec<u8>, Self::Error> {
        Ok(ciphertext.to_vec())
    }

    fn authenticate(&self, _key: &[u8], _message: &[u8]) -> Result<Vec<u8>, Self::Error> {
        Ok((0u8..32).collect())
    }
}

fn peer() -> KeyAgreement {
    KeyAgreement::EcdhEsHkdf256 { x: vec![9; 32], y: vec![8; 32] }
}

#[test]
fn version_parameters() {
    let one = ProtocolParameters::for_version(Version::One);
    assert_eq!((one.token_len, one.shared_secret_len, one.mac_len, one.iv_len), (16, 32, 16, 0));
    assert!(!one.uses_hkdf);
    let two = ProtocolParameters::for_version(Version::Two);
    assert_eq!((two.token_len, two.shared_secret_len, two.mac_len, two.iv_len), (32, 64, 32, 16));
    assert!(two.uses_hkdf);
}

#[test]
fn key_split_and_mac_cut() {
    let two = ProtocolParameters::for_version(Version::Two);
    let secret: Vec<u8> = (0u8..64).collect();
    assert_eq!(two.hmac_key(&secret), (0u8..32).collect::<Vec<u8>>());
    assert_eq!(two.aes_key(&secret), (32u8..64).collect::<Vec<u8>>());
    let one = ProtocolParameters::for_version(Version::One);
    let secret: Vec<u8> = (0u8..32).collect();
    assert_eq!(one.aes_key(&secret), secret);
    assert_eq!(one.hmac_key(&secret), secret);
    let mac: Vec<u8> = (0u8..32).collect();
    assert_eq!(one.wire_mac(&mac), (0u8..16).collect::<Vec<u8>>());
    assert_eq!(two.wire_mac(&mac), mac);
    assert!(two.ciphertext_len_ok(48));
    assert!(!two.ciphertext_len_ok(40));
    assert!(!two.ciphertext_len_ok(8));
    assert!(one.ciphertext_len_ok(32));
}

#[test]
fn token_lifecycle() {
    let mut role = AuthenticatorRole::new(Backend { secret_len: 64, mac_ok: true }, Version::Two);
    assert_eq!(role.token_state(), TokenState::Unset);
    assert_eq!(role.initialize(), Ok(()));
    assert_eq!(role.token_state(), TokenState::Unset);
    assert_eq!(role.begin_use(), Err(Error::PinAuthInvalid));
    role.issue_token();
    assert_eq!(role.token_state(), TokenState::Issued);
    assert_eq!(role.begin_use(), Ok(()));
    assert_eq!(role.token_state(), TokenState::InUse);
    assert_eq!(role.reset_pin_uv_auth_token(), Ok(()));
    assert_eq!(role.token_state(), TokenState::Invalidated);
    assert_eq!(role.initialize(), Ok(()));
    assert_eq!(role.token_state(), TokenState::Invalidated);
    assert_eq!(role.regenerate(), Err(Error::OperationDenied));
}

#[test]
fn decapsulate_checks_shape_and_length() {
    let role = AuthenticatorRole::new(Backend { secret_len: 64, mac_ok: true }, Version::Two);
    assert_eq!(role.decapsulate(peer()).unwrap().len(), 64);
    let p256 = KeyAgreement::P256 { x: vec![9; 32], y: vec![8; 32] };
    assert_eq!(role.decapsulate(p256), Err(Error::InvalidParameter));
    let role = AuthenticatorRole::new(Backend { secret_len: 32, mac_ok: true }, Version::Two);
    assert_eq!(role.decapsulate(peer()), Err(Error::InvalidParameter));
}

#[test]
fn mac_failure_is_operation_denied() {
    let mut role = AuthenticatorRole::new(Backend { secret_len: 64, mac_ok: false }, Version::Two);
    assert_eq!(role.verify(false, &[0; 32], b"m", &[0; 32]), Err(Error::OperationDenied));
    assert_eq!(role.verify(false, &[0; 32], b"m", &[0; 16]), Err(Error::PinAuthInvalid));
    role.backend.mac_ok = true;
    assert_eq!(role.verify(false, &[0; 32], b"m", &[0; 32]), Ok(()));
    assert_eq!(role.verify(true, &[0; 32], b"m", &[0; 32]), Err(Error::PinAuthInvalid));
    role.issue_token();
    role.begin_use().unwrap();
    assert_eq!(role.verify(true, &[0; 32], b"m", &[0; 32]), Ok(()));
}

#[test]
fn authenticator_decrypt_checks_length() {
    let role = AuthenticatorRole::new(Backend { secret_len: 64, mac_ok: true }, Version::Two);
    assert_eq!(role.decrypt(&[0; 20]), Err(Error::InvalidParameter));
    assert_eq!(role.decrypt(&[7; 32]).unwrap(), vec![7; 32]);
}

#[test]
fn platform_role() {
    let role = PlatformRole::new(Backend { secret_len: 32, mac_ok: true }, Version::One);
    let (_, secret) = role.encapsulate(peer()).unwrap();
    assert_eq!(secret.len(), 32);
    assert_eq!(role.encrypt(&secret, &[0; 15]), Err(Error::InvalidParameter));
    assert_eq!(role.encrypt(&secret, &[5; 16]).unwrap().len(), 48);
    assert_eq!(role.authenticate(&secret, b"msg").unwrap(), (0u8..16).collect::<Vec<u8>>());
    let two = PlatformRole::new(Backend { secret_len: 64, mac_ok: true }, Version::Two);
    let (_, secret) = two.encapsulate(peer()).unwrap();
    let ct = two.encrypt(&secret, &[5; 16]).unwrap();
    assert_eq!(&ct[..32], &[0x24; 32][..]);
    assert_eq!(two.authenticate(&secret, b"msg").unwrap().len(), 32);
    assert_eq!(two.decrypt(&secret, &[0; 16]).unwrap().len(), 16);
    assert_eq!(two.decrypt(&secret, &[0; 17]), Err(Error::InvalidParameter));
    let wrong = PlatformRole::new(Backend { secret_len: 32, mac_ok: true }, Version::Two);
    assert_eq!(wrong.encapsulate(peer()).err(), Some(Error::InvalidParameter));
}

#[test]
fn backend_results_are_checked() {
    let two = ProtocolParameters::for_version(Version::Two);
    assert_eq!(two.check_shared_secret(vec![1; 64]), Ok(vec![1; 64]));
    assert_eq!(two.check_shared_secret(vec![1; 32]), Err(Error::InvalidParameter));
    let one = ProtocolParameters::for_version(Version::One);
    let h: Vec<u8> = (0u8..32).collect();
    assert_eq!(one.mac_of_hmac(h.clone()), Ok((0u8..16).collect::<Vec<u8>>()));
    assert_eq!(two.mac_of_hmac(h), Ok((0u8..32).collect::<Vec<u8>>()));
    assert_eq!(two.mac_of_hmac(vec![0; 20]), Err(Error::OperationDenied));
}
