use ctap2_core::client_pin::{
    Error, PinUvAuthToken, RawRequest, RawResponse, RawSubcommand, Request, Response, Version,
};
use ctap2_core::command::Command;
use ctap2_core::key_agreement::{KeyAgreement, RawCoseKey};
use ctap2_core::permission::{Permission, PermissionError, PermissionSet};

fn ecdh_key() -> KeyAgreement {
    KeyAgreement::EcdhEsHkdf256 { x: vec![1u8; 32], y: vec![2u8; 32] }
}

fn empty_raw() -> RawRequest {
    RawRequest {
        pin_uv_auth_protocol: None,
        sub_command: None,
        key_agreement: None,
        pin_uv_auth_param: None,
        new_pin_enc: None,
        pin_hash_enc: None,
        permissions: None,
        rp_id: None,
    }
}

#[test]
fn command_opcodes_resolve_back() {
    let all = [
        Command::AuthenticatorMakeCredential,
        Command::AuthenticatorGetAssertion,
        Command::AuthenticatorGetNextAssertion,
        Command::AuthenticatorGetInfo,
        Command::AuthenticatorClientPin,
        Command::AuthenticatorReset,
        Command::AuthenticatorBioEnrollment,
        Command::AuthenticatorCredentialManagement,
        Command::AuthenticatorSelection,
        Command::AuthenticatorLargeBlobs,
        Command::AuthenticatorConfig,
        Command::PrototypeAuthenticatorBioEnrollment,
        Command::PrototypeAuthenticatorCredentialmanagement,
    ];
    for c in all {
        assert_eq!(Command::resolve(c.opcode()), Ok(c));
    }
    assert_eq!(Command::AuthenticatorClientPin.opcode(), 0x06);
    assert_eq!(Command::AuthenticatorConfig.opcode(), 0x0D);
}

#[test]
fn unknown_opcode_is_unsupported() {
    let r = Command::resolve(0x03);
    assert!(r.is_err());
    assert_eq!(r.unwrap_err().opcode, 0x03);
    assert!(Command::resolve(0xFF).is_err());
}

#[test]
fn permission_subsets_round_trip() {
    let all = [
        Permission::MakeCredential,
        Permission::GetAssertion,
        Permission::CredentialManagement,
        Permission::BiometricEnrollment,
        Permission::LargeBlobWrite,
        Permission::AuthenticatorConfiguration,
    ];
    for mask in 1u32..64 {
        let chosen: Vec<Permission> =
            (0..6).filter(|i| mask & (1 << i) != 0).map(|i| all[i]).collect();
        let set = PermissionSet::from_permissions(&chosen);
        let byte = set.to_byte();
        assert_eq!(byte as u32, mask);
        let back = PermissionSet::from_byte(byte).unwrap();
        assert_eq!(back, set);
        for p in all {
            assert_eq!(back.contains(p), chosen.contains(&p));
        }
    }
}

#[test]
fn permission_bits_are_fixed() {
    let set = PermissionSet::from_permissions(&vec![
        Permission::GetAssertion,
        Permission::AuthenticatorConfiguration,
    ]);
    assert_eq!(set.to_byte(), 0x22);
    assert_eq!(Permission::BiometricEnrollment.bit(), 0x08);
}

#[test]
fn permission_byte_with_unknown_bit_is_refused() {
    assert_eq!(PermissionSet::from_byte(0x40), Err(PermissionError::UnknownBit));
    assert_eq!(PermissionSet::from_byte(0x81), Err(PermissionError::UnknownBit));
    assert_eq!(PermissionSet::from_byte(0x00), Err(PermissionError::Empty));
    assert!(PermissionSet::empty().is_empty());
}

#[test]
fn get_key_agreement_v2_encodes_to_two_tags() {
    let raw = RawRequest::from(Request::GetKeyAgreement { version: Version::Two });
    assert_eq!(raw.tags(), vec![0x01, 0x02]);
    assert_eq!(raw.pin_uv_auth_protocol, Some(2));
    assert_eq!(raw.sub_command, Some(0x02));
    match Request::try_from(raw) {
        Ok(Request::GetKeyAgreement { version }) => assert_eq!(version, Version::Two),
        _ => panic!("expected GetKeyAgreement"),
    }
}

#[test]
fn decoding_the_key_agreement_map_gives_the_request() {
    let raw = RawRequest { pin_uv_auth_protocol: Some(2), sub_command: Some(2), ..empty_raw() };
    match Request::try_from(raw) {
        Ok(Request::GetKeyAgreement { version: Version::Two }) => {}
        _ => panic!("expected GetKeyAgreement version two"),
    }
}

#[test]
fn get_pin_retries_writes_only_the_subcommand() {
    let raw = RawRequest::from(Request::GetPinRetries);
    assert_eq!(raw.tags(), vec![0x02]);
    assert_eq!(raw.sub_command, Some(0x01));
}

#[test]
fn absent_rp_id_is_not_written() {
    let perms = PermissionSet::from_permissions(&vec![Permission::MakeCredential]);
    let req = Request::GetPinUvAuthTokenUsingUvWithPermissions {
        version: Version::One,
        key_agreement: ecdh_key(),
        permissions: perms,
        relying_party_id: None,
    };
    let raw = RawRequest::from(req);
    assert_eq!(raw.tags(), vec![0x01, 0x02, 0x03, 0x09]);
    assert_eq!(raw.permissions, Some(0x01));
}

#[test]
fn set_pin_round_trips() {
    let req = Request::SetPin {
        version: Version::Two,
        key_agreement: ecdh_key(),
        new_pin_encrypted: vec![7u8; 64],
        pin_uv_auth_param: vec![9u8; 16],
    };
    let raw = RawRequest::from(req);
    assert_eq!(raw.tags(), vec![0x01, 0x02, 0x03, 0x04, 0x05]);
    let key = raw.key_agreement.clone().unwrap();
    assert_eq!(key.kty, Some(2));
    assert_eq!(key.alg, Some(-25));
    assert_eq!(key.crv, Some(1));
    match Request::try_from(raw) {
        Ok(Request::SetPin { version, key_agreement, new_pin_encrypted, pin_uv_auth_param }) => {
            assert_eq!(version, Version::Two);
            assert_eq!(new_pin_encrypted, vec![7u8; 64]);
            assert_eq!(pin_uv_auth_param, vec![9u8; 16]);
            match key_agreement {
                KeyAgreement::EcdhEsHkdf256 { x, y } => {
                    assert_eq!(x, vec![1u8; 32]);
                    assert_eq!(y, vec![2u8; 32]);
                }
                _ => panic!("wrong key shape"),
            }
        }
        _ => panic!("expected SetPin"),
    }
}

#[test]
fn pin_token_with_permissions_round_trips() {
    let perms = PermissionSet::from_permissions(&vec![
        Permission::CredentialManagement,
        Permission::LargeBlobWrite,
    ]);
    let req = Request::GetPinUvAuthTokenUsingPinWithPermissions {
        version: Version::One,
        key_agreement: ecdh_key(),
        pin_hash_encrypted: vec![3u8; 16],
        permissions: perms,
        relying_party_id: Some("example.com".to_string()),
    };
    let raw = RawRequest::from(req);
    assert_eq!(raw.tags(), vec![0x01, 0x02, 0x03, 0x06, 0x09, 0x0A]);
    match Request::try_from(raw) {
        Ok(Request::GetPinUvAuthTokenUsingPinWithPermissions {
            permissions, relying_party_id, ..
        }) => {
            assert_eq!(permissions, perms);
            assert_eq!(relying_party_id, Some("example.com".to_string()));
        }
        _ => panic!("expected GetPinUvAuthTokenUsingPinWithPermissions"),
    }
}

#[test]
fn missing_subcommand_is_missing_parameter() {
    let raw = RawRequest { pin_uv_auth_protocol: Some(1), ..empty_raw() };
    assert!(matches!(Request::try_from(raw), Err(Error::MissingParameter)));
}

#[test]
fn unknown_subcommand_is_invalid_parameter() {
    let raw = RawRequest { sub_command: Some(0x08), ..empty_raw() };
    assert!(matches!(Request::try_from(raw), Err(Error::InvalidParameter)));
}

#[test]
fn missing_required_field_is_missing_parameter() {
    let raw = RawRequest { sub_command: Some(0x02), ..empty_raw() };
    assert!(matches!(Request::try_from(raw), Err(Error::MissingParameter)));
    let raw = RawRequest { pin_uv_auth_protocol: Some(1), sub_command: Some(0x05), ..empty_raw() };
    assert!(matches!(Request::try_from(raw), Err(Error::MissingParameter)));
}

#[test]
fn foreign_field_is_invalid_parameter() {
    let raw = RawRequest { sub_command: Some(0x01), permissions: Some(1), ..empty_raw() };
    assert!(matches!(Request::try_from(raw), Err(Error::InvalidParameter)));
}

#[test]
fn bad_version_and_lengths_are_invalid() {
    let raw = RawRequest { pin_uv_auth_protocol: Some(3), sub_command: Some(0x02), ..empty_raw() };
    assert!(matches!(Request::try_from(raw), Err(Error::InvalidParameter)));
    let raw = RawRequest::from(Request::GetPinToken {
        version: Version::One,
        key_agreement: ecdh_key(),
        pin_hash_encrypted: vec![0u8; 16],
    });
    let raw = RawRequest { pin_hash_enc: Some(vec![0u8; 15]), ..raw };
    assert!(matches!(Request::try_from(raw), Err(Error::InvalidParameter)));
}

#[test]
fn unknown_permission_bit_in_request_is_invalid() {
    let raw = RawRequest {
        pin_uv_auth_protocol: Some(2),
        sub_command: Some(0x06),
        key_agreement: Some(ecdh_key().into_raw()),
        permissions: Some(0x41),
        ..empty_raw()
    };
    assert!(matches!(Request::try_from(raw), Err(Error::InvalidParameter)));
}

#[test]
fn unknown_key_shape_is_invalid() {
    let key = RawCoseKey { kty: Some(2), alg: Some(-7), crv: Some(6), x: Some(vec![0; 32]), y: Some(vec![0; 32]) };
    assert!(KeyAgreement::from_raw(key.clone()).is_err());
    let raw = RawRequest {
        pin_uv_auth_protocol: Some(1),
        sub_command: Some(0x05),
        key_agreement: Some(key),
        pin_hash_enc: Some(vec![0; 16]),
        ..empty_raw()
    };
    assert!(matches!(Request::try_from(raw), Err(Error::InvalidParameter)));
}

#[test]
fn key_shapes_match() {
    let p256 = RawCoseKey { kty: Some(2), alg: Some(-7), crv: Some(1), x: Some(vec![5; 32]), y: Some(vec![6; 32]) };
    assert!(matches!(KeyAgreement::from_raw(p256), Ok(KeyAgreement::P256 { .. })));
    let ed = RawCoseKey { kty: Some(1), alg: Some(-8), crv: Some(6), x: Some(vec![5; 32]), y: None };
    assert!(matches!(KeyAgreement::from_raw(ed.clone()), Ok(KeyAgreement::Ed25519 { .. })));
    let ed_with_y = RawCoseKey { y: Some(vec![1; 32]), ..ed };
    assert!(KeyAgreement::from_raw(ed_with_y).is_err());
    let short = RawCoseKey { kty: Some(2), alg: Some(-25), crv: Some(1), x: Some(vec![5; 31]), y: Some(vec![6; 32]) };
    assert!(KeyAgreement::from_raw(short).is_err());
}

#[test]
fn version_bytes() {
    assert_eq!(Version::try_from(1), Ok(Version::One));
    assert_eq!(Version::try_from(2), Ok(Version::Two));
    assert_eq!(Version::try_from(0), Err(Error::InvalidParameter));
    assert_eq!(Version::Two.number(), 2);
}

fn empty_response() -> RawResponse {
    RawResponse { key_agreement: None, pin_uv_auth_token: None, pin_retries: None, power_cycle_state: None, uv_retries: None }
}

#[test]
fn responses_decode_by_subcommand() {
    let raw = RawResponse { pin_uv_auth_token: Some(vec![1; 32]), ..empty_response() };
    assert!(matches!(
        Response::try_from(raw, RawSubcommand::GetPinToken),
        Ok(Response::GetPinToken { pin_uv_auth_token: PinUvAuthToken::Long(_) })
    ));
    let raw = RawResponse { pin_uv_auth_token: Some(vec![1; 16]), ..empty_response() };
    assert!(matches!(
        Response::try_from(raw, RawSubcommand::GetPinUvAuthTokenUsingUvWithPermissions),
        Ok(Response::GetPinUvAuthTokenUsingUvWithPermissions { pin_uv_auth_token: PinUvAuthToken::Short(_) })
    ));
    let raw = RawResponse { pin_uv_auth_token: Some(vec![1; 20]), ..empty_response() };
    assert!(matches!(Response::try_from(raw, RawSubcommand::GetPinToken), Err(Error::InvalidParameter)));
    assert!(matches!(Response::try_from(empty_response(), RawSubcommand::GetPinRetries), Err(Error::MissingParameter)));
    assert!(matches!(Response::try_from(empty_response(), RawSubcommand::ChangePin), Ok(Response::ChangePin)));
}

#[test]
fn uv_retries_are_bounded() {
    let raw = RawResponse { uv_retries: Some(0), ..empty_response() };
    assert!(matches!(Response::try_from(raw, RawSubcommand::GetUvRetries), Err(Error::InvalidParameter)));
    let raw = RawResponse { uv_retries: Some(26), ..empty_response() };
    assert!(matches!(Response::try_from(raw, RawSubcommand::GetUvRetries), Err(Error::InvalidParameter)));
    let raw = RawResponse { uv_retries: Some(25), ..empty_response() };
    match Response::try_from(raw, RawSubcommand::GetUvRetries) {
        Ok(Response::GetUvRetries { uv_retries }) => assert_eq!(uv_retries.get(), 25),
        _ => panic!("expected GetUvRetries"),
    }
}

#[test]
fn response_round_trips() {
    let resp = Response::GetPinRetries { pin_retries: 8, power_cycle_state: None };
    let raw = RawResponse::from(resp);
    assert_eq!(raw.pin_retries, Some(8));
    assert!(raw.power_cycle_state.is_none() && raw.key_agreement.is_none() && raw.uv_retries.is_none());
    match Response::try_from(raw, RawSubcommand::GetPinRetries) {
        Ok(Response::GetPinRetries { pin_retries: 8, power_cycle_state: None }) => {}
        _ => panic!("expected GetPinRetries"),
    }
    let raw = RawResponse::from(Response::GetKeyAgreement { key_agreement: ecdh_key() });
    assert!(matches!(
        Response::try_from(raw, RawSubcommand::GetKeyAgreement),
        Ok(Response::GetKeyAgreement { key_agreement: KeyAgreement::EcdhEsHkdf256 { .. } })
    ));
}

#[test]
fn permission_bits_pair_with_permissions() {
    for p in [
        Permission::MakeCredential,
        Permission::GetAssertion,
        Permission::CredentialManagement,
        Permission::BiometricEnrollment,
        Permission::LargeBlobWrite,
        Permission::AuthenticatorConfiguration,
    ] {
        assert_eq!(Permission::from_bit(p.bit()), Some(p));
    }
    assert_eq!(Permission::from_bit(0x08), Some(Permission::BiometricEnrollment));
    assert_eq!(Permission::from_bit(0x40), None);
    assert_eq!(Permission::from_bit(0x03), None);
}

#[test]
fn error_messages() {
    assert_eq!(Error::MissingParameter.message(), "Missing parameter");
    assert_eq!(Error::PinAuthInvalid.message(), "PIN auth invalid");
    assert_eq!(Error::UserVerificationInvalid.message(), "User verification invalid");
    assert_eq!(ctap2_core::management::Error::NoCredentials.message(), "No credentials");
}
