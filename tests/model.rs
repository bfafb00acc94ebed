use ctap2_core::attestation::FormatIdentifier;
use ctap2_core::authenticator_data::DataError;
use ctap2_core::client_pin::Version as AuthProtocolVersion;
use ctap2_core::command::Command;
use ctap2_core::credential_management::Type as CredentialKind;
use ctap2_core::device::{Info, InfoError, InfoParts, OptionId, OptionSupport, Version};
use ctap2_core::entities::{Descriptor, EntityError, Parameters, RelyingPartyEntity, Type, UserEntity};
use ctap2_core::extensions::{Identifier, Policy};
use ctap2_core::make;
use ctap2_core::get;
use ctap2_core::management;
use ctap2_core::management::{Cursor, EnumerationSession, Error as ManagementError, RawSubcommand};
use ctap2_core::registry::UserVerify;
use ctap2_core::reset::{decide_reset, Error as ResetError, ResetAction};
use ctap2_core::webauthn::{Attachment, AuthenticatorSelectionCriteria, ResidentKeyRequirement, UserVerificationRequirement};

#[test]
fn descriptor_id_length_bounds() {
    assert_eq!(Descriptor::new(vec![0; 15], None).unwrap_err(), EntityError::IdTooShort);
    assert!(Descriptor::new(vec![0; 16], None).is_ok());
    assert!(Descriptor::new(vec![0; 1023], None).is_ok());
    assert_eq!(Descriptor::new(vec![0; 1024], None).unwrap_err(), EntityError::IdTooLong);
    let d = Descriptor { credential_type: Type::PublicKey, id: vec![1; 15], transports: None };
    assert_eq!(d.validate(), Err(EntityError::IdTooShort));
}

#[test]
fn user_handle_at_most_64_bytes() {
    assert!(UserEntity::new(vec![], None, None).is_ok());
    assert!(UserEntity::new(vec![0; 64], Some("a".to_string()), None).is_ok());
    assert!(UserEntity::new(vec![0; 65], None, None).is_err());
}

#[test]
fn enumeration_cursor_is_dropped_by_an_unrelated_command() {
    let mut s = EnumerationSession::new();
    s.on_rps_begun(3);
    assert_eq!(s.cursor, Cursor::RelyingParties { remaining: 2 });
    assert_eq!(s.on_request(Command::AuthenticatorGetInfo, None), Ok(()));
    assert_eq!(s.cursor, Cursor::Idle);
    assert_eq!(
        s.on_request(Command::AuthenticatorCredentialManagement, Some(RawSubcommand::EnumerateRpsGetNextRp)),
        Err(ManagementError::NotAllowed)
    );
}

#[test]
fn enumeration_runs_to_its_count() {
    let mut s = EnumerationSession::new();
    s.on_rps_begun(3);
    let next = Some(RawSubcommand::EnumerateRpsGetNextRp);
    assert_eq!(s.on_request(Command::AuthenticatorCredentialManagement, next), Ok(()));
    assert_eq!(s.on_request(Command::AuthenticatorCredentialManagement, next), Ok(()));
    assert_eq!(s.on_request(Command::AuthenticatorCredentialManagement, next), Err(ManagementError::NotAllowed));
    s.on_credentials_begun(2);
    assert_eq!(
        s.on_request(Command::AuthenticatorCredentialManagement, next),
        Err(ManagementError::NotAllowed)
    );
    s.on_credentials_begun(2);
    assert_eq!(
        s.on_request(Command::AuthenticatorCredentialManagement, Some(RawSubcommand::EnumerateCredentialsGetNextCredential)),
        Ok(())
    );
    s.on_rps_begun(0);
    assert_eq!(s.cursor, Cursor::Idle);
}

#[test]
fn management_subcommand_bytes() {
    assert_eq!(RawSubcommand::try_from(0x03), Ok(RawSubcommand::EnumerateRpsGetNextRp));
    assert_eq!(RawSubcommand::try_from(0x08), Err(ManagementError::InvalidParameter));
    assert_eq!(RawSubcommand::UpdateUserInformation.number(), 0x07);
}

fn parts() -> InfoParts {
    InfoParts {
        versions: vec![Version::Fido2_1],
        extensions: None,
        aaguid: vec![0; 16],
        options: None,
        max_message_size: None,
        pin_uv_auth_protocols: None,
        max_credential_count_in_list: None,
        max_credential_id_length: None,
        transports: None,
        algorithms: None,
        max_serialized_large_blob_array_size: None,
        force_pin_change: None,
        min_pin_length: None,
        firmware_version: None,
        max_cred_blob_length: None,
        max_rpids_for_set_min_pin_length: None,
        preferred_platform_uv_attempts: None,
        uv_modality: None,
        certifications: None,
        remaining_discoverable_credentials: None,
        vendor_prototype_config_commands: None,
        attestation_formats: None,
        uv_count_since_last_pin_entry: None,
        long_touch_for_reset: None,
    }
}

#[test]
fn info_co_presence_rules() {
    assert!(Info::new(parts()).is_ok());
    let p = InfoParts { min_pin_length: Some(4), ..parts() };
    assert_eq!(Info::new(p).unwrap_err(), InfoError::MinPinLengthMismatch);
    let p = InfoParts { options: Some(vec![(OptionId::ClientPin, true)]), ..parts() };
    assert_eq!(Info::new(p).unwrap_err(), InfoError::MinPinLengthMismatch);
    let p = InfoParts { options: Some(vec![(OptionId::ClientPin, false)]), min_pin_length: Some(4), ..parts() };
    assert!(Info::new(p).is_ok());
    let p = InfoParts { extensions: Some(vec![Identifier::CredentialBlob]), ..parts() };
    assert_eq!(Info::new(p).unwrap_err(), InfoError::CredBlobLengthMismatch);
    let p = InfoParts { extensions: Some(vec![Identifier::CredentialBlob]), max_cred_blob_length: Some(32), ..parts() };
    assert!(Info::new(p).is_ok());
    let p = InfoParts { max_cred_blob_length: Some(32), ..parts() };
    assert_eq!(Info::new(p).unwrap_err(), InfoError::CredBlobLengthMismatch);
    let p = InfoParts { uv_modality: Some(vec![UserVerify::FingerprintInternal, UserVerify::PasscodeExternal]), ..parts() };
    assert_eq!(Info::new(p).unwrap_err(), InfoError::ClientPinInUvModality);
    let p = InfoParts { options: Some(vec![(OptionId::UserPresence, true), (OptionId::UserPresence, false)]), ..parts() };
    assert_eq!(Info::new(p).unwrap_err(), InfoError::DuplicateOption);
    let p = InfoParts { aaguid: vec![0; 15], ..parts() };
    assert_eq!(Info::new(p).unwrap_err(), InfoError::InvalidAaguid);
    let p = InfoParts { versions: vec![], ..parts() };
    assert_eq!(Info::new(p).unwrap_err(), InfoError::NoVersions);
    let p = InfoParts { pin_uv_auth_protocols: Some(vec![AuthProtocolVersion::Two, AuthProtocolVersion::Two]), ..parts() };
    assert_eq!(Info::new(p).unwrap_err(), InfoError::InvalidPinUvAuthProtocols);
    let p = InfoParts { options: Some(vec![(OptionId::LargeBlobs, true)]), max_serialized_large_blob_array_size: Some(1023), ..parts() };
    assert_eq!(Info::new(p).unwrap_err(), InfoError::LargeBlobSizeMismatch);
    let p = InfoParts { max_credential_id_length: Some(0), ..parts() };
    assert_eq!(Info::new(p).unwrap_err(), InfoError::ZeroCount);
}

#[test]
fn info_answers_option_and_extension_queries() {
    let p = InfoParts {
        options: Some(vec![(OptionId::ClientPin, true), (OptionId::UserVerification, false)]),
        min_pin_length: Some(4),
        extensions: Some(vec![Identifier::HmacSecret]),
        ..parts()
    };
    let info = Info::new(p).unwrap();
    assert_eq!(info.supports(OptionId::ClientPin), OptionSupport::Enabled);
    assert_eq!(info.supports(OptionId::UserVerification), OptionSupport::Disabled);
    assert_eq!(info.supports(OptionId::LargeBlobs), OptionSupport::Unsupported);
    assert!(info.supports_extension(Identifier::HmacSecret));
    assert!(!info.supports_extension(Identifier::CredentialBlob));
    assert_eq!(info.parts().min_pin_length, Some(4));
}

fn raw_make_response() -> make::RawResponse {
    let mut auth = vec![0x11; 32];
    auth.extend_from_slice(&[0x01, 0, 0, 0, 7]);
    make::RawResponse {
        fmt: Some("packed".to_string()),
        auth_data: Some(auth),
        att_stmt: None,
        ep_att: Some(false),
        large_blob_key: None,
        unsigned_extension_outputs: None,
    }
}

#[test]
fn make_response_without_auth_data_is_missing_parameter() {
    let raw = make::RawResponse { auth_data: None, ..raw_make_response() };
    assert!(matches!(make::Response::try_from(raw), Err(make::Error::MissingParameter)));
    let raw = make::RawResponse { fmt: None, ..raw_make_response() };
    assert!(matches!(make::Response::try_from(raw), Err(make::Error::MissingParameter)));
}

#[test]
fn make_response_decodes() {
    let r = make::Response::try_from(raw_make_response()).unwrap();
    assert_eq!(r.format, FormatIdentifier::Packed);
    assert_eq!(r.authenticator_data.signature_counter, 7);
    assert_eq!(r.enterprise_attestation, Some(false));
    let raw = make::RawResponse { fmt: Some("Packed".to_string()), ..raw_make_response() };
    assert!(matches!(make::Response::try_from(raw), Err(make::Error::InvalidParameter)));
    let raw = make::RawResponse { auth_data: Some(vec![0; 36]), ..raw_make_response() };
    assert!(matches!(make::Response::try_from(raw), Err(make::Error::InvalidParameter)));
    let _ = DataError::TooShort;
}

#[test]
fn format_names() {
    assert_eq!(FormatIdentifier::AndroidSafetyNet.name(), "android-safetynet");
    assert_eq!(FormatIdentifier::from_name(&"none".to_string()), Some(FormatIdentifier::NoAttestation));
    assert_eq!(FormatIdentifier::from_name(&"fido-u2f".to_string()), Some(FormatIdentifier::FidoU2f));
    assert_eq!(FormatIdentifier::from_name(&"x".to_string()), None);
}

fn make_request() -> make::Request {
    make::Request {
        client_data_hash: vec![0; 32],
        relying_party: RelyingPartyEntity { id: "com.example".to_string(), name: Some("Example Inc.".to_string()) },
        user: UserEntity { id: vec![1; 32], name: Some("example_user".to_string()), display_name: Some("Example User".to_string()) },
        public_key_credential_params: vec![Parameters { credential_type: Type::PublicKey, algorithm: -7 }],
        exclude_list: None,
        extensions: None,
        options: Some(vec![(make::OptionKey::Discoverable, true)]),
        pin_uv_auth_param: None,
        pin_uv_auth_protocol_version: None,
        enterprise_attestation: None,
    }
}

#[test]
fn make_request_shape() {
    assert_eq!(make_request().validate(), Ok(()));
    let r = make::Request { client_data_hash: vec![0; 31], ..make_request() };
    assert_eq!(r.validate(), Err(make::Error::InvalidParameter));
    let r = make::Request { public_key_credential_params: vec![], ..make_request() };
    assert_eq!(r.validate(), Err(make::Error::MissingParameter));
    let r = make::Request { options: Some(vec![(make::OptionKey::UserPresence, true), (make::OptionKey::UserPresence, false)]), ..make_request() };
    assert_eq!(r.validate(), Err(make::Error::InvalidOption));
    let r = make::Request { exclude_list: Some(vec![Descriptor { credential_type: Type::PublicKey, id: vec![0; 8], transports: None }]), ..make_request() };
    assert_eq!(r.validate(), Err(make::Error::InvalidParameter));
    let r = make::Request { pin_uv_auth_param: Some(vec![0; 16]), ..make_request() };
    assert_eq!(r.validate(), Err(make::Error::MissingParameter));
}

#[test]
fn get_request_shape() {
    let req = get::Request {
        relying_party_id: "com.example".to_string(),
        client_data_hash: vec![0; 32],
        allow_list: None,
        extensions: None,
        options: None,
        pin_uv_auth_param: None,
        pin_uv_auth_protocol_version: None,
    };
    assert_eq!(req.validate(), Ok(()));
    let r = get::Request { allow_list: Some(vec![]), ..req.clone() };
    assert_eq!(r.validate(), Err(get::Error::InvalidParameter));
    let r = get::Request { client_data_hash: vec![0; 33], ..req };
    assert_eq!(r.validate(), Err(get::Error::InvalidParameter));
}

#[test]
fn get_response_requires_credential_data_and_signature() {
    let raw = get::RawResponse {
        credential: Some(Descriptor::new(vec![9; 16], None).unwrap()),
        auth_data: Some(vec![0; 37]),
        signature: None,
        user: None,
        number_of_credentials: Some(2),
        user_selected: None,
        large_blob_key: None,
    };
    assert!(matches!(get::Response::try_from(raw.clone()), Err(get::Error::MissingParameter)));
    let ok = get::RawResponse { signature: Some(vec![1, 2, 3]), ..raw };
    let r = get::Response::try_from(ok).unwrap();
    assert_eq!(r.number_of_credentials, Some(2));
    assert_eq!(r.signature, vec![1, 2, 3]);
}

#[test]
fn reset_decisions() {
    assert_eq!(decide_reset(11_000, Some(true), 0, 30_000), ResetAction::Refuse(ResetError::NotAllowed));
    assert_eq!(decide_reset(5_000, Some(true), 0, 30_000), ResetAction::Reset);
    assert_eq!(decide_reset(5_000, Some(false), 0, 30_000), ResetAction::Refuse(ResetError::OperationDenied));
    assert_eq!(decide_reset(5_000, None, 29_999, 30_000), ResetAction::Wait);
    assert_eq!(decide_reset(5_000, None, 30_000, 30_000), ResetAction::Refuse(ResetError::UserActionTimeout));
}

#[test]
fn small_value_types() {
    assert_eq!(Policy::from_number(3), Some(Policy::UserVerificationRequired));
    assert_eq!(Policy::from_number(4), None);
    assert_eq!(Policy::UserVerificationOptional.number(), 1);
    assert_eq!(UserVerify::PasscodeExternal.bit(), 0x800);
    assert_eq!(CredentialKind::PublicKey.as_ref(), "public-key");
    assert_eq!(CredentialKind::Other("custom".to_string()).as_ref(), "custom");
    let c = AuthenticatorSelectionCriteria {
        attachment: Some(Attachment::Platform),
        resident_key_requirement: ResidentKeyRequirement::Preferred,
        user_verification_requirement: UserVerificationRequirement::Required,
    };
    assert!(c.accepts(Attachment::Platform));
    assert!(!c.accepts(Attachment::CrossPlatform));
}

fn capable_info() -> Info {
    Info::new(InfoParts {
        options: Some(vec![(OptionId::DiscoverableCredentials, true), (OptionId::UserVerification, false)]),
        pin_uv_auth_protocols: Some(vec![AuthProtocolVersion::Two]),
        algorithms: Some(vec![Parameters { credential_type: Type::PublicKey, algorithm: -8 }]),
        ..parts()
    })
    .unwrap()
}

#[test]
fn make_request_checked_against_info() {
    let info = capable_info();
    let req = make::Request {
        public_key_credential_params: vec![
            Parameters { credential_type: Type::PublicKey, algorithm: -7 },
            Parameters { credential_type: Type::PublicKey, algorithm: -8 },
        ],
        ..make_request()
    };
    assert_eq!(req.check_against(&info), Ok(()));
    assert_eq!(make_request().check_against(&info), Err(make::Error::UnsupportedAlgorithm));
    let r = make::Request { pin_uv_auth_protocol_version: Some(AuthProtocolVersion::One), ..req.clone() };
    assert_eq!(r.check_against(&info), Err(make::Error::InvalidParameter));
    let r = make::Request { pin_uv_auth_protocol_version: Some(AuthProtocolVersion::Two), ..req.clone() };
    assert_eq!(r.check_against(&info), Ok(()));
    let r = make::Request { enterprise_attestation: Some(ctap2_core::attestation::Kind::PlatformManaged), ..req.clone() };
    assert_eq!(r.check_against(&info), Err(make::Error::InvalidParameter));
    let bare = Info::new(parts()).unwrap();
    assert_eq!(req.check_against(&bare), Err(make::Error::UnsupportedOption));
    let r = make::Request { options: Some(vec![(make::OptionKey::UserVerification, true)]), ..req };
    assert_eq!(r.check_against(&info), Ok(()));
    assert_eq!(r.check_against(&bare), Err(make::Error::UnsupportedOption));
}

#[test]
fn reset_timeout_is_at_least_ten_seconds() {
    assert_eq!(decide_reset(0, None, 9_999, 1_000), ResetAction::Wait);
    assert_eq!(decide_reset(0, None, 10_000, 1_000), ResetAction::Refuse(ResetError::UserActionTimeout));
}

#[test]
fn management_request_round_trips() {
    let req = management::Request::UpdateUserInformation {
        credential_id: Descriptor::new(vec![7; 16], None).unwrap(),
        user: UserEntity::new(vec![1; 8], Some("u".to_string()), None).unwrap(),
        pin_uv_auth_protocol: AuthProtocolVersion::Two,
        pin_uv_auth_param: vec![3; 16],
    };
    let raw = management::RawRequest::from(req);
    assert_eq!(raw.sub_command, Some(0x07));
    assert!(raw.rp_id_hash.is_none());
    assert_eq!(raw.pin_uv_auth_protocol, Some(2));
    match management::Request::try_from(raw) {
        Ok(management::Request::UpdateUserInformation { credential_id, user, .. }) => {
            assert_eq!(credential_id.id, vec![7; 16]);
            assert_eq!(user.name, Some("u".to_string()));
        }
        _ => panic!("expected UpdateUserInformation"),
    }
    let raw = management::RawRequest::from(management::Request::EnumerateRPsGetNextRP);
    assert_eq!(raw.sub_command, Some(0x03));
    assert!(raw.pin_uv_auth_protocol.is_none() && raw.pin_uv_auth_param.is_none());
    assert!(matches!(management::Request::try_from(raw), Ok(management::Request::EnumerateRPsGetNextRP)));
}

#[test]
fn management_request_errors() {
    let empty = management::RawRequest { sub_command: None, rp_id_hash: None, credential_id: None, user: None, pin_uv_auth_protocol: None, pin_uv_auth_param: None };
    assert!(matches!(management::Request::try_from(empty.clone()), Err(ManagementError::MissingParameter)));
    let raw = management::RawRequest { sub_command: Some(9), ..empty.clone() };
    assert!(matches!(management::Request::try_from(raw), Err(ManagementError::InvalidParameter)));
    let raw = management::RawRequest { sub_command: Some(4), pin_uv_auth_protocol: Some(1), pin_uv_auth_param: Some(vec![0; 16]), ..empty.clone() };
    assert!(matches!(management::Request::try_from(raw), Err(ManagementError::MissingParameter)));
    let raw = management::RawRequest { sub_command: Some(4), rp_id_hash: Some(vec![0; 31]), ..empty.clone() };
    assert!(matches!(management::Request::try_from(raw), Err(ManagementError::InvalidParameter)));
    let short = Descriptor { credential_type: Type::PublicKey, id: vec![0; 4], transports: None };
    let raw = management::RawRequest { sub_command: Some(6), credential_id: Some(short), ..empty.clone() };
    assert!(matches!(management::Request::try_from(raw), Err(ManagementError::InvalidParameter)));
    let raw = management::RawRequest { sub_command: Some(3), pin_uv_auth_protocol: Some(1), ..empty };
    assert!(matches!(management::Request::try_from(raw), Err(ManagementError::InvalidParameter)));
}

#[test]
fn client_pin_request_checked_against_info() {
    let info = capable_info();
    let two = ctap2_core::client_pin::Request::GetKeyAgreement { version: AuthProtocolVersion::Two };
    assert_eq!(two.check_against(&info), Ok(()));
    let one = ctap2_core::client_pin::Request::GetKeyAgreement { version: AuthProtocolVersion::One };
    assert_eq!(one.check_against(&info), Err(ctap2_core::client_pin::Error::InvalidParameter));
    let bare = Info::new(parts()).unwrap();
    assert_eq!(two.check_against(&bare), Err(ctap2_core::client_pin::Error::InvalidParameter));
    assert_eq!(ctap2_core::client_pin::Request::GetPinRetries.check_against(&bare), Ok(()));
}

#[test]
fn repeated_extension_or_option_is_refused() {
    let r = make::Request {
        extensions: Some(vec![(Identifier::HmacSecret, vec![0xF5]), (Identifier::HmacSecret, vec![0xF4])]),
        ..make_request()
    };
    assert_eq!(r.validate(), Err(make::Error::InvalidParameter));
    let req = get::Request {
        relying_party_id: "com.example".to_string(),
        client_data_hash: vec![0; 32],
        allow_list: None,
        extensions: None,
        options: Some(vec![(get::OptionKey::UserVerification, true), (get::OptionKey::UserVerification, true)]),
        pin_uv_auth_param: None,
        pin_uv_auth_protocol_version: None,
    };
    assert_eq!(req.validate(), Err(get::Error::InvalidOption));
}

#[test]
fn make_reply_status_and_map() {
    let raw = make::RawResponse { auth_data: None, ..raw_make_response() };
    assert!(matches!(make::Response::from_reply(0, raw), Err(make::Error::MissingParameter)));
    assert!(matches!(make::Response::from_reply(0x19, raw_make_response()), Err(make::Error::CredentialExcluded)));
    assert!(matches!(make::Response::from_reply(0x36, raw_make_response()), Err(make::Error::PinUvAuthTokenRequired)));
    assert!(matches!(make::Response::from_reply(0x7F, raw_make_response()), Err(make::Error::OperationDenied)));
    assert!(make::Response::from_reply(0, raw_make_response()).is_ok());
}

#[test]
fn borrowed_or_owned_gives_the_entity() {
    let rp = RelyingPartyEntity { id: "com.example".to_string(), name: None };
    let b: ctap2_core::borrowed::BoO<RelyingPartyEntity> = ctap2_core::borrowed::BoO::Borrowed(&rp);
    assert_eq!(b.as_ref().id, "com.example");
    let o: ctap2_core::borrowed::BoO<RelyingPartyEntity> =
        ctap2_core::borrowed::BoO::Owned(RelyingPartyEntity { id: "org.example".to_string(), name: None });
    assert_eq!(o.as_ref().id, "org.example");
}
