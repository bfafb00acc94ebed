use ctap2_core::authenticator_data::{
    BackupEligibility, BackupState, CredentialData, Data, DataError, DataFlags, UserPresence,
    UserVerification,
};

fn cose_key() -> Vec<u8> {
    let mut k = vec![0xA5, 0x01, 0x02, 0x03, 0x26, 0x20, 0x01, 0x21, 0x58, 0x20];
    k.extend_from_slice(&[0x11; 32]);
    k.extend_from_slice(&[0x22, 0x58, 0x20]);
    k.extend_from_slice(&[0x33; 32]);
    k
}

fn extensions_map() -> Vec<u8> {
    let mut e = vec![0xA1, 0x6B];
    e.extend_from_slice(b"credProtect");
    e.push(0x02);
    e
}

fn header(flags: u8, counter: [u8; 4]) -> Vec<u8> {
    let mut b = vec![0xAB; 32];
    b.push(flags);
    b.extend_from_slice(&counter);
    b
}

fn credential(id_len: usize) -> Vec<u8> {
    let mut c = vec![0x5A; 16];
    c.push((id_len >> 8) as u8);
    c.push(id_len as u8);
    c.extend(std::iter::repeat(0xC4).take(id_len));
    c.extend_from_slice(&cose_key());
    c
}

#[test]
fn all_flag_combinations_round_trip() {
    for bits in 0u8..64 {
        let f = DataFlags {
            user_present: bits & 1 != 0,
            user_verified: bits & 2 != 0,
            backup_eligible: bits & 4 != 0,
            backed_up: bits & 8 != 0,
            attested_credential_data: bits & 16 != 0,
            extension_data: bits & 32 != 0,
        };
        let byte = f.bits();
        assert_eq!(byte & 0x22, 0);
        assert_eq!(DataFlags::from_bits_truncate(byte), f);
    }
}

#[test]
fn flag_bit_positions() {
    let f = DataFlags::from_bits_truncate(0b1101_1101);
    assert!(f.user_present && f.user_verified && f.backup_eligible && f.backed_up);
    assert!(f.attested_credential_data && f.extension_data);
    assert_eq!(f.bits(), 0b1101_1101);
    let reserved = DataFlags::from_bits_truncate(0x22);
    assert_eq!(reserved.bits(), 0);
    assert_eq!(DataFlags::from_bits_truncate(0x01).user_presence(), UserPresence::Present);
    assert_eq!(DataFlags::from_bits_truncate(0x00).user_presence(), UserPresence::NotPresent);
    assert_eq!(DataFlags::from_bits_truncate(0x04).user_verification(), UserVerification::Verified);
    assert_eq!(DataFlags::from_bits_truncate(0x08).backup_eligibility(), BackupEligibility::Eligible);
    assert_eq!(DataFlags::from_bits_truncate(0x10).backup_state(), BackupState::BackedUp);
    assert!(DataFlags::from_bits_truncate(0x40).has_attested_credential_data());
}

#[test]
fn thirty_six_bytes_are_refused() {
    assert!(matches!(Data::deserialize(&[0u8; 36]), Err(DataError::TooShort)));
    assert!(matches!(Data::deserialize(&[]), Err(DataError::TooShort)));
}

#[test]
fn header_only_data_has_no_optional_parts() {
    let b = header(0x05, [0x01, 0x02, 0x03, 0x04]);
    assert_eq!(b.len(), 37);
    let d = Data::deserialize(&b).unwrap();
    assert!(d.attested_credential_data.is_none());
    assert!(d.extensions.is_none());
    assert_eq!(d.signature_counter, 0x0102_0304);
    assert_eq!(d.user_presence, UserPresence::Present);
    assert_eq!(d.user_verification, UserVerification::Verified);
    assert_eq!(d.backup_state, BackupState::NotBackedUp);
    assert_eq!(d.relying_party_id_hash, vec![0xAB; 32]);
    assert_eq!(d.serialize(), b);
}

#[test]
fn public_key_ends_where_its_cbor_item_ends() {
    let mut b = header(0xC1, [0, 0, 0, 9]);
    b.extend_from_slice(&credential(16));
    b.extend_from_slice(&extensions_map());
    let d = Data::deserialize(&b).unwrap();
    let c = d.attested_credential_data.as_ref().unwrap();
    assert_eq!(c.aaguid, vec![0x5A; 16]);
    assert_eq!(c.id, vec![0xC4; 16]);
    assert_eq!(c.public_key, cose_key());
    assert_eq!(d.extensions, Some(extensions_map()));
    assert_eq!(d.serialize(), b);
}

#[test]
fn credential_without_extensions() {
    let mut b = header(0x41, [0, 0, 1, 0]);
    b.extend_from_slice(&credential(20));
    let d = Data::deserialize(&b).unwrap();
    assert!(d.extensions.is_none());
    assert_eq!(d.attested_credential_data.as_ref().unwrap().id.len(), 20);
    assert_eq!(d.serialize(), b);
}

#[test]
fn bytes_after_key_without_ed_are_refused() {
    let mut b = header(0x41, [0, 0, 0, 1]);
    b.extend_from_slice(&credential(16));
    b.push(0x00);
    assert!(matches!(Data::deserialize(&b), Err(DataError::TrailingBytes)));
}

#[test]
fn credential_id_over_1023_is_refused() {
    let mut b = header(0x41, [0, 0, 0, 1]);
    b.extend_from_slice(&credential(1024));
    assert!(matches!(Data::deserialize(&b), Err(DataError::CredentialIdTooLong)));
}

#[test]
fn truncated_credential_is_refused() {
    let mut b = header(0x41, [0, 0, 0, 1]);
    b.extend_from_slice(&[0x5A; 10]);
    assert!(matches!(Data::deserialize(&b), Err(DataError::Truncated)));
    let c = credential(16);
    assert!(matches!(CredentialData::try_from(&c[..30]), Err(DataError::Truncated)));
}

#[test]
fn broken_public_key_is_refused() {
    let mut b = header(0x41, [0, 0, 0, 1]);
    let mut c = vec![0x5A; 16];
    c.extend_from_slice(&[0x00, 0x10]);
    c.extend_from_slice(&[0xC4; 16]);
    c.extend_from_slice(&[0xA5, 0x01]);
    b.extend_from_slice(&c);
    assert!(matches!(Data::deserialize(&b), Err(DataError::InvalidPublicKey)));
}

#[test]
fn extensions_flag_without_map_is_refused() {
    let b = header(0x81, [0, 0, 0, 1]);
    assert!(matches!(Data::deserialize(&b), Err(DataError::InvalidExtensions)));
    let mut b = header(0x81, [0, 0, 0, 1]);
    b.extend_from_slice(&extensions_map());
    b.push(0x01);
    assert!(matches!(Data::deserialize(&b), Err(DataError::InvalidExtensions)));
}

#[test]
fn credential_data_parse_reports_its_length() {
    let mut c = credential(16);
    let full = c.len();
    c.extend_from_slice(&extensions_map());
    let (cd, k) = CredentialData::parse(&c).unwrap();
    assert_eq!(k, full);
    assert_eq!(cd.public_key, cose_key());
    let front = CredentialData::try_from(&c).unwrap();
    assert_eq!(front.aaguid, vec![0x5A; 16]);
    assert_eq!(front.id, vec![0xC4; 16]);
    assert_eq!(front.public_key, cose_key());
    assert!(CredentialData::try_from(&c[..full]).is_ok());
}

#[test]
fn credential_id_under_16_is_refused() {
    let c = credential(15);
    assert!(matches!(CredentialData::try_from(&c), Err(DataError::CredentialIdTooShort)));
    let mut b = header(0x41, [0, 0, 0, 1]);
    b.extend_from_slice(&c);
    assert!(matches!(Data::deserialize(&b), Err(DataError::CredentialIdTooShort)));
    assert!(CredentialData::try_from(&credential(1023)).is_ok());
}

#[test]
fn extensions_must_be_a_map() {
    let mut b = header(0x81, [0, 0, 0, 1]);
    b.push(0x02);
    assert!(matches!(Data::deserialize(&b), Err(DataError::InvalidExtensions)));
    let mut b = header(0x81, [0, 0, 0, 1]);
    b.extend_from_slice(&[0x82, 0x01, 0x02]);
    assert!(matches!(Data::deserialize(&b), Err(DataError::InvalidExtensions)));
}

#[test]
fn builder_never_sets_ed_for_an_empty_map() {
    let d = Data {
        relying_party_id_hash: vec![0; 32],
        user_presence: UserPresence::Present,
        user_verification: UserVerification::NotVerified,
        backup_eligibility: BackupEligibility::Ineligible,
        backup_state: BackupState::NotBackedUp,
        signature_counter: 0xFFFF_FFFF,
        attested_credential_data: None,
        extensions: Some(vec![0xA0]),
    };
    let b = d.serialize();
    assert_eq!(b.len(), 37);
    assert_eq!(b[32], 0x01);
    assert_eq!(&b[33..37], &[0xFF, 0xFF, 0xFF, 0xFF]);
    assert!(!d.flags().extension_data);
}
