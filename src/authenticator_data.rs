//! The authenticator-data binary layout: a 37-byte header (RP ID hash, flag
//! byte, big-endian signature counter), then attested credential data when
//! the AT flag is set, then an extensions map when the ED flag is set.

use vstd::prelude::*;
use vstd::slice::slice_to_vec;
use crate::cbor::{cbor_item_remainder, decodes_as_cose_key, is_cose_key, item_remainder};

verus! {

#[derive(Debug, Clone, Copy, PartialEq, Eq, Structural)]
pub enum UserPresence {
    Present,
    NotPresent,
}

#[derive(Debug, Clone, Copy, PartialEq, Eq, Structural)]
pub enum UserVerification {
    Verified,
    NotVerified,
}

#[derive(Debug, Clone, Copy, PartialEq, Eq, Structural)]
pub enum BackupState {
    BackedUp,
    NotBackedUp,
}

#[derive(Debug, Clone, Copy, PartialEq, Eq, Structural)]
pub enum BackupEligibility {
    Eligible,
    Ineligible,
}

/// The length of the fixed header: RP ID hash, flags and counter.
pub const HEADER_LEN: usize = 37;

/// The smallest credential ID length the layout admits.
pub const MIN_CREDENTIAL_ID_LEN: usize = 16;

/// The largest credential ID length the layout admits.
pub const MAX_CREDENTIAL_ID_LEN: usize = 1023;

/// Bits 1 and 5 of the flag byte, which no flag owns.
pub const RESERVED_FLAG_BITS: u8 = 0x22;

/// The six defined bits of the authenticator-data flag byte.
#[derive(Debug, Clone, Copy, PartialEq, Eq, Structural)]
pub struct DataFlags {
    /// Bit 0: the user is present.
    pub user_present: bool,
    /// Bit 2: the user is verified.
    pub user_verified: bool,
    /// Bit 3: the credential source is backup eligible.
    pub backup_eligible: bool,
    /// Bit 4: the credential source is backed up.
    pub backed_up: bool,
    /// Bit 6: attested credential data follows the header.
    pub attested_credential_data: bool,
    /// Bit 7: an extensions map ends the buffer.
    pub extension_data: bool,
}

pub open spec fn bit_if(b: bool, m: u8) -> u8 {
    if b {
        m
    } else {
        0
    }
}

/// The flag byte of a set of flags; the reserved bits stay clear.
pub open spec fn flags_byte(f: DataFlags) -> u8 {
    bit_if(f.user_present, 0x01) | bit_if(f.user_verified, 0x04) | bit_if(f.backup_eligible, 0x08)
        | bit_if(f.backed_up, 0x10) | bit_if(f.attested_credential_data, 0x40) | bit_if(
        f.extension_data,
        0x80,
    )
}

/// The flags that a byte sets; the reserved bits are ignored.
pub open spec fn flags_of_byte(b: u8) -> DataFlags {
    DataFlags {
        user_present: b & 0x01 != 0,
        user_verified: b & 0x04 != 0,
        backup_eligible: b & 0x08 != 0,
        backed_up: b & 0x10 != 0,
        attested_credential_data: b & 0x40 != 0,
        extension_data: b & 0x80 != 0,
    }
}

impl DataFlags {
    /// Reads a flag byte, ignoring the reserved bits.
    pub fn from_bits_truncate(b: u8) -> (r: DataFlags)
        ensures
            r == flags_of_byte(b),
    {
        DataFlags {
            user_present: b & 0x01 != 0,
            user_verified: b & 0x04 != 0,
            backup_eligible: b & 0x08 != 0,
            backed_up: b & 0x10 != 0,
            attested_credential_data: b & 0x40 != 0,
            extension_data: b & 0x80 != 0,
        }
    }

    /// The flag byte, with the reserved bits clear.
    pub fn bits(&self) -> (r: u8)
        ensures
            r == flags_byte(*self),
            r & RESERVED_FLAG_BITS == 0,
    {
        let a: u8 = if self.user_present { 0x01 } else { 0 };
        let b: u8 = if self.user_verified { 0x04 } else { 0 };
        let c: u8 = if self.backup_eligible { 0x08 } else { 0 };
        let d: u8 = if self.backed_up { 0x10 } else { 0 };
        let e: u8 = if self.attested_credential_data { 0x40 } else { 0 };
        let g: u8 = if self.extension_data { 0x80 } else { 0 };
        proof {
            lemma_flags_round_trip(*self);
        }
        a | b | c | d | e | g
    }

    pub fn user_presence(&self) -> (r: UserPresence)
        ensures
            r == (if self.user_present { UserPresence::Present } else { UserPresence::NotPresent }),
    {
        if self.user_present {
            UserPresence::Present
        } else {
            UserPresence::NotPresent
        }
    }

    pub fn user_verification(&self) -> (r: UserVerification)
        ensures
            r == (if self.user_verified {
                UserVerification::Verified
            } else {
                UserVerification::NotVerified
            }),
    {
        if self.user_verified {
            UserVerification::Verified
        } else {
            UserVerification::NotVerified
        }
    }

    pub fn backup_eligibility(&self) -> (r: BackupEligibility)
        ensures
            r == (if self.backup_eligible {
                BackupEligibility::Eligible
            } else {
                BackupEligibility::Ineligible
            }),
    {
        if self.backup_eligible {
            BackupEligibility::Eligible
        } else {
            BackupEligibility::Ineligible
        }
    }

    pub fn backup_state(&self) -> (r: BackupState)
        ensures
            r == (if self.backed_up { BackupState::BackedUp } else { BackupState::NotBackedUp }),
    {
        if self.backed_up {
            BackupState::BackedUp
        } else {
            BackupState::NotBackedUp
        }
    }

    pub fn has_attested_credential_data(&self) -> (r: bool)
        ensures
            r == self.attested_credential_data,
    {
        self.attested_credential_data
    }
}

/// Every combination of the six defined flags survives the trip through the
/// flag byte, and that byte never sets a reserved bit.
pub proof fn lemma_flags_round_trip(f: DataFlags)
    ensures
        flags_of_byte(flags_byte(f)) == f,
        flags_byte(f) & RESERVED_FLAG_BITS == 0,
{
    let a = bit_if(f.user_present, 0x01);
    let b = bit_if(f.user_verified, 0x04);
    let c = bit_if(f.backup_eligible, 0x08);
    let d = bit_if(f.backed_up, 0x10);
    let e = bit_if(f.attested_credential_data, 0x40);
    let g = bit_if(f.extension_data, 0x80);
    let x = flags_byte(f);
    assert(x == a | b | c | d | e | g);
    assert(((x & 0x01 != 0) == (a == 0x01)) && ((x & 0x04 != 0) == (b == 0x04)) && ((x & 0x08
        != 0) == (c == 0x08)) && ((x & 0x10 != 0) == (d == 0x10)) && ((x & 0x40 != 0) == (e
        == 0x40)) && ((x & 0x80 != 0) == (g == 0x80)) && (x & 0x22 == 0)) by (bit_vector)
        requires
            x == a | b | c | d | e | g,
            a == 0 || a == 0x01,
            b == 0 || b == 0x04,
            c == 0 || c == 0x08,
            d == 0 || d == 0x10,
            e == 0 || e == 0x40,
            g == 0 || g == 0x80,
    ;
}


/// Why an authenticator-data buffer was refused.
#[derive(Debug, Clone, Copy, PartialEq, Eq, Structural)]
pub enum DataError {
    /// Fewer than 37 bytes.
    TooShort,
    /// The attested credential data ends early.
    Truncated,
    /// The credential ID length is below 16.
    CredentialIdTooShort,
    /// The credential ID length exceeds 1023.
    CredentialIdTooLong,
    /// The credential public key is not one well-formed COSE key.
    InvalidPublicKey,
    /// The extensions region is not exactly one CBOR map.
    InvalidExtensions,
    /// Bytes follow the data although the ED flag is clear.
    TrailingBytes,
}

/// The CBOR encoding of an empty map.
pub open spec fn empty_map() -> Seq<u8> {
    seq![0xA0u8]
}

/// A 32-bit big-endian integer.
pub open spec fn be_u32(s: Seq<u8>) -> u32 {
    ((s[0] as u32) << 24u32) | ((s[1] as u32) << 16u32) | ((s[2] as u32) << 8u32) | (s[3] as u32)
}

/// The four big-endian bytes of `c`.
pub open spec fn u32_be(c: u32) -> Seq<u8> {
    seq![(c >> 24u32) as u8, (c >> 16u32) as u8, (c >> 8u32) as u8, c as u8]
}

/// A 16-bit big-endian length.
pub open spec fn be_u16(hi: u8, lo: u8) -> int {
    hi as int * 256 + lo as int
}

/// The two big-endian bytes of a length below 65536.
pub open spec fn u16_be(n: nat) -> Seq<u8> {
    seq![(n / 256) as u8, (n % 256) as u8]
}

/// The contents of attested credential data.
pub struct CredentialDataView {
    pub aaguid: Seq<u8>,
    pub id: Seq<u8>,
    pub public_key: Seq<u8>,
}

/// The contents of authenticator data.
pub struct DataView {
    pub relying_party_id_hash: Seq<u8>,
    pub user_presence: UserPresence,
    pub user_verification: UserVerification,
    pub backup_eligibility: BackupEligibility,
    pub backup_state: BackupState,
    pub signature_counter: u32,
    pub attested_credential_data: Option<CredentialDataView>,
    pub extensions: Option<Seq<u8>>,
}

/// Attested credential data: the authenticator model, the credential ID and
/// the credential public key, kept as its COSE_Key encoding.
#[derive(Debug, Clone)]
pub struct CredentialData {
    pub aaguid: Vec<u8>,
    pub id: Vec<u8>,
    pub public_key: Vec<u8>,
}

impl View for CredentialData {
    type V = CredentialDataView;

    open spec fn view(&self) -> CredentialDataView {
        CredentialDataView { aaguid: self.aaguid@, id: self.id@, public_key: self.public_key@ }
    }
}

/// Authenticator data. Whether attested credential data and extensions are
/// present is carried by the two options alone; the flag byte is derived.
#[derive(Debug, Clone)]
pub struct Data {
    /// SHA-256 hash of the RP ID the credential is scoped to.
    pub relying_party_id_hash: Vec<u8>,
    pub user_presence: UserPresence,
    pub user_verification: UserVerification,
    pub backup_eligibility: BackupEligibility,
    pub backup_state: BackupState,
    pub signature_counter: u32,
    pub attested_credential_data: Option<CredentialData>,
    /// The encoded extensions map.
    pub extensions: Option<Vec<u8>>,
}

impl View for Data {
    type V = DataView;

    open spec fn view(&self) -> DataView {
        DataView {
            relying_party_id_hash: self.relying_party_id_hash@,
            user_presence: self.user_presence,
            user_verification: self.user_verification,
            backup_eligibility: self.backup_eligibility,
            backup_state: self.backup_state,
            signature_counter: self.signature_counter,
            attested_credential_data: match self.attested_credential_data {
                Some(c) => Some(c@),
                None => None,
            },
            extensions: match self.extensions {
                Some(e) => Some(e@),
                None => None,
            },
        }
    }
}

/// Reads attested credential data from the front of `body`: the contents and
/// how many bytes they took. The public key ends where its CBOR item ends.
pub open spec fn parse_credential(body: Seq<u8>) -> Result<(CredentialDataView, int), DataError> {
    if body.len() < 18 {
        Err(DataError::Truncated)
    } else {
        let l = be_u16(body[16], body[17]);
        if l < MIN_CREDENTIAL_ID_LEN {
            Err(DataError::CredentialIdTooShort)
        } else if l > MAX_CREDENTIAL_ID_LEN {
            Err(DataError::CredentialIdTooLong)
        } else if body.len() < 18 + l {
            Err(DataError::Truncated)
        } else {
            let tail = body.subrange(18 + l, body.len() as int);
            match cbor_item_remainder(tail) {
                None => Err(DataError::InvalidPublicKey),
                Some(n) => {
                    let key = tail.subrange(0, tail.len() - n);
                    if n >= tail.len() || !is_cose_key(key) {
                        Err(DataError::InvalidPublicKey)
                    } else {
                        Ok(
                            (
                                CredentialDataView {
                                    aaguid: body.subrange(0, 16),
                                    id: body.subrange(18, 18 + l),
                                    public_key: key,
                                },
                                18 + l + key.len(),
                            ),
                        )
                    }
                },
            }
        }
    }
}

/// Whether a CBOR initial byte starts a map (major type 5).
pub open spec fn is_map_head(b: u8) -> bool {
    0xA0 <= b <= 0xBF
}

/// Reads what follows the attested credential data; when present, the
/// extensions are exactly one CBOR map.
pub open spec fn parse_extensions(rest: Seq<u8>, present: bool) -> Result<Option<Seq<u8>>, DataError> {
    if !present {
        if rest.len() == 0 {
            Ok(None)
        } else {
            Err(DataError::TrailingBytes)
        }
    } else if cbor_item_remainder(rest) == Some(0usize) && is_map_head(rest[0]) {
        Ok(Some(rest))
    } else {
        Err(DataError::InvalidExtensions)
    }
}

pub open spec fn data_view_of(
    b: Seq<u8>,
    f: DataFlags,
    cred: Option<CredentialDataView>,
    ext: Option<Seq<u8>>,
) -> DataView {
    DataView {
        relying_party_id_hash: b.subrange(0, 32),
        user_presence: if f.user_present { UserPresence::Present } else { UserPresence::NotPresent },
        user_verification: if f.user_verified {
            UserVerification::Verified
        } else {
            UserVerification::NotVerified
        },
        backup_eligibility: if f.backup_eligible {
            BackupEligibility::Eligible
        } else {
            BackupEligibility::Ineligible
        },
        backup_state: if f.backed_up { BackupState::BackedUp } else { BackupState::NotBackedUp },
        signature_counter: be_u32(b.subrange(33, 37)),
        attested_credential_data: cred,
        extensions: ext,
    }
}

/// What an authenticator-data buffer decodes to.
pub open spec fn parse_data(b: Seq<u8>) -> Result<DataView, DataError> {
    if b.len() < HEADER_LEN {
        Err(DataError::TooShort)
    } else {
        let f = flags_of_byte(b[32]);
        let body = b.subrange(HEADER_LEN as int, b.len() as int);
        if f.attested_credential_data {
            match parse_credential(body) {
                Err(e) => Err(e),
                Ok((c, k)) => match parse_extensions(body.subrange(k, body.len() as int), f.extension_data) {
                    Err(e) => Err(e),
                    Ok(ext) => Ok(data_view_of(b, f, Some(c), ext)),
                },
            }
        } else {
            match parse_extensions(body, f.extension_data) {
                Err(e) => Err(e),
                Ok(ext) => Ok(data_view_of(b, f, None, ext)),
            }
        }
    }
}

/// Whether the builder writes the extensions map: only a present, non-empty one.
pub open spec fn writes_extensions(v: DataView) -> bool {
    v.extensions matches Some(e) && e != empty_map()
}

/// The bytes after the attested credential data.
pub open spec fn extension_bytes(v: DataView) -> Seq<u8> {
    if writes_extensions(v) {
        v.extensions->Some_0
    } else {
        Seq::empty()
    }
}

/// The flags that the builder writes.
pub open spec fn data_flags(v: DataView) -> DataFlags {
    DataFlags {
        user_present: v.user_presence == UserPresence::Present,
        user_verified: v.user_verification == UserVerification::Verified,
        backup_eligible: v.backup_eligibility == BackupEligibility::Eligible,
        backed_up: v.backup_state == BackupState::BackedUp,
        attested_credential_data: v.attested_credential_data is Some,
        extension_data: writes_extensions(v),
    }
}

pub open spec fn encode_credential(c: CredentialDataView) -> Seq<u8> {
    c.aaguid + u16_be(c.id.len()) + c.id + c.public_key
}

/// The bytes that the builder writes.
pub open spec fn encode_data(v: DataView) -> Seq<u8> {
    v.relying_party_id_hash + seq![flags_byte(data_flags(v))] + u32_be(v.signature_counter) + (
    match v.attested_credential_data {
        Some(c) => encode_credential(c),
        None => Seq::empty(),
    }) + extension_bytes(v)
}

/// The shape the builder needs: a 32-byte hash, a 16-byte AAGUID, a
/// credential ID of 16 to 1023 bytes.
pub open spec fn data_view_builds(v: DataView) -> bool {
    &&& v.relying_party_id_hash.len() == 32
    &&& v.attested_credential_data matches Some(c) ==> c.aaguid.len() == 16 && MIN_CREDENTIAL_ID_LEN
        <= c.id.len() <= MAX_CREDENTIAL_ID_LEN
}

/// Beyond its shape, what makes a value decode back to itself: the public key
/// is one COSE key whose CBOR item ends where the extensions begin, and the
/// extensions are one CBOR map.
pub open spec fn data_view_wf(v: DataView) -> bool {
    &&& data_view_builds(v)
    &&& v.attested_credential_data matches Some(c) ==> c.public_key.len() > 0 && is_cose_key(c.public_key) && (cbor_item_remainder(
        c.public_key + extension_bytes(v),
    ) matches Some(n) && n == extension_bytes(v).len())
    &&& v.extensions matches Some(e) ==> e != empty_map() && cbor_item_remainder(e) == Some(0usize)
        && is_map_head(e[0])
}

/// Copies `b[lo..hi]` into a vector.
fn copy_range(b: &[u8], lo: usize, hi: usize) -> (r: Vec<u8>)
    requires
        lo <= hi <= b@.len(),
    ensures
        r@ == b@.subrange(lo as int, hi as int),
{
    slice_to_vec(&b[lo..hi])
}

impl CredentialData {
    /// Reads attested credential data from the front of `data`, and says how
    /// many bytes it took.
    pub fn parse(data: &[u8]) -> (r: Result<(CredentialData, usize), DataError>)
        ensures
            r is Ok <==> parse_credential(data@) is Ok,
            r matches Ok((c, k)) ==> parse_credential(data@) == Ok::<_, DataError>((c@, k as int))
                && k <= data@.len(),
            r matches Err(e) ==> parse_credential(data@) == Err::<(CredentialDataView, int), _>(e),
    {
        if data.len() < 18 {
            return Err(DataError::Truncated);
        }
        let l: usize = (data[16] as usize) * 256 + data[17] as usize;
        if l < MIN_CREDENTIAL_ID_LEN {
            return Err(DataError::CredentialIdTooShort);
        }
        if l > MAX_CREDENTIAL_ID_LEN {
            return Err(DataError::CredentialIdTooLong);
        }
        if data.len() < 18 + l {
            return Err(DataError::Truncated);
        }
        let tail = &data[18 + l..data.len()];
        match item_remainder(tail) {
            None => Err(DataError::InvalidPublicKey),
            Some(n) => {
                let key_len: usize = tail.len() - n;
                let key = &tail[0..key_len];
                if !decodes_as_cose_key(key) {
                    return Err(DataError::InvalidPublicKey);
                }
                let c = CredentialData {
                    aaguid: copy_range(data, 0, 16),
                    id: copy_range(data, 18, 18 + l),
                    public_key: slice_to_vec(key),
                };
                Ok((c, 18 + l + key_len))
            },
        }
    }

    /// Reads attested credential data from the front of `data`; whatever
    /// follows the public key is left unread.
    pub fn try_from(data: &[u8]) -> (r: Result<CredentialData, DataError>)
        ensures
            r is Ok <==> parse_credential(data@) is Ok,
            r matches Ok(c) ==> parse_credential(data@) matches Ok((v, _)) && v == c@,
            r matches Err(e) ==> parse_credential(data@) == Err::<(CredentialDataView, int), _>(e),
    {
        match CredentialData::parse(data) {
            Err(e) => Err(e),
            Ok((c, _)) => Ok(c),
        }
    }
}


/// Reads the bytes after the attested credential data.
fn read_extensions(rest: &[u8], present: bool) -> (r: Result<Option<Vec<u8>>, DataError>)
    ensures
        r is Ok <==> parse_extensions(rest@, present) is Ok,
        r matches Ok(e) ==> parse_extensions(rest@, present) == Ok::<_, DataError>(
            match e {
                Some(v) => Some(v@),
                None => None,
            },
        ),
        r matches Err(e) ==> parse_extensions(rest@, present) == Err::<Option<Seq<u8>>, _>(e),
{
    if !present {
        if rest.len() == 0 {
            Ok(None)
        } else {
            Err(DataError::TrailingBytes)
        }
    } else {
        match item_remainder(rest) {
            Some(n) => {
                if n == 0 && 0xA0 <= rest[0] && rest[0] <= 0xBF {
                    Ok(Some(slice_to_vec(rest)))
                } else {
                    Err(DataError::InvalidExtensions)
                }
            },
            None => Err(DataError::InvalidExtensions),
        }
    }
}

/// Reads a 32-bit big-endian integer.
fn read_be_u32(b: &[u8], at: usize) -> (r: u32)
    requires
        at + 4 <= b@.len(),
    ensures
        r == be_u32(b@.subrange(at as int, at + 4)),
{
    let ghost s = b@.subrange(at as int, at + 4);
    assert(s[0] == b@[at as int] && s[1] == b@[at + 1] && s[2] == b@[at + 2] && s[3] == b@[at + 3]);
    ((b[at] as u32) << 24u32) | ((b[at + 1] as u32) << 16u32) | ((b[at + 2] as u32) << 8u32) | (
    b[at + 3] as u32)
}

impl Data {
    /// Decodes an authenticator-data buffer.
    pub fn deserialize(data: &[u8]) -> (r: Result<Data, DataError>)
        ensures
            r is Ok <==> parse_data(data@) is Ok,
            r matches Ok(d) ==> parse_data(data@) == Ok::<_, DataError>(d@),
            r matches Err(e) ==> parse_data(data@) == Err::<DataView, _>(e),
    {
        if data.len() < HEADER_LEN {
            return Err(DataError::TooShort);
        }
        let flags = DataFlags::from_bits_truncate(data[32]);
        let signature_counter = read_be_u32(data, 33);
        let body = &data[HEADER_LEN..data.len()];
        let ghost f = flags_of_byte(data@[32]);
        let (attested_credential_data, rest) = if flags.has_attested_credential_data() {
            match CredentialData::parse(body) {
                Err(e) => return Err(e),
                Ok((c, k)) => (Some(c), &body[k..body.len()]),
            }
        } else {
            (None, body)
        };
        let extensions = match read_extensions(rest, flags.extension_data) {
            Err(e) => return Err(e),
            Ok(ext) => ext,
        };
        let d = Data {
            relying_party_id_hash: copy_range(data, 0, 32),
            user_presence: flags.user_presence(),
            user_verification: flags.user_verification(),
            backup_eligibility: flags.backup_eligibility(),
            backup_state: flags.backup_state(),
            signature_counter,
            attested_credential_data,
            extensions,
        };
        assert(d@ == data_view_of(data@, f, d@.attested_credential_data, d@.extensions));
        Ok(d)
    }

    /// Whether the builder writes the extensions map.
    fn writes_extensions(&self) -> (r: bool)
        ensures
            r == writes_extensions(self@),
    {
        match &self.extensions {
            Some(e) => {
                let empty = e.len() == 1 && e[0] == 0xA0;
                proof {
                    if e@.len() == 1 && e@[0] == 0xA0 {
                        assert(e@ =~= empty_map());
                    } else {
                        assert(e@ != empty_map());
                    }
                }
                !empty
            },
            None => false,
        }
    }

    /// The flags that the builder writes.
    pub fn flags(&self) -> (r: DataFlags)
        ensures
            r == data_flags(self@),
    {
        DataFlags {
            user_present: self.user_presence == UserPresence::Present,
            user_verified: self.user_verification == UserVerification::Verified,
            backup_eligible: self.backup_eligibility == BackupEligibility::Eligible,
            backed_up: self.backup_state == BackupState::BackedUp,
            attested_credential_data: self.attested_credential_data.is_some(),
            extension_data: self.writes_extensions(),
        }
    }

    /// Encodes the data. The ED flag is set only when a non-empty extensions
    /// map is written, and the AT flag only with attested credential data.
    pub fn serialize(&self) -> (r: Vec<u8>)
        requires
            data_view_builds(self@),
        ensures
            r@ == encode_data(self@),
    {
        let mut out: Vec<u8> = Vec::new();
        out.extend_from_slice(self.relying_party_id_hash.as_slice());
        out.push(self.flags().bits());
        let c = self.signature_counter;
        out.push((c >> 24u32) as u8);
        out.push((c >> 16u32) as u8);
        out.push((c >> 8u32) as u8);
        out.push(c as u8);
        let ghost head = out@;
        assert(head =~= self@.relying_party_id_hash + seq![flags_byte(data_flags(self@))] + u32_be(c));
        match &self.attested_credential_data {
            Some(cd) => {
                out.extend_from_slice(cd.aaguid.as_slice());
                let l = cd.id.len();
                out.push((l / 256) as u8);
                out.push((l % 256) as u8);
                out.extend_from_slice(cd.id.as_slice());
                out.extend_from_slice(cd.public_key.as_slice());
                assert(out@ =~= head + encode_credential(cd@));
            },
            None => {},
        }
        let ghost mid = out@;
        if self.writes_extensions() {
            match &self.extensions {
                Some(e) => {
                    out.extend_from_slice(e.as_slice());
                },
                None => {},
            }
        }
        assert(out@ =~= mid + extension_bytes(self@));
        out
    }
}


proof fn lemma_u32_round_trip(c: u32)
    ensures
        be_u32(u32_be(c)) == c,
{
    let s = u32_be(c);
    let (a, b, d, e) = (s[0], s[1], s[2], s[3]);
    assert(((a as u32) << 24u32) | ((b as u32) << 16u32) | ((d as u32) << 8u32) | (e as u32) == c)
        by (bit_vector)
        requires
            a == (c >> 24u32) as u8,
            b == (c >> 16u32) as u8,
            d == (c >> 8u32) as u8,
            e == c as u8,
    ;
}

proof fn lemma_u16_round_trip(n: nat)
    requires
        n < 65536,
    ensures
        be_u16(u16_be(n)[0], u16_be(n)[1]) == n,
{
}

/// Authenticator data that the builder can write, and whose public key and
/// extensions are well-formed, decodes back to itself.
pub proof fn lemma_data_round_trip(v: DataView)
    requires
        data_view_wf(v),
    ensures
        parse_data(encode_data(v)) == Ok::<_, DataError>(v),
{
    let b = encode_data(v);
    let f = data_flags(v);
    lemma_flags_round_trip(f);
    lemma_u32_round_trip(v.signature_counter);
    let ext = extension_bytes(v);
    let after = match v.attested_credential_data {
        Some(c) => encode_credential(c),
        None => Seq::empty(),
    } + ext;
    assert(b =~= v.relying_party_id_hash + seq![flags_byte(f)] + u32_be(v.signature_counter) + after);
    assert(b[32] == flags_byte(f));
    assert(b.subrange(0, 32) =~= v.relying_party_id_hash);
    assert(b.subrange(33, 37) =~= u32_be(v.signature_counter));
    let body = b.subrange(HEADER_LEN as int, b.len() as int);
    assert(body =~= after);
    let ext_parsed: Option<Seq<u8>> = if writes_extensions(v) { Some(ext) } else { None };
    assert(parse_extensions(ext, f.extension_data) == Ok::<_, DataError>(ext_parsed));
    assert(ext_parsed == v.extensions);
    match v.attested_credential_data {
        Some(c) => {
            let l: int = c.id.len() as int;
            lemma_u16_round_trip(l as nat);
            assert(body[16] == u16_be(l as nat)[0] && body[17] == u16_be(l as nat)[1]);
            let tail = body.subrange(18 + l, body.len() as int);
            assert(tail =~= c.public_key + ext);
            let key = tail.subrange(0, tail.len() - ext.len());
            assert(key =~= c.public_key);
            assert(body.subrange(0, 16) =~= c.aaguid);
            assert(body.subrange(18, 18 + l) =~= c.id);
            let k: int = 18 + l + c.public_key.len();
            assert(body.subrange(k, body.len() as int) =~= ext);
            assert(body.len() >= 18 + l);
            assert(be_u16(body[16], body[17]) == l);
            assert(tail.len() - ext.len() == c.public_key.len());
            assert(18 + l + tail.subrange(0, tail.len() - ext.len()).len() == k);
            assert(body.subrange(18 + be_u16(body[16], body[17]), body.len() as int) == tail);
            assert(parse_credential(body) == Ok::<_, DataError>((c, k)));
            assert(data_view_of(b, flags_of_byte(b[32]), Some(c), ext_parsed) == v);
        },
        None => {
            assert(data_view_of(b, flags_of_byte(b[32]), None, ext_parsed) == v);
        },
    }
}


proof fn lemma_be_u32_bytes(s: Seq<u8>)
    requires
        s.len() == 4,
    ensures
        u32_be(be_u32(s)) == s,
{
    let (a, b, d, e) = (s[0], s[1], s[2], s[3]);
    let c = be_u32(s);
    assert(c == ((a as u32) << 24u32) | ((b as u32) << 16u32) | ((d as u32) << 8u32) | (e as u32));
    assert((c >> 24u32) as u8 == a && (c >> 16u32) as u8 == b && (c >> 8u32) as u8 == d && c as u8 == e)
        by (bit_vector)
        requires
            c == ((a as u32) << 24u32) | ((b as u32) << 16u32) | ((d as u32) << 8u32) | (e as u32),
    ;
    assert(u32_be(c) =~= s);
}

proof fn lemma_flags_byte_of_clean_byte(x: u8)
    requires
        x & RESERVED_FLAG_BITS == 0,
    ensures
        flags_byte(flags_of_byte(x)) == x,
{
    let f = flags_of_byte(x);
    let a = bit_if(f.user_present, 0x01);
    let b = bit_if(f.user_verified, 0x04);
    let c = bit_if(f.backup_eligible, 0x08);
    let d = bit_if(f.backed_up, 0x10);
    let e = bit_if(f.attested_credential_data, 0x40);
    let g = bit_if(f.extension_data, 0x80);
    assert(a == x & 0x01 && b == x & 0x04 && c == x & 0x08 && d == x & 0x10 && e == x & 0x40 && g
        == x & 0x80) by {
        assert((x & 0x01 != 0 ==> x & 0x01 == 0x01) && (x & 0x04 != 0 ==> x & 0x04 == 0x04) && (x
            & 0x08 != 0 ==> x & 0x08 == 0x08) && (x & 0x10 != 0 ==> x & 0x10 == 0x10) && (x & 0x40
            != 0 ==> x & 0x40 == 0x40) && (x & 0x80 != 0 ==> x & 0x80 == 0x80)) by (bit_vector);
    }
    assert((x & 0x01) | (x & 0x04) | (x & 0x08) | (x & 0x10) | (x & 0x40) | (x & 0x80) == x)
        by (bit_vector)
        requires
            x & 0x22 == 0,
    ;
}

proof fn lemma_u16_bytes(hi: u8, lo: u8)
    ensures
        u16_be(be_u16(hi, lo) as nat) == seq![hi, lo],
{
    let n = be_u16(hi, lo);
    assert(n / 256 == hi as int && n % 256 == lo as int) by (nonlinear_arith)
        requires
            n == hi as int * 256 + lo as int,
            0 <= lo < 256,
            0 <= hi < 256,
    ;
    assert(u16_be(n as nat) =~= seq![hi, lo]);
}

/// A buffer that decodes, whose reserved flag bits are clear and whose ED
/// flag does not announce an empty map, is written back byte for byte.
pub proof fn lemma_data_bytes_round_trip(b: Seq<u8>)
    requires
        parse_data(b) is Ok,
        b[32] & RESERVED_FLAG_BITS == 0,
        !(flags_of_byte(b[32]).extension_data && parse_data(b)->Ok_0.extensions == Some(empty_map())),
    ensures
        encode_data(parse_data(b)->Ok_0) == b,
{
    let v = parse_data(b)->Ok_0;
    let f = flags_of_byte(b[32]);
    let body = b.subrange(HEADER_LEN as int, b.len() as int);
    lemma_flags_byte_of_clean_byte(b[32]);
    lemma_be_u32_bytes(b.subrange(33, 37));
    assert(v.extensions is Some == f.extension_data);
    assert(data_flags(v) == f);
    let rest = if f.attested_credential_data {
        let k = parse_credential(body)->Ok_0.1;
        let c = parse_credential(body)->Ok_0.0;
        let l = be_u16(body[16], body[17]);
        lemma_u16_bytes(body[16], body[17]);
        assert(c.id.len() == l);
        assert(encode_credential(c) =~= body.subrange(0, k));
        body.subrange(k, body.len() as int)
    } else {
        body
    };
    assert(extension_bytes(v) =~= rest);
    assert(b =~= b.subrange(0, 32) + seq![b[32]] + b.subrange(33, 37) + body);
    match v.attested_credential_data {
        Some(c) => {
            let k = parse_credential(body)->Ok_0.1;
            assert(body =~= body.subrange(0, k) + body.subrange(k, body.len() as int));
        },
        None => {},
    }
    assert(encode_data(v) =~= b);
}


/// The builder sets the ED flag exactly when it writes a non-empty
/// extensions map, and the AT flag exactly with attested credential data.
pub proof fn lemma_builder_flags(v: DataView)
    ensures
        (flags_byte(data_flags(v)) & 0x80 != 0) == writes_extensions(v),
        (flags_byte(data_flags(v)) & 0x40 != 0) == (v.attested_credential_data is Some),
        !(v.extensions matches Some(e) && e == empty_map()) || flags_byte(data_flags(v)) & 0x80 == 0,
{
    lemma_flags_round_trip(data_flags(v));
}


/// A buffer under 37 bytes is refused; a 37-byte buffer with the AT and ED
/// flags clear carries neither attested credential data nor extensions.
pub proof fn lemma_header_only(b: Seq<u8>)
    ensures
        b.len() < HEADER_LEN ==> parse_data(b) == Err::<DataView, _>(DataError::TooShort),
        b.len() == HEADER_LEN && b[32] & 0x40 == 0 && b[32] & 0x80 == 0 ==> (parse_data(b) matches Ok(v)
            && v.attested_credential_data is None && v.extensions is None),
{
    if b.len() == HEADER_LEN {
        assert(b.subrange(HEADER_LEN as int, b.len() as int).len() == 0);
    }
}

} // verus!
