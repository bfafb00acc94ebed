//! The authenticatorGetInfo capability model: the options, extensions and
//! limits an authenticator reports, with the rules on which fields go
//! together enforced when the value is built.

use vstd::prelude::*;
use crate::attestation::FormatIdentifier;
use crate::client_pin::Version as AuthProtocolVersion;
use crate::entities::{Parameters, Transport};
use crate::extensions::Identifier;
use crate::registry::UserVerify;

verus! {

/// The length of an AAGUID.
pub const AAGUID_LEN: usize = 16;
/// The smallest large-blob array an authenticator may report.
pub const MIN_LARGE_BLOB_ARRAY_SIZE: u64 = 1024;
/// The smallest credBlob length an authenticator may report.
pub const MIN_CRED_BLOB_LENGTH: u64 = 32;

/// The CTAP versions.
#[derive(Debug, Clone, Copy, PartialEq, Eq, Structural)]
pub enum Version {
    Fido2_1,
    Fido2_0,
    Fido2_1Preview,
    U2fV2,
}

#[derive(Debug, Clone, Copy, PartialEq, Eq, Structural)]
pub enum FipsCryptoValidation2Level {
    Level1,
    Level2,
    Level3,
    Level4,
}

#[derive(Debug, Clone, Copy, PartialEq, Eq, Structural)]
pub enum FipsCryptoValidation3Level {
    Level1,
    Level2,
    Level3,
    Level4,
}

#[derive(Debug, Clone, Copy, PartialEq, Eq, Structural)]
pub enum FipsPhysicalCryptoValidation2Level {
    Level1,
    Level2,
    Level3,
    Level4,
}

#[derive(Debug, Clone, Copy, PartialEq, Eq, Structural)]
pub enum FipsPhysicalCryptoValidation3Level {
    Level1,
    Level2,
    Level3,
    Level4,
}

/// Common Criteria evaluation assurance levels 1 to 7.
#[derive(Debug, Clone, Copy, PartialEq, Eq, Structural)]
pub enum CommonCriterialLevel {
    EAL1,
    EAL2,
    EAL3,
    EAL4,
    EAL5,
    EAL6,
    EAL7,
}

/// FIDO certification levels; plus levels follow their base level.
#[derive(Debug, Clone, Copy, PartialEq, Eq, Structural)]
pub enum FidoLevel {
    L1,
    L1Plus,
    L2,
    L2Plus,
    L3,
    L3Plus,
}

/// A certification the authenticator has received.
#[derive(Debug, Clone, Copy, PartialEq, Eq, Structural)]
pub enum Certification {
    FipsCryptoValidation2(FipsCryptoValidation2Level),
    FipsCryptoValidation3(FipsCryptoValidation3Level),
    FipsPhysicalCryptoValidation2(FipsPhysicalCryptoValidation2Level),
    FipsPhysicalCryptoValidation3(FipsPhysicalCryptoValidation3Level),
    CommonCriteria(CommonCriterialLevel),
    Fido(FidoLevel),
}

/// The option IDs an authenticator may report.
#[derive(Debug, Clone, Copy, PartialEq, Eq, Structural)]
pub enum OptionId {
    PlatformDevice,
    DiscoverableCredentials,
    ClientPin,
    UserPresence,
    UserVerification,
    PinUvAuthToken,
    NoMcGaPermissionsWithClientPin,
    LargeBlobs,
    EnterpriseAttestation,
    BiometricEnroll,
    UvManagementPreview,
    UvBiometricEnroll,
    AuthenticatorConfig,
    UvAuthenticatorConfig,
    CredentialManagement,
    SetMinPinLength,
    MakeCredentialUvNotRequired,
    AlwaysRequireUv,
}

/// What an authenticator says of an option.
#[derive(Debug, Clone, Copy, PartialEq, Eq, Structural)]
pub enum OptionSupport {
    /// Present and true.
    Enabled,
    /// Present and false.
    Disabled,
    /// Absent.
    Unsupported,
}

/// The fields of a GetInfo response, before the rules are checked.
#[derive(Debug, Clone)]
pub struct InfoParts {
    pub versions: Vec<Version>,
    pub extensions: Option<Vec<Identifier>>,
    pub aaguid: Vec<u8>,
    pub options: Option<Vec<(OptionId, bool)>>,
    pub max_message_size: Option<u64>,
    /// In order of decreasing preference, without duplicates.
    pub pin_uv_auth_protocols: Option<Vec<AuthProtocolVersion>>,
    pub max_credential_count_in_list: Option<u64>,
    pub max_credential_id_length: Option<u64>,
    pub transports: Option<Vec<Transport>>,
    pub algorithms: Option<Vec<Parameters>>,
    pub max_serialized_large_blob_array_size: Option<u64>,
    pub force_pin_change: Option<bool>,
    pub min_pin_length: Option<u64>,
    pub firmware_version: Option<u64>,
    pub max_cred_blob_length: Option<u64>,
    pub max_rpids_for_set_min_pin_length: Option<u64>,
    pub preferred_platform_uv_attempts: Option<u64>,
    pub uv_modality: Option<Vec<UserVerify>>,
    pub certifications: Option<Vec<Certification>>,
    pub remaining_discoverable_credentials: Option<u64>,
    pub vendor_prototype_config_commands: Option<Vec<u64>>,
    pub attestation_formats: Option<Vec<FormatIdentifier>>,
    pub uv_count_since_last_pin_entry: Option<u64>,
    pub long_touch_for_reset: Option<bool>,
}

/// A rule of the GetInfo response that the fields break.
#[derive(Debug, Clone, Copy, PartialEq, Eq, Structural)]
pub enum InfoError {
    /// No CTAP version is listed.
    NoVersions,
    /// The AAGUID does not have 16 bytes.
    InvalidAaguid,
    /// An option ID occurs twice.
    DuplicateOption,
    /// minPINLength is present without the clientPin option, or absent with it.
    MinPinLengthMismatch,
    /// noMcGaPermissionsWithClientPin is present without the clientPin option.
    NoMcGaWithoutClientPin,
    /// maxCredBlobLength is present without the credBlob extension, or
    /// absent with it, or below 32.
    CredBlobLengthMismatch,
    /// maxSerializedLargeBlobArray is present without the largeBlobs option,
    /// or absent with it, or below 1024.
    LargeBlobSizeMismatch,
    /// maxRPIDsForSetMinPINLength is present without the setMinPINLength
    /// option, or absent with it.
    SetMinPinLengthMismatch,
    /// uvModality names the client PIN, which is no built-in method.
    ClientPinInUvModality,
    /// The PIN/UV auth protocol list is empty or repeats a version.
    InvalidPinUvAuthProtocols,
    /// The algorithm list is empty.
    EmptyAlgorithms,
    /// A count that must be positive is zero.
    ZeroCount,
}

/// Whether an options list names `id`, with the value `v`.
pub open spec fn has_option(opts: Option<Vec<(OptionId, bool)>>, id: OptionId) -> bool {
    opts matches Some(o) && exists|i: int| 0 <= i < o@.len() && (#[trigger] o@[i]).0 == id
}

pub open spec fn option_is(opts: Option<Vec<(OptionId, bool)>>, id: OptionId, v: bool) -> bool {
    opts matches Some(o) && exists|i: int| 0 <= i < o@.len() && #[trigger] o@[i] == (id, v)
}

pub open spec fn has_extension(exts: Option<Vec<Identifier>>, id: Identifier) -> bool {
    exts matches Some(e) && e@.contains(id)
}

pub open spec fn options_unique(opts: Option<Vec<(OptionId, bool)>>) -> bool {
    opts matches Some(o) ==> forall|i: int, j: int| 0 <= i < j < o@.len() ==> o@[i].0 != o@[j].0
}

pub open spec fn protocols_ok(p: Option<Vec<AuthProtocolVersion>>) -> bool {
    p matches Some(v) ==> v@.len() > 0 && forall|i: int, j: int| 0 <= i < j < v@.len() ==> v@[i] != v@[j]
}

/// The user verification method that stands for a PIN entered on the
/// platform.
pub open spec fn client_pin_method() -> UserVerify {
    UserVerify::PasscodeExternal
}

pub open spec fn positive(n: Option<u64>) -> bool {
    n matches Some(v) ==> v > 0
}

/// The first rule that the fields break, if any.
pub open spec fn info_error(p: InfoParts) -> Option<InfoError> {
    let pin = has_option(p.options, OptionId::ClientPin);
    if p.versions@.len() == 0 {
        Some(InfoError::NoVersions)
    } else if p.aaguid@.len() != AAGUID_LEN {
        Some(InfoError::InvalidAaguid)
    } else if !options_unique(p.options) {
        Some(InfoError::DuplicateOption)
    } else if (p.min_pin_length is Some) != pin {
        Some(InfoError::MinPinLengthMismatch)
    } else if has_option(p.options, OptionId::NoMcGaPermissionsWithClientPin) && !pin {
        Some(InfoError::NoMcGaWithoutClientPin)
    } else if (p.max_cred_blob_length is Some) != has_extension(p.extensions, Identifier::CredentialBlob)
        || (p.max_cred_blob_length matches Some(n) && n < MIN_CRED_BLOB_LENGTH) {
        Some(InfoError::CredBlobLengthMismatch)
    } else if (p.max_serialized_large_blob_array_size is Some) != has_option(p.options, OptionId::LargeBlobs)
        || (p.max_serialized_large_blob_array_size matches Some(n) && n < MIN_LARGE_BLOB_ARRAY_SIZE) {
        Some(InfoError::LargeBlobSizeMismatch)
    } else if (p.max_rpids_for_set_min_pin_length is Some) != has_option(p.options, OptionId::SetMinPinLength) {
        Some(InfoError::SetMinPinLengthMismatch)
    } else if p.uv_modality matches Some(m) && m@.contains(client_pin_method()) {
        Some(InfoError::ClientPinInUvModality)
    } else if !protocols_ok(p.pin_uv_auth_protocols) {
        Some(InfoError::InvalidPinUvAuthProtocols)
    } else if p.algorithms matches Some(a) && a@.len() == 0 {
        Some(InfoError::EmptyAlgorithms)
    } else if !positive(p.max_credential_count_in_list) || !positive(p.max_credential_id_length) || !positive(
        p.preferred_platform_uv_attempts,
    ) {
        Some(InfoError::ZeroCount)
    } else {
        None
    }
}

/// The index of the first entry for `id`, if any.
fn find_in(o: &Vec<(OptionId, bool)>, id: OptionId) -> (r: Option<usize>)
    ensures
        r is None <==> !(exists|i: int| 0 <= i < o@.len() && (#[trigger] o@[i]).0 == id),
        r matches Some(i) ==> i < o@.len() && o@[i as int].0 == id,
{
    let mut i: usize = 0;
    while i < o.len()
        invariant
            i <= o.len(),
            forall|j: int| 0 <= j < i ==> (#[trigger] o@[j]).0 != id,
        decreases o.len() - i,
    {
        if o[i].0 == id {
            return Some(i);
        }
        i = i + 1;
    }
    None
}

/// Looks up an option: its index in the list, if present.
pub(crate) fn find_option(opts: &Option<Vec<(OptionId, bool)>>, id: OptionId) -> (r: Option<usize>)
    ensures
        r is None <==> !has_option(*opts, id),
        r matches Some(i) ==> (opts matches Some(o) && i < o@.len() && o@[i as int].0 == id),
{
    match opts {
        None => None,
        Some(o) => find_in(o, id),
    }
}

fn contains_identifier(e: &Vec<Identifier>, id: Identifier) -> (r: bool)
    ensures
        r == e@.contains(id),
{
    let mut i: usize = 0;
    while i < e.len()
        invariant
            i <= e.len(),
            forall|j: int| 0 <= j < i ==> e@[j] != id,
        decreases e.len() - i,
    {
        if e[i] == id {
            assert(e@[i as int] == id);
            return true;
        }
        i = i + 1;
    }
    false
}

fn has_extension_exec(exts: &Option<Vec<Identifier>>, id: Identifier) -> (r: bool)
    ensures
        r == has_extension(*exts, id),
{
    match exts {
        None => false,
        Some(e) => contains_identifier(e, id),
    }
}

fn modality_names_client_pin(m: &Vec<UserVerify>) -> (r: bool)
    ensures
        r == m@.contains(client_pin_method()),
{
    let mut i: usize = 0;
    while i < m.len()
        invariant
            i <= m.len(),
            forall|j: int| 0 <= j < i ==> m@[j] != client_pin_method(),
        decreases m.len() - i,
    {
        if m[i] == UserVerify::PasscodeExternal {
            assert(m@[i as int] == client_pin_method());
            return true;
        }
        i = i + 1;
    }
    false
}

fn option_ids_distinct(o: &Vec<(OptionId, bool)>) -> (r: bool)
    ensures
        r == (forall|i: int, j: int| 0 <= i < j < o@.len() ==> o@[i].0 != o@[j].0),
{
    let mut i: usize = 0;
    while i < o.len()
        invariant
            i <= o.len(),
            forall|a: int, b: int| 0 <= a < b < o@.len() && a < i ==> o@[a].0 != o@[b].0,
        decreases o.len() - i,
    {
        let mut j: usize = i + 1;
        while j < o.len()
            invariant
                i < o.len(),
                i + 1 <= j <= o.len(),
                forall|a: int, b: int| 0 <= a < b < o@.len() && a < i ==> o@[a].0 != o@[b].0,
                forall|b: int| i < b < j ==> o@[i as int].0 != o@[b].0,
            decreases o.len() - j,
        {
            if o[i].0 == o[j].0 {
                return false;
            }
            j = j + 1;
        }
        i = i + 1;
    }
    true
}

fn options_distinct(opts: &Option<Vec<(OptionId, bool)>>) -> (r: bool)
    ensures
        r == options_unique(*opts),
{
    match opts {
        None => true,
        Some(o) => option_ids_distinct(o),
    }
}

fn versions_distinct(v: &Vec<AuthProtocolVersion>) -> (r: bool)
    ensures
        r == (forall|a: int, b: int| 0 <= a < b < v@.len() ==> v@[a] != v@[b]),
{
    let mut i: usize = 0;
    while i < v.len()
        invariant
            i <= v.len(),
            forall|a: int, b: int| 0 <= a < b < v@.len() && a < i ==> v@[a] != v@[b],
        decreases v.len() - i,
    {
        let mut j: usize = i + 1;
        while j < v.len()
            invariant
                i < v.len(),
                i + 1 <= j <= v.len(),
                forall|a: int, b: int| 0 <= a < b < v@.len() && a < i ==> v@[a] != v@[b],
                forall|b: int| i < b < j ==> v@[i as int] != v@[b],
            decreases v.len() - j,
        {
            if v[i] == v[j] {
                return false;
            }
            j = j + 1;
        }
        i = i + 1;
    }
    true
}

fn protocols_valid(p: &Option<Vec<AuthProtocolVersion>>) -> (r: bool)
    ensures
        r == protocols_ok(*p),
{
    match p {
        None => true,
        Some(v) => v.len() > 0 && versions_distinct(v),
    }
}

fn positive_exec(n: Option<u64>) -> (r: bool)
    ensures
        r == positive(n),
{
    match n {
        Some(v) => v > 0,
        None => true,
    }
}

/// The capabilities an authenticator reports. Built only through `new`, so
/// every value keeps the rules of `info_error`.
#[derive(Debug, Clone)]
pub struct Info {
    parts: InfoParts,
}

/// Whether a list of protocol versions names `v`.
pub(crate) fn lists_version(vs: &Vec<AuthProtocolVersion>, v: AuthProtocolVersion) -> (r: bool)
    ensures
        r == vs@.contains(v),
{
    let mut i: usize = 0;
    while i < vs.len()
        invariant
            i <= vs.len(),
            forall|j: int| 0 <= j < i ==> vs@[j] != v,
        decreases vs.len() - i,
    {
        if vs[i] == v {
            assert(vs@[i as int] == v);
            return true;
        }
        i = i + 1;
    }
    false
}

/// Whether a list of credential parameters names `p`.
pub(crate) fn lists_parameters(ps: &Vec<Parameters>, p: Parameters) -> (r: bool)
    ensures
        r == ps@.contains(p),
{
    let mut i: usize = 0;
    while i < ps.len()
        invariant
            i <= ps.len(),
            forall|j: int| 0 <= j < i ==> ps@[j] != p,
        decreases ps.len() - i,
    {
        if ps[i] == p {
            assert(ps@[i as int] == p);
            return true;
        }
        i = i + 1;
    }
    false
}

impl Info {
    pub closed spec fn spec_parts(&self) -> InfoParts {
        self.parts
    }

    pub open spec fn wf(&self) -> bool {
        info_error(self.spec_parts()) is None
    }

    /// Checks the rules on which fields go together, and builds the value.
    pub fn new(parts: InfoParts) -> (r: Result<Info, InfoError>)
        ensures
            r is Ok <==> info_error(parts) is None,
            r matches Err(e) ==> info_error(parts) == Some(e),
            r matches Ok(info) ==> info.spec_parts() == parts && info.wf(),
    {
        let pin = find_option(&parts.options, OptionId::ClientPin).is_some();
        if parts.versions.len() == 0 {
            return Err(InfoError::NoVersions);
        }
        if parts.aaguid.len() != AAGUID_LEN {
            return Err(InfoError::InvalidAaguid);
        }
        if !options_distinct(&parts.options) {
            return Err(InfoError::DuplicateOption);
        }
        if parts.min_pin_length.is_some() != pin {
            return Err(InfoError::MinPinLengthMismatch);
        }
        if find_option(&parts.options, OptionId::NoMcGaPermissionsWithClientPin).is_some() && !pin {
            return Err(InfoError::NoMcGaWithoutClientPin);
        }
        let cred_blob = has_extension_exec(&parts.extensions, Identifier::CredentialBlob);
        let blob_len_low = match parts.max_cred_blob_length {
            Some(n) => n < MIN_CRED_BLOB_LENGTH,
            None => false,
        };
        if parts.max_cred_blob_length.is_some() != cred_blob || blob_len_low {
            return Err(InfoError::CredBlobLengthMismatch);
        }
        let large_blobs = find_option(&parts.options, OptionId::LargeBlobs).is_some();
        let array_low = match parts.max_serialized_large_blob_array_size {
            Some(n) => n < MIN_LARGE_BLOB_ARRAY_SIZE,
            None => false,
        };
        if parts.max_serialized_large_blob_array_size.is_some() != large_blobs || array_low {
            return Err(InfoError::LargeBlobSizeMismatch);
        }
        let set_min = find_option(&parts.options, OptionId::SetMinPinLength).is_some();
        if parts.max_rpids_for_set_min_pin_length.is_some() != set_min {
            return Err(InfoError::SetMinPinLengthMismatch);
        }
        match &parts.uv_modality {
            Some(m) => {
                if modality_names_client_pin(m) {
                    return Err(InfoError::ClientPinInUvModality);
                }
            },
            None => {},
        }
        if !protocols_valid(&parts.pin_uv_auth_protocols) {
            return Err(InfoError::InvalidPinUvAuthProtocols);
        }
        match &parts.algorithms {
            Some(a) => {
                if a.len() == 0 {
                    return Err(InfoError::EmptyAlgorithms);
                }
            },
            None => {},
        }
        if !positive_exec(parts.max_credential_count_in_list) || !positive_exec(
            parts.max_credential_id_length,
        ) || !positive_exec(parts.preferred_platform_uv_attempts) {
            return Err(InfoError::ZeroCount);
        }
        Ok(Info { parts })
    }

    /// The reported fields.
    pub fn parts(&self) -> (r: &InfoParts)
        ensures
            *r == self.spec_parts(),
    {
        &self.parts
    }

    /// Whether the authenticator reports the option enabled, disabled, or not
    /// at all.
    pub fn supports(&self, option: OptionId) -> (r: OptionSupport)
        requires
            self.wf(),
        ensures
            r == OptionSupport::Unsupported <==> !has_option(self.spec_parts().options, option),
            r == OptionSupport::Enabled <==> option_is(self.spec_parts().options, option, true),
            r == OptionSupport::Disabled <==> option_is(self.spec_parts().options, option, false),
    {
        match find_option(&self.parts.options, option) {
            None => {
                proof {
                    if let Some(o) = &self.parts.options {
                        assert forall|i: int| 0 <= i < o@.len() implies #[trigger] o@[i] != (option, true) && o@[i] != (option, false) by {
                            assert(o@[i].0 != option);
                        }
                    }
                }
                OptionSupport::Unsupported
            },
            Some(i) => {
                match &self.parts.options {
                    Some(o) => {
                        let v = o[i].1;
                        proof {
                            assert(o@[i as int] == (option, v));
                            assert forall|j: int| 0 <= j < o@.len() && #[trigger] o@[j] == (option, !v) implies false by {
                                if j < i {
                                    assert(o@[j].0 != o@[i as int].0);
                                } else if j > i {
                                    assert(o@[i as int].0 != o@[j].0);
                                }
                            }
                        }
                        if v {
                            OptionSupport::Enabled
                        } else {
                            OptionSupport::Disabled
                        }
                    },
                    None => OptionSupport::Unsupported,
                }
            },
        }
    }

    /// Whether the authenticator lists the extension.
    pub fn supports_extension(&self, id: Identifier) -> (r: bool)
        ensures
            r == has_extension(self.spec_parts().extensions, id),
    {
        has_extension_exec(&self.parts.extensions, id)
    }
}

/// A value built by `new` keeps every co-presence rule: the minimum PIN
/// length comes exactly with the clientPin option, the credBlob limit
/// exactly with the credBlob extension, and the client PIN is never a
/// built-in verification method.
pub proof fn lemma_info_copresence(info: Info)
    requires
        info.wf(),
    ensures
        (info.spec_parts().min_pin_length is Some) == has_option(info.spec_parts().options, OptionId::ClientPin),
        (info.spec_parts().max_cred_blob_length is Some) == has_extension(info.spec_parts().extensions, Identifier::CredentialBlob),
        (info.spec_parts().uv_modality matches Some(m) ==> !m@.contains(client_pin_method())),
{
}

} // verus!
