//! Key-agreement public keys: a closed set of COSE key shapes, matched
//! against the integer-labelled fields of a COSE_Key map.

use vstd::prelude::*;

verus! {

/// COSE key type label 1: OKP.
pub const KTY_OKP: i64 = 1;
/// COSE key type label 2: EC2.
pub const KTY_EC2: i64 = 2;
/// COSE algorithm ES256.
pub const ALG_ES256: i64 = -7;
/// COSE algorithm EdDSA.
pub const ALG_EDDSA: i64 = -8;
/// COSE algorithm ECDH-ES + HKDF-256.
pub const ALG_ECDH_ES_HKDF_256: i64 = -25;
/// COSE curve P-256.
pub const CRV_P256: i64 = 1;
/// COSE curve Ed25519.
pub const CRV_ED25519: i64 = 6;
/// The byte length of each coordinate.
pub const COORDINATE_LEN: usize = 32;

/// The fields of a COSE_Key map that the accepted shapes use: kty (1),
/// alg (3), crv (-1), x (-2) and y (-3).
#[derive(Debug, Clone)]
pub struct RawCoseKey {
    pub kty: Option<i64>,
    pub alg: Option<i64>,
    pub crv: Option<i64>,
    pub x: Option<Vec<u8>>,
    pub y: Option<Vec<u8>>,
}

/// A public key in one of the accepted shapes.
#[derive(Debug, Clone)]
pub enum KeyAgreement {
    /// An EC2 key on P-256 for ES256.
    P256 { x: Vec<u8>, y: Vec<u8> },
    /// An EC2 key on P-256 for ECDH-ES + HKDF-256.
    EcdhEsHkdf256 { x: Vec<u8>, y: Vec<u8> },
    /// An OKP key on Ed25519.
    Ed25519 { x: Vec<u8> },
}

/// A raw key was not of any accepted shape.
#[derive(Debug, Clone, Copy, PartialEq, Eq, Structural)]
pub struct UnknownKeyShape;

impl KeyAgreement {
    /// Every coordinate is 32 bytes long.
    pub open spec fn wf(&self) -> bool {
        match self {
            KeyAgreement::P256 { x, y } => x@.len() == COORDINATE_LEN && y@.len() == COORDINATE_LEN,
            KeyAgreement::EcdhEsHkdf256 { x, y } => x@.len() == COORDINATE_LEN && y@.len()
                == COORDINATE_LEN,
            KeyAgreement::Ed25519 { x } => x@.len() == COORDINATE_LEN,
        }
    }
}

pub open spec fn coordinate_ok(v: Option<Vec<u8>>) -> bool {
    v matches Some(b) && b@.len() == COORDINATE_LEN
}

/// The COSE_Key fields written for a key.
pub open spec fn raw_of_key(k: KeyAgreement) -> RawCoseKey {
    match k {
        KeyAgreement::P256 { x, y } => RawCoseKey {
            kty: Some(KTY_EC2),
            alg: Some(ALG_ES256),
            crv: Some(CRV_P256),
            x: Some(x),
            y: Some(y),
        },
        KeyAgreement::EcdhEsHkdf256 { x, y } => RawCoseKey {
            kty: Some(KTY_EC2),
            alg: Some(ALG_ECDH_ES_HKDF_256),
            crv: Some(CRV_P256),
            x: Some(x),
            y: Some(y),
        },
        KeyAgreement::Ed25519 { x } => RawCoseKey {
            kty: Some(KTY_OKP),
            alg: Some(ALG_EDDSA),
            crv: Some(CRV_ED25519),
            x: Some(x),
            y: None,
        },
    }
}

/// The key that COSE_Key fields describe: the (kty, alg, crv) triple picks
/// the shape, whose coordinates must then be present with 32 bytes each; an
/// Ed25519 key carries no y.
pub open spec fn key_of_raw(r: RawCoseKey) -> Result<KeyAgreement, UnknownKeyShape> {
    if r.kty == Some(KTY_EC2) && r.alg == Some(ALG_ES256) && r.crv == Some(CRV_P256) && coordinate_ok(r.x)
        && coordinate_ok(r.y) {
        Ok(KeyAgreement::P256 { x: r.x->Some_0, y: r.y->Some_0 })
    } else if r.kty == Some(KTY_EC2) && r.alg == Some(ALG_ECDH_ES_HKDF_256) && r.crv == Some(CRV_P256)
        && coordinate_ok(r.x) && coordinate_ok(r.y) {
        Ok(KeyAgreement::EcdhEsHkdf256 { x: r.x->Some_0, y: r.y->Some_0 })
    } else if r.kty == Some(KTY_OKP) && r.alg == Some(ALG_EDDSA) && r.crv == Some(CRV_ED25519)
        && coordinate_ok(r.x) && r.y is None {
        Ok(KeyAgreement::Ed25519 { x: r.x->Some_0 })
    } else {
        Err(UnknownKeyShape)
    }
}

fn coordinate_len_ok(v: &Option<Vec<u8>>) -> (r: bool)
    ensures
        r == coordinate_ok(*v),
{
    match v {
        Some(b) => b.len() == COORDINATE_LEN,
        None => false,
    }
}

fn opt_eq(a: Option<i64>, b: i64) -> (r: bool)
    ensures
        r == (a == Some(b)),
{
    match a {
        Some(v) => v == b,
        None => false,
    }
}

impl KeyAgreement {
    /// The COSE_Key fields of this key.
    pub fn into_raw(self) -> (r: RawCoseKey)
        ensures
            r == raw_of_key(self),
    {
        match self {
            KeyAgreement::P256 { x, y } => RawCoseKey {
                kty: Some(KTY_EC2),
                alg: Some(ALG_ES256),
                crv: Some(CRV_P256),
                x: Some(x),
                y: Some(y),
            },
            KeyAgreement::EcdhEsHkdf256 { x, y } => RawCoseKey {
                kty: Some(KTY_EC2),
                alg: Some(ALG_ECDH_ES_HKDF_256),
                crv: Some(CRV_P256),
                x: Some(x),
                y: Some(y),
            },
            KeyAgreement::Ed25519 { x } => RawCoseKey {
                kty: Some(KTY_OKP),
                alg: Some(ALG_EDDSA),
                crv: Some(CRV_ED25519),
                x: Some(x),
                y: None,
            },
        }
    }

    /// Matches COSE_Key fields against the accepted shapes.
    pub fn from_raw(r: RawCoseKey) -> (k: Result<KeyAgreement, UnknownKeyShape>)
        ensures
            k == key_of_raw(r),
            k matches Ok(key) ==> key.wf(),
    {
        let ec2 = opt_eq(r.kty, KTY_EC2);
        let p256 = opt_eq(r.crv, CRV_P256);
        let xy = coordinate_len_ok(&r.x) && coordinate_len_ok(&r.y);
        if ec2 && opt_eq(r.alg, ALG_ES256) && p256 && xy {
            match (r.x, r.y) {
                (Some(x), Some(y)) => Ok(KeyAgreement::P256 { x, y }),
                _ => Err(UnknownKeyShape),
            }
        } else if ec2 && opt_eq(r.alg, ALG_ECDH_ES_HKDF_256) && p256 && xy {
            match (r.x, r.y) {
                (Some(x), Some(y)) => Ok(KeyAgreement::EcdhEsHkdf256 { x, y }),
                _ => Err(UnknownKeyShape),
            }
        } else if opt_eq(r.kty, KTY_OKP) && opt_eq(r.alg, ALG_EDDSA) && opt_eq(r.crv, CRV_ED25519)
            && coordinate_len_ok(&r.x) && r.y.is_none() {
            match r.x {
                Some(x) => Ok(KeyAgreement::Ed25519 { x }),
                None => Err(UnknownKeyShape),
            }
        } else {
            Err(UnknownKeyShape)
        }
    }
}

/// A well-formed key survives the trip through its COSE_Key fields.
pub proof fn lemma_key_round_trip(k: KeyAgreement)
    requires
        k.wf(),
    ensures
        key_of_raw(raw_of_key(k)) == Ok::<_, UnknownKeyShape>(k),
{
}

/// COSE_Key fields that decode are exactly the fields of the key they give.
pub proof fn lemma_raw_key_round_trip(r: RawCoseKey)
    ensures
        key_of_raw(r) matches Ok(k) ==> raw_of_key(k) == r,
{
}

} // verus!
