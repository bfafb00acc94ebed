//! The two calls into CBOR libraries that the binary layouts need: finding
//! where one encoded item ends, and checking that an item is a COSE key.

use vstd::prelude::*;

verus! {

/// How many bytes follow the first CBOR data item of `b`, or `None` when `b`
/// does not start with an item that ciborium's value decoder accepts (it also
/// refuses some well-formed items, such as unassigned simple values and text
/// that is not UTF-8).
pub uninterp spec fn cbor_item_remainder(b: Seq<u8>) -> Option<usize>;

/// Whether `b` holds exactly one well-formed COSE_Key structure.
pub uninterp spec fn is_cose_key(b: Seq<u8>) -> bool;

/// Relies on `ciborium::de::from_reader`: it reads one CBOR data item from
/// the front of a byte slice, and the slice is left at the first byte after
/// that item. An item takes at least one byte.
#[verifier::external_body]
pub(crate) fn item_remainder(bytes: &[u8]) -> (r: Option<usize>)
    ensures
        r == cbor_item_remainder(bytes@),
        r matches Some(n) ==> n < bytes@.len(),
{
    let mut rest: &[u8] = bytes;
    match ciborium::de::from_reader::<ciborium::Value, _>(&mut rest) {
        Ok(_) => Some(rest.len()),
        Err(_) => None,
    }
}

/// Relies on `coset::CborSerializable::from_slice` for `coset::CoseKey`: it
/// accepts a byte string that holds one COSE_Key and nothing after it.
#[verifier::external_body]
pub(crate) fn decodes_as_cose_key(bytes: &[u8]) -> (r: bool)
    ensures
        r == is_cose_key(bytes@),
{
    <coset::CoseKey as coset::CborSerializable>::from_slice(bytes).is_ok()
}

} // verus!
