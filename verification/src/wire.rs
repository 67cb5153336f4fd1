//! The two outside SSZ codecs, as far as the builder uses them.
//!
//! Everything in this module is taken on trust: each function below hands its
//! argument to one of the two codec crates, and its contract restates what
//! that crate's implementation does for the one type concerned.

use crate::bytes::le_bytes;
use ssz::{Decode, Encode};
use vstd::prelude::*;

verus! {

/// The error of `ssz::Decode::from_ssz_bytes`.
#[verifier::external_type_specification]
#[verifier::external_body]
pub struct ExDecodeError(ssz::DecodeError);

/// The error of `ssz_rs::serialize`.
#[verifier::external_type_specification]
#[verifier::external_body]
pub struct ExSerializeError(ssz_rs::SerializeError);

/// The error of `ssz_rs::deserialize`.
#[verifier::external_type_specification]
#[verifier::external_body]
pub struct ExDeserializeError(ssz_rs::DeserializeError);

/// `ssz::Encode::as_ssz_bytes` on `ethereum_types::H160`: the encoding of a
/// 20-byte hash is its 20 bytes.
#[verifier::external_body]
pub(crate) fn ssz_encode_h160(value: &[u8; 20]) -> (out: Vec<u8>)
    ensures
        out@ == value@,
{
    ethereum_types::H160(*value).as_ssz_bytes()
}

/// `ssz::Decode::from_ssz_bytes` on `ethereum_types::H160`: exactly 20 bytes
/// are accepted, and they are the hash.
#[verifier::external_body]
pub(crate) fn ssz_decode_h160(bytes: &[u8]) -> (r: Result<[u8; 20], ssz::DecodeError>)
    ensures
        r is Ok <==> bytes@.len() == 20,
        r matches Ok(value) ==> value@ == bytes@,
{
    match ethereum_types::H160::from_ssz_bytes(bytes) {
        Ok(hash) => Ok(hash.0),
        Err(e) => Err(e),
    }
}

/// `ssz::Encode::as_ssz_bytes` on `ethereum_types::H256`: the encoding of a
/// 32-byte hash is its 32 bytes.
#[verifier::external_body]
pub(crate) fn ssz_encode_h256(value: &[u8; 32]) -> (out: Vec<u8>)
    ensures
        out@ == value@,
{
    ethereum_types::H256(*value).as_ssz_bytes()
}

/// `ssz::Decode::from_ssz_bytes` on `ethereum_types::H256`: exactly 32 bytes
/// are accepted, and they are the hash.
#[verifier::external_body]
pub(crate) fn ssz_decode_h256(bytes: &[u8]) -> (r: Result<[u8; 32], ssz::DecodeError>)
    ensures
        r is Ok <==> bytes@.len() == 32,
        r matches Ok(value) ==> value@ == bytes@,
{
    match ethereum_types::H256::from_ssz_bytes(bytes) {
        Ok(hash) => Ok(hash.0),
        Err(e) => Err(e),
    }
}

/// `ssz::Encode::as_ssz_bytes` on `[u8; 48]`: the encoding is the 48 bytes.
#[verifier::external_body]
pub(crate) fn ssz_encode_bytes48(value: &[u8; 48]) -> (out: Vec<u8>)
    ensures
        out@ == value@,
{
    value.as_ssz_bytes()
}

/// `ssz::Decode::from_ssz_bytes` on `[u8; 48]`: exactly 48 bytes are
/// accepted, and they are the array.
#[verifier::external_body]
pub(crate) fn ssz_decode_bytes48(bytes: &[u8]) -> (r: Result<[u8; 48], ssz::DecodeError>)
    ensures
        r is Ok <==> bytes@.len() == 48,
        r matches Ok(value) ==> value@ == bytes@,
{
    <[u8; 48]>::from_ssz_bytes(bytes)
}

/// `ssz::Encode::as_ssz_bytes` on `ethereum_types::U256`: the encoding of a
/// 256-bit integer is its 32 bytes, least significant first. The integer is
/// given and described by those same bytes.
#[verifier::external_body]
pub(crate) fn ssz_encode_u256(le_bytes: &[u8; 32]) -> (out: Vec<u8>)
    ensures
        out@ == le_bytes@,
{
    ethereum_types::U256::from_little_endian(le_bytes).as_ssz_bytes()
}

/// `ssz::Decode::from_ssz_bytes` on `ethereum_types::U256`: exactly 32 bytes
/// are accepted, and they are the integer, least significant byte first.
#[verifier::external_body]
pub(crate) fn ssz_decode_u256(bytes: &[u8]) -> (r: Result<[u8; 32], ssz::DecodeError>)
    ensures
        r is Ok <==> bytes@.len() == 32,
        r matches Ok(le_bytes) ==> le_bytes@ == bytes@,
{
    match ethereum_types::U256::from_ssz_bytes(bytes) {
        Ok(value) => {
            let mut le_bytes = [0u8; 32];
            value.to_little_endian(&mut le_bytes);
            Ok(le_bytes)
        },
        Err(e) => Err(e),
    }
}

/// `ssz_rs::serialize` on `ssz_rs::Vector<u8, N>`: a vector of `N` bytes,
/// with `N` positive and below 2^32, serializes to those bytes.
#[verifier::external_body]
pub(crate) fn ssz_rs_serialize_vector<const N: usize>(value: &[u8; N]) -> (r: Result<
    Vec<u8>,
    ssz_rs::SerializeError,
>)
    requires
        0 < N < 0x1_0000_0000,
    ensures
        r is Ok,
        r matches Ok(out) ==> out@ == value@,
{
    let vector = ssz_rs::Vector::<u8, N>::try_from(value.to_vec()).unwrap();
    ssz_rs::serialize(&vector)
}

/// `ssz_rs::deserialize` to `ssz_rs::Vector<u8, N>`, with `N` positive:
/// exactly `N` bytes are accepted, and they are the vector.
#[verifier::external_body]
pub(crate) fn ssz_rs_deserialize_vector<const N: usize>(bytes: &[u8]) -> (r: Result<
    [u8; N],
    ssz_rs::DeserializeError,
>)
    requires
        0 < N,
    ensures
        r is Ok <==> bytes@.len() == N,
        r matches Ok(value) ==> value@ == bytes@,
{
    match ssz_rs::deserialize::<ssz_rs::Vector<u8, N>>(bytes) {
        Ok(vector) => {
            let mut value = [0u8; N];
            value.copy_from_slice(vector.as_ref());
            Ok(value)
        },
        Err(e) => Err(e),
    }
}

/// `ssz_rs::serialize` on `ssz_rs::U256`: a 256-bit integer serializes to its
/// 32 bytes, least significant first. The integer is given by those bytes.
#[verifier::external_body]
pub(crate) fn ssz_rs_serialize_u256(le_bytes: &[u8; 32]) -> (r: Result<
    Vec<u8>,
    ssz_rs::SerializeError,
>)
    ensures
        r is Ok,
        r matches Ok(out) ==> out@ == le_bytes@,
{
    ssz_rs::serialize(&ssz_rs::U256::from_bytes_le(*le_bytes))
}

/// `ssz_rs::deserialize` to `ssz_rs::U256`: exactly 32 bytes are accepted,
/// and they are the integer, least significant byte first.
#[verifier::external_body]
pub(crate) fn ssz_rs_deserialize_u256(bytes: &[u8]) -> (r: Result<
    [u8; 32],
    ssz_rs::DeserializeError,
>)
    ensures
        r is Ok <==> bytes@.len() == 32,
        r matches Ok(le_bytes) ==> le_bytes@ == bytes@,
{
    match ssz_rs::deserialize::<ssz_rs::U256>(bytes) {
        Ok(value) => {
            let mut le_bytes = [0u8; 32];
            le_bytes.copy_from_slice(&value.to_bytes_le());
            Ok(le_bytes)
        },
        Err(e) => Err(e),
    }
}

/// `ssz::Encode::as_ssz_bytes` on `u64`: the encoding is the eight bytes of
/// the number, least significant first.
#[verifier::external_body]
pub(crate) fn ssz_encode_u64(value: u64) -> (out: Vec<u8>)
    ensures
        out@ == le_bytes(value as nat, 8),
{
    value.as_ssz_bytes()
}

/// `ssz::Decode::from_ssz_bytes` on `u64`: exactly eight bytes are accepted,
/// and they are the bytes of the number, least significant first.
#[verifier::external_body]
pub(crate) fn ssz_decode_u64(bytes: &[u8]) -> (r: Result<u64, ssz::DecodeError>)
    ensures
        r is Ok <==> bytes@.len() == 8,
        r matches Ok(value) ==> le_bytes(value as nat, 8) == bytes@,
{
    u64::from_ssz_bytes(bytes)
}

/// `ssz_rs::serialize` on `u64`: the number serializes to its eight bytes,
/// least significant first.
#[verifier::external_body]
pub(crate) fn ssz_rs_serialize_u64(value: u64) -> (r: Result<Vec<u8>, ssz_rs::SerializeError>)
    ensures
        r is Ok,
        r matches Ok(out) ==> out@ == le_bytes(value as nat, 8),
{
    ssz_rs::serialize(&value)
}

/// `ssz_rs::deserialize` to `u64`: exactly eight bytes are accepted, and they
/// are the bytes of the number, least significant first.
#[verifier::external_body]
pub(crate) fn ssz_rs_deserialize_u64(bytes: &[u8]) -> (r: Result<u64, ssz_rs::DeserializeError>)
    ensures
        r is Ok <==> bytes@.len() == 8,
        r matches Ok(value) ==> le_bytes(value as nat, 8) == bytes@,
{
    ssz_rs::deserialize::<u64>(bytes)
}

} // verus!
