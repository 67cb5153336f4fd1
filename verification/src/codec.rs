//! Carrying a value from one SSZ codec to the other.
//!
//! The beacon node and the execution engine speak one implementation of SSZ,
//! the builder protocol another. A value crosses by being encoded with the
//! one and decoded with the other.

use crate::bytes::{
    le_bytes, lemma_le_value_of_le_bytes, lemma_u64_fits, lemma_u64_le_bytes_injective, FixedBytes,
    U256,
};
use crate::error::{BuilderError, CodecError};
use crate::wire::{
    ssz_decode_bytes48, ssz_decode_h160, ssz_decode_h256, ssz_decode_u256, ssz_decode_u64,
    ssz_encode_bytes48, ssz_encode_h160, ssz_encode_h256, ssz_encode_u256, ssz_encode_u64,
    ssz_rs_deserialize_u256, ssz_rs_deserialize_u64, ssz_rs_deserialize_vector,
    ssz_rs_serialize_u256, ssz_rs_serialize_u64, ssz_rs_serialize_vector,
};
use vstd::prelude::*;

verus! {

/// A type of the chain side: the codec of the beacon node and the execution
/// engine.
pub trait ChainCodec: Sized {
    /// The encoding of a value.
    spec fn chain_encoding(&self) -> Seq<u8>;

    /// Whether the bytes are the encoding of some value of this type.
    spec fn chain_accepts(bytes: Seq<u8>) -> bool;

    /// Encodes the value.
    fn to_chain_bytes(&self) -> (out: Vec<u8>)
        ensures
            out@ == self.chain_encoding(),
    ;

    /// Decodes a value; the bytes must be an encoding, with nothing left over.
    fn from_chain_bytes(bytes: &[u8]) -> (r: Result<Self, ssz::DecodeError>)
        ensures
            r is Ok <==> Self::chain_accepts(bytes@),
            r matches Ok(value) ==> value.chain_encoding() == bytes@,
    ;

    /// Different values have different encodings.
    proof fn lemma_chain_encoding_injective(a: Self, b: Self)
        requires
            a.chain_encoding() == b.chain_encoding(),
        ensures
            a == b,
    ;

    /// Every encoding is accepted.
    proof fn lemma_chain_accepts_encoding(value: Self)
        ensures
            Self::chain_accepts(value.chain_encoding()),
    ;
}

/// A type of the builder side: the codec of the builder protocol.
pub trait BuilderCodec: Sized {
    /// The serialization of a value, where it has one.
    spec fn builder_encoding(&self) -> Option<Seq<u8>>;

    /// Whether the bytes are the serialization of some value of this type.
    spec fn builder_accepts(bytes: Seq<u8>) -> bool;

    /// Serializes the value.
    fn to_builder_bytes(&self) -> (r: Result<Vec<u8>, ssz_rs::SerializeError>)
        ensures
            r is Ok <==> self.builder_encoding() is Some,
            r matches Ok(out) ==> self.builder_encoding() == Some(out@),
    ;

    /// Deserializes a value; the bytes must be a serialization, with nothing
    /// left over.
    fn from_builder_bytes(bytes: &[u8]) -> (r: Result<Self, ssz_rs::DeserializeError>)
        ensures
            r is Ok <==> Self::builder_accepts(bytes@),
            r matches Ok(value) ==> value.builder_encoding() == Some(bytes@),
    ;

    /// Different values have different serializations.
    proof fn lemma_builder_encoding_injective(a: Self, b: Self)
        requires
            a.builder_encoding() is Some,
            a.builder_encoding() == b.builder_encoding(),
        ensures
            a == b,
    ;
}

/// A type that both codecs know, and encode alike.
pub trait SharedSchema: ChainCodec + BuilderCodec {
    /// Both codecs give a value the same bytes.
    proof fn lemma_encodings_agree(value: Self)
        ensures
            value.builder_encoding() == Some(value.chain_encoding()),
    ;

    /// Both codecs accept the same bytes.
    proof fn lemma_acceptance_agrees(bytes: Seq<u8>)
        ensures
            Self::chain_accepts(bytes) == Self::builder_accepts(bytes),
    ;
}

/// What `from_ssz_rs` returns for `data`: the chain-side value with the bytes
/// that the builder side gives `data`.
pub open spec fn carried_to_chain<T: BuilderCodec, U: ChainCodec>(
    data: T,
    r: Result<U, BuilderError>,
) -> bool {
    match data.builder_encoding() {
        None => r matches Err(BuilderError::CodecTranslationFailure(CodecError::Serialize(_))),
        Some(bytes) => if U::chain_accepts(bytes) {
            r matches Ok(value) && value.chain_encoding() == bytes
        } else {
            r matches Err(BuilderError::CodecTranslationFailure(CodecError::Decode(_)))
        },
    }
}

/// What `to_ssz_rs` returns for `data`: the builder-side value with the bytes
/// that the chain side gives `data`.
pub open spec fn carried_to_builder<T: ChainCodec, U: BuilderCodec>(
    data: T,
    r: Result<U, BuilderError>,
) -> bool {
    if U::builder_accepts(data.chain_encoding()) {
        r matches Ok(value) && value.builder_encoding() == Some(data.chain_encoding())
    } else {
        r matches Err(BuilderError::CodecTranslationFailure(CodecError::Deserialize(_)))
    }
}

/// Carries a builder-side value over to the chain side: serialized by the
/// builder-side codec, decoded by the chain-side one.
pub fn from_ssz_rs<T: BuilderCodec, U: ChainCodec>(ssz_rs_data: &T) -> (r: Result<U, BuilderError>)
    ensures
        carried_to_chain(*ssz_rs_data, r),
{
    match ssz_rs_data.to_builder_bytes() {
        Err(e) => Err(BuilderError::CodecTranslationFailure(CodecError::Serialize(e))),
        Ok(bytes) => match U::from_chain_bytes(bytes.as_slice()) {
            Err(e) => Err(BuilderError::CodecTranslationFailure(CodecError::Decode(e))),
            Ok(value) => Ok(value),
        },
    }
}

/// Carries a chain-side value over to the builder side: encoded by the
/// chain-side codec, deserialized by the builder-side one.
pub fn to_ssz_rs<T: ChainCodec, U: BuilderCodec>(ssz_data: &T) -> (r: Result<U, BuilderError>)
    ensures
        carried_to_builder(*ssz_data, r),
{
    let bytes = ssz_data.to_chain_bytes();
    match U::from_builder_bytes(bytes.as_slice()) {
        Err(e) => Err(BuilderError::CodecTranslationFailure(CodecError::Deserialize(e))),
        Ok(value) => Ok(value),
    }
}

/// A value of a shared type crosses to the builder side unchanged.
pub proof fn lemma_to_ssz_rs_identity<T: SharedSchema>(x: T, r: Result<T, BuilderError>)
    requires
        carried_to_builder(x, r),
    ensures
        r matches Ok(y) && y == x,
{
    T::lemma_chain_accepts_encoding(x);
    T::lemma_acceptance_agrees(x.chain_encoding());
    T::lemma_encodings_agree(x);
    let y = r->Ok_0;
    T::lemma_builder_encoding_injective(x, y);
}

/// A value of a shared type crosses to the chain side unchanged.
pub proof fn lemma_from_ssz_rs_identity<T: SharedSchema>(x: T, r: Result<T, BuilderError>)
    requires
        carried_to_chain(x, r),
    ensures
        r matches Ok(y) && y == x,
{
    T::lemma_encodings_agree(x);
    T::lemma_chain_accepts_encoding(x);
    let y = r->Ok_0;
    T::lemma_chain_encoding_injective(x, y);
}

/// Round trip: a value of a shared type that is carried to the builder side
/// and back again is the value it was.
pub proof fn lemma_round_trip<T: SharedSchema>(
    x: T,
    there: Result<T, BuilderError>,
    back: Result<T, BuilderError>,
)
    requires
        carried_to_builder(x, there),
        there matches Ok(y) ==> carried_to_chain(y, back),
    ensures
        there is Ok,
        back matches Ok(z) && z == x,
{
    lemma_to_ssz_rs_identity(x, there);
    lemma_from_ssz_rs_identity(there->Ok_0, back);
}

impl ChainCodec for FixedBytes<20> {
    open spec fn chain_encoding(&self) -> Seq<u8> {
        self@
    }

    open spec fn chain_accepts(bytes: Seq<u8>) -> bool {
        bytes.len() == 20
    }

    fn to_chain_bytes(&self) -> (out: Vec<u8>) {
        ssz_encode_h160(&self.bytes)
    }

    fn from_chain_bytes(bytes: &[u8]) -> (r: Result<Self, ssz::DecodeError>) {
        match ssz_decode_h160(bytes) {
            Ok(value) => Ok(FixedBytes { bytes: value }),
            Err(e) => Err(e),
        }
    }

    proof fn lemma_chain_encoding_injective(a: Self, b: Self) {
        a.lemma_view_injective(b);
    }

    proof fn lemma_chain_accepts_encoding(value: Self) {
    }
}

impl BuilderCodec for FixedBytes<20> {
    open spec fn builder_encoding(&self) -> Option<Seq<u8>> {
        Some(self@)
    }

    open spec fn builder_accepts(bytes: Seq<u8>) -> bool {
        bytes.len() == 20
    }

    fn to_builder_bytes(&self) -> (r: Result<Vec<u8>, ssz_rs::SerializeError>) {
        ssz_rs_serialize_vector::<20>(&self.bytes)
    }

    fn from_builder_bytes(bytes: &[u8]) -> (r: Result<Self, ssz_rs::DeserializeError>) {
        match ssz_rs_deserialize_vector::<20>(bytes) {
            Ok(value) => Ok(FixedBytes { bytes: value }),
            Err(e) => Err(e),
        }
    }

    proof fn lemma_builder_encoding_injective(a: Self, b: Self) {
        a.lemma_view_injective(b);
    }
}

impl SharedSchema for FixedBytes<20> {
    proof fn lemma_encodings_agree(value: Self) {
    }

    proof fn lemma_acceptance_agrees(bytes: Seq<u8>) {
    }
}

impl ChainCodec for FixedBytes<32> {
    open spec fn chain_encoding(&self) -> Seq<u8> {
        self@
    }

    open spec fn chain_accepts(bytes: Seq<u8>) -> bool {
        bytes.len() == 32
    }

    fn to_chain_bytes(&self) -> (out: Vec<u8>) {
        ssz_encode_h256(&self.bytes)
    }

    fn from_chain_bytes(bytes: &[u8]) -> (r: Result<Self, ssz::DecodeError>) {
        match ssz_decode_h256(bytes) {
            Ok(value) => Ok(FixedBytes { bytes: value }),
            Err(e) => Err(e),
        }
    }

    proof fn lemma_chain_encoding_injective(a: Self, b: Self) {
        a.lemma_view_injective(b);
    }

    proof fn lemma_chain_accepts_encoding(value: Self) {
    }
}

impl BuilderCodec for FixedBytes<32> {
    open spec fn builder_encoding(&self) -> Option<Seq<u8>> {
        Some(self@)
    }

    open spec fn builder_accepts(bytes: Seq<u8>) -> bool {
        bytes.len() == 32
    }

    fn to_builder_bytes(&self) -> (r: Result<Vec<u8>, ssz_rs::SerializeError>) {
        ssz_rs_serialize_vector::<32>(&self.bytes)
    }

    fn from_builder_bytes(bytes: &[u8]) -> (r: Result<Self, ssz_rs::DeserializeError>) {
        match ssz_rs_deserialize_vector::<32>(bytes) {
            Ok(value) => Ok(FixedBytes { bytes: value }),
            Err(e) => Err(e),
        }
    }

    proof fn lemma_builder_encoding_injective(a: Self, b: Self) {
        a.lemma_view_injective(b);
    }
}

impl SharedSchema for FixedBytes<32> {
    proof fn lemma_encodings_agree(value: Self) {
    }

    proof fn lemma_acceptance_agrees(bytes: Seq<u8>) {
    }
}

impl ChainCodec for FixedBytes<48> {
    open spec fn chain_encoding(&self) -> Seq<u8> {
        self@
    }

    open spec fn chain_accepts(bytes: Seq<u8>) -> bool {
        bytes.len() == 48
    }

    fn to_chain_bytes(&self) -> (out: Vec<u8>) {
        ssz_encode_bytes48(&self.bytes)
    }

    fn from_chain_bytes(bytes: &[u8]) -> (r: Result<Self, ssz::DecodeError>) {
        match ssz_decode_bytes48(bytes) {
            Ok(value) => Ok(FixedBytes { bytes: value }),
            Err(e) => Err(e),
        }
    }

    proof fn lemma_chain_encoding_injective(a: Self, b: Self) {
        a.lemma_view_injective(b);
    }

    proof fn lemma_chain_accepts_encoding(value: Self) {
    }
}

impl BuilderCodec for FixedBytes<48> {
    open spec fn builder_encoding(&self) -> Option<Seq<u8>> {
        Some(self@)
    }

    open spec fn builder_accepts(bytes: Seq<u8>) -> bool {
        bytes.len() == 48
    }

    fn to_builder_bytes(&self) -> (r: Result<Vec<u8>, ssz_rs::SerializeError>) {
        ssz_rs_serialize_vector::<48>(&self.bytes)
    }

    fn from_builder_bytes(bytes: &[u8]) -> (r: Result<Self, ssz_rs::DeserializeError>) {
        match ssz_rs_deserialize_vector::<48>(bytes) {
            Ok(value) => Ok(FixedBytes { bytes: value }),
            Err(e) => Err(e),
        }
    }

    proof fn lemma_builder_encoding_injective(a: Self, b: Self) {
        a.lemma_view_injective(b);
    }
}

impl SharedSchema for FixedBytes<48> {
    proof fn lemma_encodings_agree(value: Self) {
    }

    proof fn lemma_acceptance_agrees(bytes: Seq<u8>) {
    }
}

impl ChainCodec for U256 {
    open spec fn chain_encoding(&self) -> Seq<u8> {
        self@
    }

    open spec fn chain_accepts(bytes: Seq<u8>) -> bool {
        bytes.len() == 32
    }

    fn to_chain_bytes(&self) -> (out: Vec<u8>) {
        ssz_encode_u256(&self.le_bytes.bytes)
    }

    fn from_chain_bytes(bytes: &[u8]) -> (r: Result<Self, ssz::DecodeError>) {
        match ssz_decode_u256(bytes) {
            Ok(value) => Ok(U256 { le_bytes: FixedBytes { bytes: value } }),
            Err(e) => Err(e),
        }
    }

    proof fn lemma_chain_encoding_injective(a: Self, b: Self) {
        a.lemma_view_injective(b);
    }

    proof fn lemma_chain_accepts_encoding(value: Self) {
    }
}

impl BuilderCodec for U256 {
    open spec fn builder_encoding(&self) -> Option<Seq<u8>> {
        Some(self@)
    }

    open spec fn builder_accepts(bytes: Seq<u8>) -> bool {
        bytes.len() == 32
    }

    fn to_builder_bytes(&self) -> (r: Result<Vec<u8>, ssz_rs::SerializeError>) {
        ssz_rs_serialize_u256(&self.le_bytes.bytes)
    }

    fn from_builder_bytes(bytes: &[u8]) -> (r: Result<Self, ssz_rs::DeserializeError>) {
        match ssz_rs_deserialize_u256(bytes) {
            Ok(value) => Ok(U256 { le_bytes: FixedBytes { bytes: value } }),
            Err(e) => Err(e),
        }
    }

    proof fn lemma_builder_encoding_injective(a: Self, b: Self) {
        a.lemma_view_injective(b);
    }
}

impl SharedSchema for U256 {
    proof fn lemma_encodings_agree(value: Self) {
    }

    proof fn lemma_acceptance_agrees(bytes: Seq<u8>) {
    }
}

impl ChainCodec for u64 {
    open spec fn chain_encoding(&self) -> Seq<u8> {
        le_bytes(*self as nat, 8)
    }

    open spec fn chain_accepts(bytes: Seq<u8>) -> bool {
        bytes.len() == 8
    }

    fn to_chain_bytes(&self) -> (out: Vec<u8>) {
        ssz_encode_u64(*self)
    }

    fn from_chain_bytes(bytes: &[u8]) -> (r: Result<Self, ssz::DecodeError>) {
        ssz_decode_u64(bytes)
    }

    proof fn lemma_chain_encoding_injective(a: Self, b: Self) {
        lemma_u64_le_bytes_injective(a, b);
    }

    proof fn lemma_chain_accepts_encoding(value: Self) {
        lemma_u64_fits(value, 8);
        lemma_le_value_of_le_bytes(value as nat, 8);
    }
}

impl BuilderCodec for u64 {
    open spec fn builder_encoding(&self) -> Option<Seq<u8>> {
        Some(le_bytes(*self as nat, 8))
    }

    open spec fn builder_accepts(bytes: Seq<u8>) -> bool {
        bytes.len() == 8
    }

    fn to_builder_bytes(&self) -> (r: Result<Vec<u8>, ssz_rs::SerializeError>) {
        ssz_rs_serialize_u64(*self)
    }

    fn from_builder_bytes(bytes: &[u8]) -> (r: Result<Self, ssz_rs::DeserializeError>) {
        ssz_rs_deserialize_u64(bytes)
    }

    proof fn lemma_builder_encoding_injective(a: Self, b: Self) {
        lemma_u64_le_bytes_injective(a, b);
    }
}

impl SharedSchema for u64 {
    proof fn lemma_encodings_agree(value: Self) {
    }

    proof fn lemma_acceptance_agrees(bytes: Seq<u8>) {
    }
}

} // verus!
