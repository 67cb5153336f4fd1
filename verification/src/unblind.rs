//! Opening a blinded block: finding the payload behind the header that the
//! block carries.

use crate::bytes::Hash32;
use crate::codec::{from_ssz_rs, lemma_from_ssz_rs_identity};
use crate::error::{BuilderError, CodecError};
use vstd::prelude::*;

verus! {

/// What the execution engine holds for a header root.
#[derive(Debug)]
pub enum CachedPayload<P> {
    /// The payload with that header, in the builder's schema.
    Payload(P),
    /// Nothing.
    Missing,
    /// A payload, which could not be carried over into the builder's schema,
    /// for this reason.
    Untranslatable(String),
}

/// The key under which the execution engine holds the payload of a header:
/// the header's root, carried over from the builder-side codec to the
/// chain-side one.
pub fn payload_key(header_root: &Hash32) -> (r: Result<Hash32, BuilderError>)
    ensures
        r == Ok::<Hash32, BuilderError>(*header_root),
{
    let carried = from_ssz_rs::<Hash32, Hash32>(header_root);
    proof {
        lemma_from_ssz_rs_identity(*header_root, carried);
    }
    carried
}

/// How opening a block ends, given what the execution engine holds for the
/// root of its header.
pub open spec fn opened<P>(header_root: Hash32, cached: CachedPayload<P>) -> Result<
    P,
    BuilderError,
> {
    match cached {
        CachedPayload::Payload(payload) => Ok(payload),
        CachedPayload::Missing => Err(BuilderError::MissingPayload { root: header_root }),
        CachedPayload::Untranslatable(words) => Err(
            BuilderError::CodecTranslationFailure(CodecError::Text(words)),
        ),
    }
}

/// Ends the opening of a block: the payload that the execution engine holds
/// is the answer; that it holds none is an error. The signature on the block
/// is not looked at.
pub fn open_payload<P>(header_root: Hash32, cached: CachedPayload<P>) -> (r: Result<
    P,
    BuilderError,
>)
    ensures
        r == opened(header_root, cached),
{
    match cached {
        CachedPayload::Payload(payload) => Ok(payload),
        CachedPayload::Missing => Err(BuilderError::MissingPayload { root: header_root }),
        CachedPayload::Untranslatable(words) => Err(
            BuilderError::CodecTranslationFailure(CodecError::Text(words)),
        ),
    }
}

} // verus!
