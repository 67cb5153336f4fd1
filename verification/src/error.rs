//! The failures of the builder.

use crate::bytes::{Hash32, PublicKey};
use vstd::prelude::*;

verus! {

/// Why a value could not be carried from one codec to the other.
#[derive(Debug)]
pub enum CodecError {
    /// The builder-side codec could not serialize the value.
    Serialize(ssz_rs::SerializeError),
    /// The builder-side codec rejected the bytes.
    Deserialize(ssz_rs::DeserializeError),
    /// The chain-side codec rejected the bytes.
    Decode(ssz::DecodeError),
    /// A payload could not be carried over through its text form.
    Text(String),
}

/// What the builder asks of the programs around it while it puts a bid
/// together.
#[derive(Clone, Copy, Debug, PartialEq, Eq)]
pub enum Query {
    /// The block at the head of the chain.
    HeadBlock,
    /// The latest finalized block.
    FinalizedBlock,
    /// The index of a validator in the head state.
    ValidatorIndex,
    /// The genesis time.
    Genesis,
    /// The randao mix of the head state's current epoch.
    HeadRandao,
    /// Telling the execution engine of the proposer that is to come.
    InsertProposer,
    /// A payload built by the execution engine.
    Payload,
    /// The builder's signature over the bid.
    Signature,
}

/// How a query went wrong.
#[derive(Debug)]
pub enum Cause {
    /// There is no such object.
    Missing,
    /// The query failed, with these words.
    Failed(String),
    /// The answer came while another query, or none, was pending.
    OutOfTurn,
}

/// Every way in which a request to the builder can fail.
#[derive(Debug)]
pub enum BuilderError {
    /// The registration at this position of a batch carries a signature that
    /// does not verify.
    SignatureInvalid { index: usize },
    /// No registration is cached for this proposer.
    MissingRegistration { public_key: PublicKey },
    /// The bid was asked on top of `got`, while the head of the chain is
    /// `expected`.
    HeadMismatch { expected: Hash32, got: Hash32 },
    /// The head state holds no validator with this key.
    MissingValidatorIndex { public_key: PublicKey },
    /// The head state, or its randao mix, could not be had.
    MissingState { cause: Cause },
    /// No payload is cached under this header root.
    MissingPayload { root: Hash32 },
    /// A value could not be carried from one codec to the other.
    CodecTranslationFailure(CodecError),
    /// The bid could not be signed.
    SigningFailure { detail: String },
    /// The beacon node or the execution engine failed or had no answer.
    CollaboratorUnavailable { query: Query, cause: Cause },
}

} // verus!
