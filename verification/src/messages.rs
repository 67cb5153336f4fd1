//! The messages of the builder protocol, as far as the builder reads them.

use crate::bytes::{Address, Bloom, ExtraData, Hash32, PublicKey, Signature, U256};
use vstd::prelude::*;

verus! {

/// What a validator declares to builders: where fees go, and the gas limit
/// it prefers.
#[derive(Clone, Copy, Debug, PartialEq, Eq)]
pub struct ValidatorRegistration {
    pub fee_recipient: Address,
    pub gas_limit: u64,
    pub timestamp: u64,
    pub public_key: PublicKey,
}

/// A registration with the validator's signature over it.
#[derive(Clone, Copy, Debug, PartialEq, Eq)]
pub struct SignedValidatorRegistration {
    pub message: ValidatorRegistration,
    pub signature: Signature,
}

/// A registration of a batch, with the outcome of checking its signature
/// against its own public key under the builder domain.
#[derive(Clone, Copy, Debug, PartialEq, Eq)]
pub struct CheckedRegistration {
    pub registration: SignedValidatorRegistration,
    pub signature_valid: bool,
}

/// A proposer's request for a bid.
#[derive(Clone, Copy, Debug, PartialEq, Eq)]
pub struct BidRequest {
    pub slot: u64,
    pub parent_hash: Hash32,
    pub public_key: PublicKey,
}

/// The header of an execution payload.
#[derive(Clone, Copy, Debug, PartialEq, Eq)]
pub struct ExecutionPayloadHeader {
    pub parent_hash: Hash32,
    pub fee_recipient: Address,
    pub state_root: Hash32,
    pub receipts_root: Hash32,
    pub logs_bloom: Bloom,
    pub prev_randao: Hash32,
    pub block_number: u64,
    pub gas_limit: u64,
    pub gas_used: u64,
    pub timestamp: u64,
    pub extra_data: ExtraData,
    pub base_fee_per_gas: U256,
    pub block_hash: Hash32,
    pub transactions_root: Hash32,
}

/// A builder's offer: a payload header, the value offered to the proposer,
/// and the builder's key.
#[derive(Clone, Copy, Debug, PartialEq, Eq)]
pub struct BuilderBid {
    pub header: ExecutionPayloadHeader,
    pub value: U256,
    pub public_key: PublicKey,
}

/// A bid with the builder's signature over it.
#[derive(Clone, Copy, Debug, PartialEq, Eq)]
pub struct SignedBuilderBid {
    pub message: BuilderBid,
    pub signature: Signature,
}

/// What the execution engine is told about the payload it is to build.
#[derive(Clone, Copy, Debug, PartialEq, Eq)]
pub struct PayloadAttributes {
    pub timestamp: u64,
    pub prev_randao: Hash32,
    pub suggested_fee_recipient: Address,
}

} // verus!
