//! The parameters of the chain, and the context in which builder messages are
//! signed.

use crate::bytes::{Hash32, U256};
use crate::codec::{lemma_to_ssz_rs_identity, to_ssz_rs};
use vstd::prelude::*;

verus! {

/// The parameters of the chain that the builder reads.
#[derive(Clone, Copy, Debug, PartialEq, Eq)]
pub struct ChainSpec {
    pub genesis_slot: u64,
    pub seconds_per_slot: u64,
    pub terminal_total_difficulty: U256,
    pub terminal_block_hash: Hash32,
    pub terminal_block_hash_activation_epoch: u64,
}

/// The parameters under which the domain of builder messages is computed.
///
/// Only the markers of the transition to proof of stake are taken from the
/// chain's parameters; whoever signs with this context leaves every other
/// parameter at its default.
#[derive(Clone, Copy, Debug, PartialEq, Eq)]
pub struct Context {
    pub terminal_total_difficulty: U256,
    pub terminal_block_hash: Hash32,
    pub terminal_block_hash_activation_epoch: u64,
}

impl Context {
    /// The context that agrees with the chain's parameters. Each marker
    /// crosses from the chain-side codec to the builder-side one.
    pub fn from_chain_spec(spec: &ChainSpec) -> (out: Self)
        ensures
            out.terminal_total_difficulty == spec.terminal_total_difficulty,
            out.terminal_block_hash == spec.terminal_block_hash,
            out.terminal_block_hash_activation_epoch == spec.terminal_block_hash_activation_epoch,
    {
        let difficulty = to_ssz_rs::<U256, U256>(&spec.terminal_total_difficulty);
        let block_hash = to_ssz_rs::<Hash32, Hash32>(&spec.terminal_block_hash);
        let epoch = to_ssz_rs::<u64, u64>(&spec.terminal_block_hash_activation_epoch);
        proof {
            lemma_to_ssz_rs_identity(spec.terminal_total_difficulty, difficulty);
            lemma_to_ssz_rs_identity(spec.terminal_block_hash, block_hash);
            lemma_to_ssz_rs_identity(spec.terminal_block_hash_activation_epoch, epoch);
        }
        Context {
            terminal_total_difficulty: difficulty.unwrap(),
            terminal_block_hash: block_hash.unwrap(),
            terminal_block_hash_activation_epoch: epoch.unwrap(),
        }
    }
}

} // verus!
