//! A stand-in for an external block builder, for exercising a consensus
//! client against the builder protocol without a builder network.
//!
//! The crate holds the decisions of such a builder: which registrations are
//! kept, how a bid is put together from chain state, which mutations are
//! applied to it before it is signed, and how a blinded block is opened
//! again. Queries to the beacon node and the execution engine, and the BLS
//! operations, are carried out by the embedding program, which hands their
//! results in as plain values.

pub mod bid;
pub mod builder;
pub mod bytes;
pub mod chain;
pub mod codec;
pub mod error;
pub mod messages;
pub mod operation;
pub mod registration;
pub mod unblind;
pub mod wire;
