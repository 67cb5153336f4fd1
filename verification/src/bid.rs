//! Putting a bid together.
//!
//! A bid needs five answers from the beacon node, two services of the
//! execution engine and one signature. The builder asks for them one at a
//! time: each step takes the answer to the pending query and decides what to
//! ask next, or how the request ends.

use crate::bytes::{Address, Hash32, PublicKey, Signature, U256};
use crate::chain::ChainSpec;
use crate::codec::{from_ssz_rs, lemma_from_ssz_rs_identity};
use crate::error::{BuilderError, Cause, CodecError, Query};
use crate::messages::{
    BidRequest, BuilderBid, ExecutionPayloadHeader, PayloadAttributes, SignedBuilderBid,
    ValidatorRegistration,
};
use crate::operation::{applied_all, Operation, OperationQueue};
use vstd::prelude::*;

verus! {

/// The head block, as far as the builder reads it.
#[derive(Clone, Copy, Debug, PartialEq, Eq)]
pub struct HeadBlock {
    /// The root of the beacon block.
    pub root: Hash32,
    /// The hash of the execution block that it carries.
    pub execution_block_hash: Hash32,
}

/// The answer to a query for an object.
#[derive(Debug)]
pub enum Reply<T> {
    /// The object.
    Found(T),
    /// There is no such object.
    Missing,
    /// The query failed, with these words.
    Failed(String),
}

/// The answer of the execution engine that was asked for a payload.
#[derive(Debug)]
pub enum PayloadReply {
    /// The header of the payload that it built, in the builder's schema.
    Header(ExecutionPayloadHeader),
    /// It built none, and said this.
    Failed(String),
    /// It built one, which could not be carried over into the builder's
    /// schema, for this reason.
    Untranslatable(String),
}

/// What is asked next, or how the request ends.
#[derive(Debug)]
pub enum BidAction {
    /// Ask the beacon node for the head block.
    QueryHeadBlock,
    /// Ask the beacon node for the latest finalized block.
    QueryFinalizedBlock,
    /// Ask the beacon node for the index of this validator in the head state.
    QueryValidatorIndex { public_key: PublicKey },
    /// Ask the beacon node for the genesis time.
    QueryGenesis,
    /// Ask the beacon node for the randao mix of the head state's current
    /// epoch.
    QueryHeadRandao,
    /// Tell the execution engine which proposer is to come, and with which
    /// attributes its payload is to be built.
    InsertProposer {
        slot: u64,
        head_block_root: Hash32,
        validator_index: u64,
        attributes: PayloadAttributes,
    },
    /// Ask the execution engine for a payload on top of `parent_hash`.
    BuildPayload {
        parent_hash: Hash32,
        timestamp: u64,
        prev_randao: Hash32,
        finalized_block_hash: Hash32,
        suggested_fee_recipient: Address,
    },
    /// Sign this bid with the builder's key.
    Sign { bid: BuilderBid },
    /// The request ends with this bid.
    Deliver(SignedBuilderBid),
    /// The request ends with this error.
    Fail(BuilderError),
}

/// The answer to the pending query.
#[derive(Debug)]
pub enum BidEvent {
    HeadBlock(Reply<HeadBlock>),
    FinalizedBlock(Reply<Hash32>),
    ValidatorIndex(Reply<u64>),
    /// The genesis time.
    Genesis(Reply<u64>),
    HeadRandao(Reply<Hash32>),
    ProposerInserted,
    Payload(PayloadReply),
    Signed(Result<Signature, String>),
}

/// How far a request for a bid has come.
#[derive(Debug)]
pub enum BidState {
    AwaitingHeadBlock { request: BidRequest, registration: ValidatorRegistration },
    AwaitingFinalizedBlock {
        request: BidRequest,
        registration: ValidatorRegistration,
        head: HeadBlock,
    },
    AwaitingValidatorIndex {
        request: BidRequest,
        registration: ValidatorRegistration,
        head: HeadBlock,
        finalized_block_hash: Hash32,
    },
    AwaitingGenesis {
        request: BidRequest,
        registration: ValidatorRegistration,
        head: HeadBlock,
        finalized_block_hash: Hash32,
        validator_index: u64,
        fee_recipient: Address,
    },
    AwaitingHeadRandao {
        request: BidRequest,
        registration: ValidatorRegistration,
        head: HeadBlock,
        finalized_block_hash: Hash32,
        validator_index: u64,
        fee_recipient: Address,
        timestamp: u64,
    },
    AwaitingProposerInserted {
        registration: ValidatorRegistration,
        head: HeadBlock,
        finalized_block_hash: Hash32,
        attributes: PayloadAttributes,
    },
    AwaitingPayload { registration: ValidatorRegistration },
    AwaitingSignature { bid: BuilderBid },
    /// The request has ended.
    Finished,
}

/// The query that an event answers.
pub open spec fn answered(event: BidEvent) -> Query {
    match event {
        BidEvent::HeadBlock(_) => Query::HeadBlock,
        BidEvent::FinalizedBlock(_) => Query::FinalizedBlock,
        BidEvent::ValidatorIndex(_) => Query::ValidatorIndex,
        BidEvent::Genesis(_) => Query::Genesis,
        BidEvent::HeadRandao(_) => Query::HeadRandao,
        BidEvent::ProposerInserted => Query::InsertProposer,
        BidEvent::Payload(_) => Query::Payload,
        BidEvent::Signed(_) => Query::Signature,
    }
}

/// The start of the slot, in seconds: the genesis time and the time of the
/// slots since genesis.
pub open spec fn slot_timestamp(spec: ChainSpec, genesis_time: u64, slot: u64) -> int {
    genesis_time + (slot - spec.genesis_slot) * spec.seconds_per_slot
}

/// Whether the slot is none before genesis and its start can be held in 64
/// bits.
pub open spec fn slot_timestamp_fits(spec: ChainSpec, genesis_time: u64, slot: u64) -> bool {
    spec.genesis_slot <= slot && slot_timestamp(spec, genesis_time, slot) <= u64::MAX
}

/// The start of the slot, where the slot is none before genesis and its start
/// can be held in 64 bits.
pub fn checked_slot_timestamp(spec: &ChainSpec, genesis_time: u64, slot: u64) -> (out: Option<u64>)
    ensures
        out is Some <==> slot_timestamp_fits(*spec, genesis_time, slot),
        out matches Some(timestamp) ==> timestamp == slot_timestamp(*spec, genesis_time, slot),
{
    if slot < spec.genesis_slot {
        return None;
    }
    let slots_since_genesis: u64 = slot - spec.genesis_slot;
    match slots_since_genesis.checked_mul(spec.seconds_per_slot) {
        None => {
            assert(slots_since_genesis * spec.seconds_per_slot > u64::MAX);
            None
        },
        Some(elapsed) => genesis_time.checked_add(elapsed),
    }
}

/// A step of a request for a bid: where it stands then, what is asked next or
/// how it ends, and the operations that still wait.
pub struct BidStep {
    pub state: BidState,
    pub action: BidAction,
    pub operations: Seq<Operation>,
}

/// The step that ends the request with an error.
pub open spec fn failed(error: BuilderError, operations: Seq<Operation>) -> BidStep {
    BidStep { state: BidState::Finished, action: BidAction::Fail(error), operations }
}

/// The bid that is signed for a payload header: the header with the gas
/// limit that the proposer registered, at value zero, under the builder's
/// key, after the waiting operations.
pub open spec fn bid_for(
    header: ExecutionPayloadHeader,
    registration: ValidatorRegistration,
    builder_public_key: PublicKey,
    operations: Seq<Operation>,
) -> BuilderBid {
    applied_all(
        operations,
        BuilderBid {
            header: ExecutionPayloadHeader { gas_limit: registration.gas_limit, ..header },
            value: U256::spec_from_u64(0),
            public_key: builder_public_key,
        },
    )
}

/// The step that an event brings about in a state.
///
/// The answer to the pending query lets the request go on to the next query.
/// A query that failed or found nothing ends the request, and so does an
/// answer to another query than the pending one. The operations wait until
/// the payload header has come; they are then applied, and none is left.
pub open spec fn bid_transition(
    spec: ChainSpec,
    builder_public_key: PublicKey,
    operations: Seq<Operation>,
    state: BidState,
    event: BidEvent,
) -> BidStep {
    match (state, event) {
        (
            BidState::AwaitingHeadBlock { request, registration },
            BidEvent::HeadBlock(reply),
        ) => match reply {
            Reply::Found(head) => if head.execution_block_hash != request.parent_hash {
                failed(
                    BuilderError::HeadMismatch {
                        expected: head.execution_block_hash,
                        got: request.parent_hash,
                    },
                    operations,
                )
            } else {
                BidStep {
                    state: BidState::AwaitingFinalizedBlock { request, registration, head },
                    action: BidAction::QueryFinalizedBlock,
                    operations,
                }
            },
            Reply::Missing => failed(
                BuilderError::CollaboratorUnavailable {
                    query: Query::HeadBlock,
                    cause: Cause::Missing,
                },
                operations,
            ),
            Reply::Failed(words) => failed(
                BuilderError::CollaboratorUnavailable {
                    query: Query::HeadBlock,
                    cause: Cause::Failed(words),
                },
                operations,
            ),
        },
        (
            BidState::AwaitingFinalizedBlock { request, registration, head },
            BidEvent::FinalizedBlock(reply),
        ) => match reply {
            Reply::Found(finalized_block_hash) => BidStep {
                state: BidState::AwaitingValidatorIndex {
                    request,
                    registration,
                    head,
                    finalized_block_hash,
                },
                action: BidAction::QueryValidatorIndex { public_key: registration.public_key },
                operations,
            },
            Reply::Missing => failed(
                BuilderError::CollaboratorUnavailable {
                    query: Query::FinalizedBlock,
                    cause: Cause::Missing,
                },
                operations,
            ),
            Reply::Failed(words) => failed(
                BuilderError::CollaboratorUnavailable {
                    query: Query::FinalizedBlock,
                    cause: Cause::Failed(words),
                },
                operations,
            ),
        },
        (
            BidState::AwaitingValidatorIndex { request, registration, head, finalized_block_hash },
            BidEvent::ValidatorIndex(reply),
        ) => match reply {
            Reply::Found(validator_index) => BidStep {
                state: BidState::AwaitingGenesis {
                    request,
                    registration,
                    head,
                    finalized_block_hash,
                    validator_index,
                    fee_recipient: registration.fee_recipient,
                },
                action: BidAction::QueryGenesis,
                operations,
            },
            Reply::Missing => failed(
                BuilderError::MissingValidatorIndex { public_key: registration.public_key },
                operations,
            ),
            Reply::Failed(words) => failed(
                BuilderError::CollaboratorUnavailable {
                    query: Query::ValidatorIndex,
                    cause: Cause::Failed(words),
                },
                operations,
            ),
        },
        (
            BidState::AwaitingGenesis {
                request,
                registration,
                head,
                finalized_block_hash,
                validator_index,
                fee_recipient,
            },
            BidEvent::Genesis(reply),
        ) => match reply {
            Reply::Found(genesis_time) => BidStep {
                state: BidState::AwaitingHeadRandao {
                    request,
                    registration,
                    head,
                    finalized_block_hash,
                    validator_index,
                    fee_recipient,
                    timestamp: slot_timestamp(spec, genesis_time, request.slot) as u64,
                },
                action: BidAction::QueryHeadRandao,
                operations,
            },
            Reply::Missing => failed(
                BuilderError::CollaboratorUnavailable {
                    query: Query::Genesis,
                    cause: Cause::Missing,
                },
                operations,
            ),
            Reply::Failed(words) => failed(
                BuilderError::CollaboratorUnavailable {
                    query: Query::Genesis,
                    cause: Cause::Failed(words),
                },
                operations,
            ),
        },
        (
            BidState::AwaitingHeadRandao {
                request,
                registration,
                head,
                finalized_block_hash,
                validator_index,
                fee_recipient,
                timestamp,
            },
            BidEvent::HeadRandao(reply),
        ) => match reply {
            Reply::Found(prev_randao) => {
                let attributes = PayloadAttributes {
                    timestamp,
                    prev_randao,
                    suggested_fee_recipient: fee_recipient,
                };
                BidStep {
                    state: BidState::AwaitingProposerInserted {
                        registration,
                        head,
                        finalized_block_hash,
                        attributes,
                    },
                    action: BidAction::InsertProposer {
                        slot: request.slot,
                        head_block_root: head.root,
                        validator_index,
                        attributes,
                    },
                    operations,
                }
            },
            Reply::Missing => failed(
                BuilderError::MissingState { cause: Cause::Missing },
                operations,
            ),
            Reply::Failed(words) => failed(
                BuilderError::MissingState { cause: Cause::Failed(words) },
                operations,
            ),
        },
        (
            BidState::AwaitingProposerInserted {
                registration,
                head,
                finalized_block_hash,
                attributes,
            },
            BidEvent::ProposerInserted,
        ) => BidStep {
            state: BidState::AwaitingPayload { registration },
            action: BidAction::BuildPayload {
                parent_hash: head.execution_block_hash,
                timestamp: attributes.timestamp,
                prev_randao: attributes.prev_randao,
                finalized_block_hash,
                suggested_fee_recipient: attributes.suggested_fee_recipient,
            },
            operations,
        },
        (BidState::AwaitingPayload { registration }, BidEvent::Payload(reply)) => match reply {
            PayloadReply::Header(header) => {
                let bid = bid_for(header, registration, builder_public_key, operations);
                BidStep {
                    state: BidState::AwaitingSignature { bid },
                    action: BidAction::Sign { bid },
                    operations: Seq::empty(),
                }
            },
            PayloadReply::Failed(words) => failed(
                BuilderError::CollaboratorUnavailable {
                    query: Query::Payload,
                    cause: Cause::Failed(words),
                },
                operations,
            ),
            PayloadReply::Untranslatable(words) => failed(
                BuilderError::CodecTranslationFailure(CodecError::Text(words)),
                operations,
            ),
        },
        (BidState::AwaitingSignature { bid }, BidEvent::Signed(reply)) => match reply {
            Ok(signature) => BidStep {
                state: BidState::Finished,
                action: BidAction::Deliver(SignedBuilderBid { message: bid, signature }),
                operations,
            },
            Err(words) => failed(BuilderError::SigningFailure { detail: words }, operations),
        },
        (_, event) => failed(
            BuilderError::CollaboratorUnavailable {
                query: answered(event),
                cause: Cause::OutOfTurn,
            },
            operations,
        ),
    }
}

/// Whether the step can be taken with 64-bit arithmetic: where the event
/// brings the genesis time, the start of the slot asked for must be a time
/// that 64 bits can hold.
pub open spec fn bid_step_in_range(spec: ChainSpec, state: BidState, event: BidEvent) -> bool {
    match (state, event) {
        (
            BidState::AwaitingGenesis { request, .. },
            BidEvent::Genesis(Reply::Found(genesis_time)),
        ) => slot_timestamp_fits(spec, genesis_time, request.slot),
        _ => true,
    }
}

/// The query that an event answers.
fn answered_query(event: &BidEvent) -> (query: Query)
    ensures
        query == answered(*event),
{
    match event {
        BidEvent::HeadBlock(_) => Query::HeadBlock,
        BidEvent::FinalizedBlock(_) => Query::FinalizedBlock,
        BidEvent::ValidatorIndex(_) => Query::ValidatorIndex,
        BidEvent::Genesis(_) => Query::Genesis,
        BidEvent::HeadRandao(_) => Query::HeadRandao,
        BidEvent::ProposerInserted => Query::InsertProposer,
        BidEvent::Payload(_) => Query::Payload,
        BidEvent::Signed(_) => Query::Signature,
    }
}

/// Ends the request with an error.
fn fail(error: BuilderError) -> (out: (BidState, BidAction))
    ensures
        out.0 == BidState::Finished,
        out.1 == BidAction::Fail(error),
{
    (BidState::Finished, BidAction::Fail(error))
}

/// Ends the request because a query failed or found nothing.
fn unavailable<T>(query: Query, reply: Reply<T>) -> (out: (BidState, BidAction))
    requires
        !(reply is Found),
    ensures
        out.0 == BidState::Finished,
        out.1 == BidAction::Fail(
            BuilderError::CollaboratorUnavailable {
                query,
                cause: match reply {
                    Reply::Failed(words) => Cause::Failed(words),
                    _ => Cause::Missing,
                },
            },
        ),
{
    match reply {
        Reply::Failed(words) => fail(
            BuilderError::CollaboratorUnavailable { query, cause: Cause::Failed(words) },
        ),
        _ => fail(BuilderError::CollaboratorUnavailable { query, cause: Cause::Missing }),
    }
}

/// Takes one step of a request for a bid: given the answer to the pending
/// query, says what to ask next or how the request ends.
pub fn bid_step(
    spec: &ChainSpec,
    builder_public_key: &PublicKey,
    operations: &mut OperationQueue,
    state: BidState,
    event: BidEvent,
) -> (out: (BidState, BidAction))
    requires
        bid_step_in_range(*spec, state, event),
    ensures
        out.0 == bid_transition(*spec, *builder_public_key, old(operations)@, state, event).state,
        out.1 == bid_transition(*spec, *builder_public_key, old(operations)@, state, event).action,
        final(operations)@ == bid_transition(
            *spec,
            *builder_public_key,
            old(operations)@,
            state,
            event,
        ).operations,
{
    match (state, event) {
        (
            BidState::AwaitingHeadBlock { request, registration },
            BidEvent::HeadBlock(reply),
        ) => match reply {
            Reply::Found(head) => {
                let carried = from_ssz_rs::<Hash32, Hash32>(&request.parent_hash);
                proof {
                    lemma_from_ssz_rs_identity(request.parent_hash, carried);
                }
                match carried {
                    Err(e) => fail(e),
                    Ok(parent_hash) => if head.execution_block_hash != parent_hash {
                        fail(
                            BuilderError::HeadMismatch {
                                expected: head.execution_block_hash,
                                got: request.parent_hash,
                            },
                        )
                    } else {
                        (
                            BidState::AwaitingFinalizedBlock { request, registration, head },
                            BidAction::QueryFinalizedBlock,
                        )
                    },
                }
            },
            other => unavailable(Query::HeadBlock, other),
        },
        (
            BidState::AwaitingFinalizedBlock { request, registration, head },
            BidEvent::FinalizedBlock(reply),
        ) => match reply {
            Reply::Found(finalized_block_hash) => {
                let carried = from_ssz_rs::<PublicKey, PublicKey>(&registration.public_key);
                proof {
                    lemma_from_ssz_rs_identity(registration.public_key, carried);
                }
                match carried {
                    Err(e) => fail(e),
                    Ok(public_key) => (
                        BidState::AwaitingValidatorIndex {
                            request,
                            registration,
                            head,
                            finalized_block_hash,
                        },
                        BidAction::QueryValidatorIndex { public_key },
                    ),
                }
            },
            other => unavailable(Query::FinalizedBlock, other),
        },
        (
            BidState::AwaitingValidatorIndex { request, registration, head, finalized_block_hash },
            BidEvent::ValidatorIndex(reply),
        ) => match reply {
            Reply::Found(validator_index) => {
                let carried = from_ssz_rs::<Address, Address>(&registration.fee_recipient);
                proof {
                    lemma_from_ssz_rs_identity(registration.fee_recipient, carried);
                }
                match carried {
                    Err(e) => fail(e),
                    Ok(fee_recipient) => (
                        BidState::AwaitingGenesis {
                            request,
                            registration,
                            head,
                            finalized_block_hash,
                            validator_index,
                            fee_recipient,
                        },
                        BidAction::QueryGenesis,
                    ),
                }
            },
            Reply::Missing => fail(
                BuilderError::MissingValidatorIndex { public_key: registration.public_key },
            ),
            other => unavailable(Query::ValidatorIndex, other),
        },
        (
            BidState::AwaitingGenesis {
                request,
                registration,
                head,
                finalized_block_hash,
                validator_index,
                fee_recipient,
            },
            BidEvent::Genesis(reply),
        ) => match reply {
            Reply::Found(genesis_time) => {
                let slots_since_genesis: u64 = request.slot - spec.genesis_slot;
                assert(slots_since_genesis * spec.seconds_per_slot <= u64::MAX) by (nonlinear_arith)
                    requires
                        genesis_time + slots_since_genesis * spec.seconds_per_slot <= u64::MAX,
                ;
                let timestamp: u64 = slots_since_genesis * spec.seconds_per_slot + genesis_time;
                (
                    BidState::AwaitingHeadRandao {
                        request,
                        registration,
                        head,
                        finalized_block_hash,
                        validator_index,
                        fee_recipient,
                        timestamp,
                    },
                    BidAction::QueryHeadRandao,
                )
            },
            other => unavailable(Query::Genesis, other),
        },
        (
            BidState::AwaitingHeadRandao {
                request,
                registration,
                head,
                finalized_block_hash,
                validator_index,
                fee_recipient,
                timestamp,
            },
            BidEvent::HeadRandao(reply),
        ) => match reply {
            Reply::Found(prev_randao) => {
                let attributes = PayloadAttributes {
                    timestamp,
                    prev_randao,
                    suggested_fee_recipient: fee_recipient,
                };
                (
                    BidState::AwaitingProposerInserted {
                        registration,
                        head,
                        finalized_block_hash,
                        attributes,
                    },
                    BidAction::InsertProposer {
                        slot: request.slot,
                        head_block_root: head.root,
                        validator_index,
                        attributes,
                    },
                )
            },
            Reply::Missing => fail(BuilderError::MissingState { cause: Cause::Missing }),
            Reply::Failed(words) => fail(
                BuilderError::MissingState { cause: Cause::Failed(words) },
            ),
        },
        (
            BidState::AwaitingProposerInserted {
                registration,
                head,
                finalized_block_hash,
                attributes,
            },
            BidEvent::ProposerInserted,
        ) => (
            BidState::AwaitingPayload { registration },
            BidAction::BuildPayload {
                parent_hash: head.execution_block_hash,
                timestamp: attributes.timestamp,
                prev_randao: attributes.prev_randao,
                finalized_block_hash,
                suggested_fee_recipient: attributes.suggested_fee_recipient,
            },
        ),
        (BidState::AwaitingPayload { registration }, BidEvent::Payload(reply)) => match reply {
            PayloadReply::Header(payload_header) => {
                let mut header = payload_header;
                header.gas_limit = registration.gas_limit;
                let mut bid = BuilderBid {
                    header,
                    value: U256::from_u64(0),
                    public_key: *builder_public_key,
                };
                match operations.apply_all(&mut bid) {
                    Err(e) => fail(e),
                    Ok(()) => (BidState::AwaitingSignature { bid }, BidAction::Sign { bid }),
                }
            },
            PayloadReply::Failed(words) => fail(
                BuilderError::CollaboratorUnavailable {
                    query: Query::Payload,
                    cause: Cause::Failed(words),
                },
            ),
            PayloadReply::Untranslatable(words) => fail(
                BuilderError::CodecTranslationFailure(CodecError::Text(words)),
            ),
        },
        (BidState::AwaitingSignature { bid }, BidEvent::Signed(reply)) => match reply {
            Ok(signature) => (
                BidState::Finished,
                BidAction::Deliver(SignedBuilderBid { message: bid, signature }),
            ),
            Err(words) => fail(BuilderError::SigningFailure { detail: words }),
        },
        (_, event) => {
            let query = answered_query(&event);
            fail(BuilderError::CollaboratorUnavailable { query, cause: Cause::OutOfTurn })
        },
    }
}

/// The first step of a request: with no registration of the proposer the
/// request ends at once; with one, the head block is asked for.
pub open spec fn bid_start(
    registration: Option<ValidatorRegistration>,
    request: BidRequest,
    operations: Seq<Operation>,
) -> BidStep {
    match registration {
        None => failed(
            BuilderError::MissingRegistration { public_key: request.public_key },
            operations,
        ),
        Some(registration) => BidStep {
            state: BidState::AwaitingHeadBlock { request, registration },
            action: BidAction::QueryHeadBlock,
            operations,
        },
    }
}

/// What the programs around the builder would answer to each of its queries.
pub struct BidReplies {
    pub head_block: Reply<HeadBlock>,
    pub finalized_block: Reply<Hash32>,
    pub validator_index: Reply<u64>,
    pub genesis: Reply<u64>,
    pub head_randao: Reply<Hash32>,
    pub payload: PayloadReply,
    pub signature: Result<Signature, String>,
}

/// The answer to the query that an action makes.
pub open spec fn reply_to(action: BidAction, replies: BidReplies) -> BidEvent {
    match action {
        BidAction::QueryHeadBlock => BidEvent::HeadBlock(replies.head_block),
        BidAction::QueryFinalizedBlock => BidEvent::FinalizedBlock(replies.finalized_block),
        BidAction::QueryValidatorIndex { .. } => BidEvent::ValidatorIndex(replies.validator_index),
        BidAction::QueryGenesis => BidEvent::Genesis(replies.genesis),
        BidAction::QueryHeadRandao => BidEvent::HeadRandao(replies.head_randao),
        BidAction::InsertProposer { .. } => BidEvent::ProposerInserted,
        BidAction::BuildPayload { .. } => BidEvent::Payload(replies.payload),
        _ => BidEvent::Signed(replies.signature),
    }
}

/// Where a request stands after at most `budget` further steps, each query
/// being answered as `replies` says.
pub open spec fn bid_run(
    spec: ChainSpec,
    builder_public_key: PublicKey,
    step: BidStep,
    replies: BidReplies,
    budget: nat,
) -> BidStep
    decreases budget,
{
    if budget == 0 || step.action is Deliver || step.action is Fail {
        step
    } else {
        bid_run(
            spec,
            builder_public_key,
            bid_transition(
                spec,
                builder_public_key,
                step.operations,
                step.state,
                reply_to(step.action, replies),
            ),
            replies,
            (budget - 1) as nat,
        )
    }
}

/// The cause for which a query that found nothing or failed ends a request.
pub open spec fn cause_of<T>(reply: Reply<T>) -> Cause {
    match reply {
        Reply::Failed(words) => Cause::Failed(words),
        _ => Cause::Missing,
    }
}

/// How a request for a bid ends, given the registration of the proposer and
/// the answers to the builder's queries.
///
/// The head of the chain must be the parent that the request names. The
/// finalized block, the validator's index, the genesis time and the randao
/// mix must each be found, in that order. The payload that the execution
/// engine builds is offered with the gas limit that the proposer registered,
/// at value zero, after the waiting operations; the bid carries the signature
/// that was made for it.
pub open spec fn bid_outcome(
    builder_public_key: PublicKey,
    operations: Seq<Operation>,
    registration: Option<ValidatorRegistration>,
    request: BidRequest,
    replies: BidReplies,
) -> Result<SignedBuilderBid, BuilderError> {
    if registration is None {
        Err(BuilderError::MissingRegistration { public_key: request.public_key })
    } else if !(replies.head_block is Found) {
        Err(
            BuilderError::CollaboratorUnavailable {
                query: Query::HeadBlock,
                cause: cause_of(replies.head_block),
            },
        )
    } else if replies.head_block->Found_0.execution_block_hash != request.parent_hash {
        Err(
            BuilderError::HeadMismatch {
                expected: replies.head_block->Found_0.execution_block_hash,
                got: request.parent_hash,
            },
        )
    } else if !(replies.finalized_block is Found) {
        Err(
            BuilderError::CollaboratorUnavailable {
                query: Query::FinalizedBlock,
                cause: cause_of(replies.finalized_block),
            },
        )
    } else if replies.validator_index is Missing {
        Err(BuilderError::MissingValidatorIndex { public_key: registration->0.public_key })
    } else if !(replies.validator_index is Found) {
        Err(
            BuilderError::CollaboratorUnavailable {
                query: Query::ValidatorIndex,
                cause: cause_of(replies.validator_index),
            },
        )
    } else if !(replies.genesis is Found) {
        Err(
            BuilderError::CollaboratorUnavailable {
                query: Query::Genesis,
                cause: cause_of(replies.genesis),
            },
        )
    } else if !(replies.head_randao is Found) {
        Err(BuilderError::MissingState { cause: cause_of(replies.head_randao) })
    } else {
        match replies.payload {
            PayloadReply::Failed(words) => Err(
                BuilderError::CollaboratorUnavailable {
                    query: Query::Payload,
                    cause: Cause::Failed(words),
                },
            ),
            PayloadReply::Untranslatable(words) => Err(
                BuilderError::CodecTranslationFailure(CodecError::Text(words)),
            ),
            PayloadReply::Header(header) => match replies.signature {
                Err(words) => Err(BuilderError::SigningFailure { detail: words }),
                Ok(signature) => Ok(
                    SignedBuilderBid {
                        message: bid_for(
                            header,
                            registration->0,
                            builder_public_key,
                            operations,
                        ),
                        signature,
                    },
                ),
            },
        }
    }
}

/// The steps of a request, each query being answered in turn, end within
/// eight answers, and they end as `bid_outcome` says: with the bid, or with
/// the error of the first query that did not give what was needed.
pub proof fn lemma_bid_run_ends_as_outcome(
    spec: ChainSpec,
    builder_public_key: PublicKey,
    operations: Seq<Operation>,
    registration: Option<ValidatorRegistration>,
    request: BidRequest,
    replies: BidReplies,
)
    ensures
        ({
            let end = bid_run(
                spec,
                builder_public_key,
                bid_start(registration, request, operations),
                replies,
                8,
            );
            &&& end.state is Finished
            &&& end.action == match bid_outcome(
                builder_public_key,
                operations,
                registration,
                request,
                replies,
            ) {
                Ok(bid) => BidAction::Deliver(bid),
                Err(error) => BidAction::Fail(error),
            }
        }),
{
    reveal_with_fuel(bid_run, 9);
}

/// A request on top of another block than the head ends with both hashes in
/// the error, and once a request has ended nothing is asked of the execution
/// engine any more.
pub proof fn lemma_head_mismatch_ends_request(
    spec: ChainSpec,
    builder_public_key: PublicKey,
    operations: Seq<Operation>,
    request: BidRequest,
    registration: ValidatorRegistration,
    head: HeadBlock,
    later: BidEvent,
)
    requires
        head.execution_block_hash != request.parent_hash,
    ensures
        ({
            let step = bid_transition(
                spec,
                builder_public_key,
                operations,
                BidState::AwaitingHeadBlock { request, registration },
                BidEvent::HeadBlock(Reply::Found(head)),
            );
            let after = bid_transition(
                spec,
                builder_public_key,
                step.operations,
                step.state,
                later,
            );
            &&& step.state is Finished
            &&& step.action == BidAction::Fail(
                BuilderError::HeadMismatch {
                    expected: head.execution_block_hash,
                    got: request.parent_hash,
                },
            )
            &&& step.operations == operations
            &&& after.state is Finished
            &&& after.action is Fail
        }),
{
}

/// The gas limit of the bid is the one that the proposer registered, whatever
/// the payload header came with, unless an operation on the gas limit waited.
pub proof fn lemma_registered_gas_limit_wins(
    header: ExecutionPayloadHeader,
    registration: ValidatorRegistration,
    builder_public_key: PublicKey,
    operations: Seq<Operation>,
)
    requires
        !crate::operation::sets_gas_limit(operations),
    ensures
        bid_for(header, registration, builder_public_key, operations).header.gas_limit
            == registration.gas_limit,
{
    crate::operation::lemma_gas_limit_kept(
        operations,
        BuilderBid {
            header: ExecutionPayloadHeader { gas_limit: registration.gas_limit, ..header },
            value: U256::spec_from_u64(0),
            public_key: builder_public_key,
        },
    );
}

} // verus!
