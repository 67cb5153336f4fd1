use mock_builder::bid::{
    bid_step, checked_slot_timestamp, BidAction, BidEvent, BidState, HeadBlock, PayloadReply, Reply,
};
use mock_builder::builder::MockBuilder;
use mock_builder::bytes::{ExtraData, FixedBytes, Hash32, PublicKey, U256};
use mock_builder::chain::{ChainSpec, Context};
use mock_builder::error::{BuilderError, Cause, CodecError, Query};
use mock_builder::messages::{
    BidRequest, BuilderBid, CheckedRegistration, ExecutionPayloadHeader, PayloadAttributes,
    SignedBuilderBid, SignedValidatorRegistration, ValidatorRegistration,
};
use mock_builder::operation::{Operation, OperationQueue};
use mock_builder::unblind::{open_payload, payload_key, CachedPayload};

const PROPOSER: u8 = 0x21;
const BUILDER: u8 = 0x42;
const REGISTERED_GAS_LIMIT: u64 = 27_000_000;
const ENGINE_GAS_LIMIT: u64 = 30_000_000;

fn chain() -> ChainSpec {
    ChainSpec {
        genesis_slot: 2,
        seconds_per_slot: 12,
        terminal_total_difficulty: U256::from_u64(58_750_000_000),
        terminal_block_hash: FixedBytes::zero(),
        terminal_block_hash_activation_epoch: u64::MAX,
    }
}

fn proposer_key() -> PublicKey {
    FixedBytes::new([PROPOSER; 48])
}

fn head_hash() -> Hash32 {
    FixedBytes::new([0xee; 32])
}

fn head_block() -> HeadBlock {
    HeadBlock { root: FixedBytes::new([0xbb; 32]), execution_block_hash: head_hash() }
}

fn builder_with_proposer() -> MockBuilder {
    let spec = chain();
    let mut builder =
        MockBuilder::new(spec, Context::from_chain_spec(&spec), FixedBytes::new([BUILDER; 48]));
    let registration = SignedValidatorRegistration {
        message: ValidatorRegistration {
            fee_recipient: FixedBytes::new([0x0f; 20]),
            gas_limit: REGISTERED_GAS_LIMIT,
            timestamp: 1_700_000_000,
            public_key: proposer_key(),
        },
        signature: FixedBytes::new([1; 96]),
    };
    builder
        .register_validator(&[CheckedRegistration { registration, signature_valid: true }])
        .unwrap();
    builder
}

fn request_on(parent_hash: Hash32) -> BidRequest {
    BidRequest { slot: 10, parent_hash, public_key: proposer_key() }
}

fn engine_header() -> ExecutionPayloadHeader {
    ExecutionPayloadHeader {
        parent_hash: head_hash(),
        fee_recipient: FixedBytes::new([0x0f; 20]),
        state_root: FixedBytes::new([3; 32]),
        receipts_root: FixedBytes::new([4; 32]),
        logs_bloom: FixedBytes::new([5; 256]),
        prev_randao: FixedBytes::new([0x77; 32]),
        block_number: 7,
        gas_limit: ENGINE_GAS_LIMIT,
        gas_used: 9,
        timestamp: 1_096,
        extra_data: ExtraData::empty(),
        base_fee_per_gas: U256::from_u64(7),
        block_hash: FixedBytes::new([14; 32]),
        transactions_root: FixedBytes::new([15; 32]),
    }
}

/// Answers the first `count` queries of a request as a healthy chain would.
fn advance_healthy(builder: &mut MockBuilder, count: usize) -> (BidState, BidAction) {
    let (mut state, mut action) = builder.fetch_best_bid(&request_on(head_hash()));
    for _ in 0..count {
        let event = match action {
            BidAction::QueryHeadBlock => BidEvent::HeadBlock(Reply::Found(head_block())),
            BidAction::QueryFinalizedBlock => {
                BidEvent::FinalizedBlock(Reply::Found(FixedBytes::new([0xf1; 32])))
            }
            BidAction::QueryValidatorIndex { .. } => BidEvent::ValidatorIndex(Reply::Found(99)),
            BidAction::QueryGenesis => BidEvent::Genesis(Reply::Found(1_000)),
            BidAction::QueryHeadRandao => {
                BidEvent::HeadRandao(Reply::Found(FixedBytes::new([0x77; 32])))
            }
            BidAction::InsertProposer { .. } => BidEvent::ProposerInserted,
            BidAction::BuildPayload { .. } => {
                BidEvent::Payload(PayloadReply::Header(engine_header()))
            }
            BidAction::Sign { .. } => BidEvent::Signed(Ok(FixedBytes::new([0x5a; 96]))),
            BidAction::Deliver(_) | BidAction::Fail(_) => panic!("the request has ended"),
        };
        let next = builder.advance_bid(state, event);
        state = next.0;
        action = next.1;
    }
    (state, action)
}

fn expected_bid() -> BuilderBid {
    let mut header = engine_header();
    header.gas_limit = REGISTERED_GAS_LIMIT;
    BuilderBid { header, value: U256::zero(), public_key: FixedBytes::new([BUILDER; 48]) }
}

#[test]
fn missing_registration_short_circuit() {
    let spec = chain();
    let builder =
        MockBuilder::new(spec, Context::from_chain_spec(&spec), FixedBytes::new([BUILDER; 48]));
    let (state, action) = builder.fetch_best_bid(&request_on(head_hash()));
    assert!(matches!(state, BidState::Finished));
    match action {
        BidAction::Fail(BuilderError::MissingRegistration { public_key }) => {
            assert_eq!(public_key, proposer_key())
        }
        other => panic!("unexpected action {other:?}"),
    }
}

#[test]
fn registered_proposer_starts_with_the_head_block() {
    let builder = builder_with_proposer();
    let (state, action) = builder.fetch_best_bid(&request_on(head_hash()));
    assert!(matches!(action, BidAction::QueryHeadBlock));
    match state {
        BidState::AwaitingHeadBlock { request, registration } => {
            assert_eq!(request, request_on(head_hash()));
            assert_eq!(registration.gas_limit, REGISTERED_GAS_LIMIT);
            assert_eq!(registration.public_key, proposer_key());
        }
        other => panic!("unexpected state {other:?}"),
    }
}

#[test]
fn head_mismatch() {
    let mut builder = builder_with_proposer();
    let asked: Hash32 = FixedBytes::new([0xdd; 32]);
    let (state, action) = builder.fetch_best_bid(&request_on(asked));
    assert!(matches!(action, BidAction::QueryHeadBlock));
    let (state, action) = builder.advance_bid(state, BidEvent::HeadBlock(Reply::Found(head_block())));
    assert!(matches!(state, BidState::Finished));
    match action {
        BidAction::Fail(BuilderError::HeadMismatch { expected, got }) => {
            assert_eq!(expected, head_hash());
            assert_eq!(got, asked);
        }
        other => panic!("unexpected action {other:?}"),
    }
    // Nothing is asked of the execution engine afterwards.
    let (state, action) = builder.advance_bid(state, BidEvent::ProposerInserted);
    assert!(matches!(state, BidState::Finished));
    assert!(matches!(
        action,
        BidAction::Fail(BuilderError::CollaboratorUnavailable {
            query: Query::InsertProposer,
            cause: Cause::OutOfTurn
        })
    ));
}

#[test]
fn queries_follow_in_order() {
    let mut builder = builder_with_proposer();
    assert!(matches!(advance_healthy(&mut builder, 0).1, BidAction::QueryHeadBlock));
    assert!(matches!(advance_healthy(&mut builder, 1).1, BidAction::QueryFinalizedBlock));
    match advance_healthy(&mut builder, 2).1 {
        BidAction::QueryValidatorIndex { public_key } => assert_eq!(public_key, proposer_key()),
        other => panic!("unexpected action {other:?}"),
    }
    assert!(matches!(advance_healthy(&mut builder, 3).1, BidAction::QueryGenesis));
    assert!(matches!(advance_healthy(&mut builder, 4).1, BidAction::QueryHeadRandao));
}

#[test]
fn proposer_is_inserted_with_the_slot_timestamp() {
    let mut builder = builder_with_proposer();
    match advance_healthy(&mut builder, 5).1 {
        BidAction::InsertProposer { slot, head_block_root, validator_index, attributes } => {
            assert_eq!(slot, 10);
            assert_eq!(head_block_root, FixedBytes::new([0xbb; 32]));
            assert_eq!(validator_index, 99);
            assert_eq!(
                attributes,
                PayloadAttributes {
                    // 1000 + (10 - 2) * 12
                    timestamp: 1_096,
                    prev_randao: FixedBytes::new([0x77; 32]),
                    suggested_fee_recipient: FixedBytes::new([0x0f; 20]),
                }
            );
        }
        other => panic!("unexpected action {other:?}"),
    }
}

#[test]
fn payload_is_built_on_the_head() {
    let mut builder = builder_with_proposer();
    match advance_healthy(&mut builder, 6).1 {
        BidAction::BuildPayload {
            parent_hash,
            timestamp,
            prev_randao,
            finalized_block_hash,
            suggested_fee_recipient,
        } => {
            assert_eq!(parent_hash, head_hash());
            assert_eq!(timestamp, 1_096);
            assert_eq!(prev_randao, FixedBytes::new([0x77; 32]));
            assert_eq!(finalized_block_hash, FixedBytes::new([0xf1; 32]));
            assert_eq!(suggested_fee_recipient, FixedBytes::new([0x0f; 20]));
        }
        other => panic!("unexpected action {other:?}"),
    }
}

#[test]
fn gas_limit_override() {
    let mut builder = builder_with_proposer();
    match advance_healthy(&mut builder, 7).1 {
        BidAction::Sign { bid } => {
            assert_eq!(bid.header.gas_limit, REGISTERED_GAS_LIMIT);
            assert_ne!(bid.header.gas_limit, ENGINE_GAS_LIMIT);
            assert_eq!(bid, expected_bid());
        }
        other => panic!("unexpected action {other:?}"),
    }
}

#[test]
fn bid_is_delivered_with_its_signature() {
    let mut builder = builder_with_proposer();
    let (state, action) = advance_healthy(&mut builder, 8);
    assert!(matches!(state, BidState::Finished));
    match action {
        BidAction::Deliver(signed) => assert_eq!(
            signed,
            SignedBuilderBid { message: expected_bid(), signature: FixedBytes::new([0x5a; 96]) }
        ),
        other => panic!("unexpected action {other:?}"),
    }
}

#[test]
fn waiting_operations_shape_the_bid_and_are_used_up() {
    let mut builder = builder_with_proposer();
    builder.add_operation(Operation::GasLimit(30_000_000));
    builder.add_operation(Operation::FeeRecipient(FixedBytes::new([0xaa; 20])));
    builder.add_operation(Operation::Value(1_000));
    let mut expected = expected_bid();
    expected.header.gas_limit = 30_000_000;
    expected.header.fee_recipient = FixedBytes::new([0xaa; 20]);
    expected.value = U256::from_u64(1_000);
    match advance_healthy(&mut builder, 8).1 {
        BidAction::Deliver(signed) => assert_eq!(signed.message, expected),
        other => panic!("unexpected action {other:?}"),
    }
    // The next bid is not touched by them.
    match advance_healthy(&mut builder, 8).1 {
        BidAction::Deliver(signed) => assert_eq!(signed.message, expected_bid()),
        other => panic!("unexpected action {other:?}"),
    }
}

#[test]
fn operations_wait_while_a_request_fails_early() {
    let mut builder = builder_with_proposer();
    builder.add_operation(Operation::Value(3));
    let (state, _) = advance_healthy(&mut builder, 2);
    let (_, action) = builder.advance_bid(state, BidEvent::ValidatorIndex(Reply::Missing));
    assert!(matches!(action, BidAction::Fail(BuilderError::MissingValidatorIndex { .. })));
    match advance_healthy(&mut builder, 8).1 {
        BidAction::Deliver(signed) => assert_eq!(signed.message.value, U256::from_u64(3)),
        other => panic!("unexpected action {other:?}"),
    }
}

#[test]
fn missing_head_block_ends_the_request() {
    let mut builder = builder_with_proposer();
    let (state, _) = advance_healthy(&mut builder, 0);
    let (state, action) = builder.advance_bid(state, BidEvent::HeadBlock(Reply::Missing));
    assert!(matches!(state, BidState::Finished));
    assert!(matches!(
        action,
        BidAction::Fail(BuilderError::CollaboratorUnavailable {
            query: Query::HeadBlock,
            cause: Cause::Missing
        })
    ));
}

#[test]
fn failing_queries_end_the_request_with_their_words() {
    let mut builder = builder_with_proposer();
    let (state, _) = advance_healthy(&mut builder, 1);
    let (_, action) = builder
        .advance_bid(state, BidEvent::FinalizedBlock(Reply::Failed("timed out".to_string())));
    match action {
        BidAction::Fail(BuilderError::CollaboratorUnavailable {
            query: Query::FinalizedBlock,
            cause: Cause::Failed(words),
        }) => assert_eq!(words, "timed out"),
        other => panic!("unexpected action {other:?}"),
    }
    let (state, _) = advance_healthy(&mut builder, 3);
    let (_, action) =
        builder.advance_bid(state, BidEvent::Genesis(Reply::Failed("no route".to_string())));
    match action {
        BidAction::Fail(BuilderError::CollaboratorUnavailable {
            query: Query::Genesis,
            cause: Cause::Failed(words),
        }) => assert_eq!(words, "no route"),
        other => panic!("unexpected action {other:?}"),
    }
    let (state, _) = advance_healthy(&mut builder, 2);
    let (_, action) =
        builder.advance_bid(state, BidEvent::ValidatorIndex(Reply::Failed("500".to_string())));
    assert!(matches!(
        action,
        BidAction::Fail(BuilderError::CollaboratorUnavailable {
            query: Query::ValidatorIndex,
            cause: Cause::Failed(_)
        })
    ));
}

#[test]
fn missing_validator_index_ends_the_request() {
    let mut builder = builder_with_proposer();
    let (state, _) = advance_healthy(&mut builder, 2);
    let (state, action) = builder.advance_bid(state, BidEvent::ValidatorIndex(Reply::Missing));
    assert!(matches!(state, BidState::Finished));
    match action {
        BidAction::Fail(BuilderError::MissingValidatorIndex { public_key }) => {
            assert_eq!(public_key, proposer_key())
        }
        other => panic!("unexpected action {other:?}"),
    }
}

#[test]
fn missing_state_ends_the_request() {
    let mut builder = builder_with_proposer();
    let (state, _) = advance_healthy(&mut builder, 4);
    let (_, action) = builder.advance_bid(state, BidEvent::HeadRandao(Reply::Missing));
    assert!(matches!(
        action,
        BidAction::Fail(BuilderError::MissingState { cause: Cause::Missing })
    ));
    let (state, _) = advance_healthy(&mut builder, 4);
    let (_, action) =
        builder.advance_bid(state, BidEvent::HeadRandao(Reply::Failed("pruned".to_string())));
    match action {
        BidAction::Fail(BuilderError::MissingState { cause: Cause::Failed(words) }) => {
            assert_eq!(words, "pruned")
        }
        other => panic!("unexpected action {other:?}"),
    }
}

#[test]
fn payload_failures_end_the_request() {
    let mut builder = builder_with_proposer();
    builder.add_operation(Operation::Value(3));
    let (state, _) = advance_healthy(&mut builder, 6);
    let (_, action) =
        builder.advance_bid(state, BidEvent::Payload(PayloadReply::Failed("syncing".to_string())));
    match action {
        BidAction::Fail(BuilderError::CollaboratorUnavailable {
            query: Query::Payload,
            cause: Cause::Failed(words),
        }) => assert_eq!(words, "syncing"),
        other => panic!("unexpected action {other:?}"),
    }
    let (state, _) = advance_healthy(&mut builder, 6);
    let (_, action) = builder.advance_bid(
        state,
        BidEvent::Payload(PayloadReply::Untranslatable("missing field".to_string())),
    );
    match action {
        BidAction::Fail(BuilderError::CodecTranslationFailure(CodecError::Text(words))) => {
            assert_eq!(words, "missing field")
        }
        other => panic!("unexpected action {other:?}"),
    }
}

#[test]
fn signing_failure_ends_the_request() {
    let mut builder = builder_with_proposer();
    let (state, _) = advance_healthy(&mut builder, 7);
    let (state, action) =
        builder.advance_bid(state, BidEvent::Signed(Err("bad key".to_string())));
    assert!(matches!(state, BidState::Finished));
    match action {
        BidAction::Fail(BuilderError::SigningFailure { detail }) => assert_eq!(detail, "bad key"),
        other => panic!("unexpected action {other:?}"),
    }
}

#[test]
fn answer_out_of_turn_ends_the_request() {
    let mut builder = builder_with_proposer();
    let (state, _) = advance_healthy(&mut builder, 0);
    let (state, action) = builder.advance_bid(state, BidEvent::Genesis(Reply::Found(5)));
    assert!(matches!(state, BidState::Finished));
    assert!(matches!(
        action,
        BidAction::Fail(BuilderError::CollaboratorUnavailable {
            query: Query::Genesis,
            cause: Cause::OutOfTurn
        })
    ));
}

#[test]
fn step_function_applies_the_given_queue() {
    let spec = chain();
    let key: PublicKey = FixedBytes::new([BUILDER; 48]);
    let mut queue = OperationQueue::new();
    queue.add(Operation::GasLimit(5));
    let registration = ValidatorRegistration {
        fee_recipient: FixedBytes::new([0x0f; 20]),
        gas_limit: REGISTERED_GAS_LIMIT,
        timestamp: 0,
        public_key: proposer_key(),
    };
    let (state, action) = bid_step(
        &spec,
        &key,
        &mut queue,
        BidState::AwaitingPayload { registration },
        BidEvent::Payload(PayloadReply::Header(engine_header())),
    );
    assert_eq!(queue.len(), 0);
    match (state, action) {
        (BidState::AwaitingSignature { bid: kept }, BidAction::Sign { bid }) => {
            assert_eq!(kept, bid);
            assert_eq!(bid.header.gas_limit, 5);
        }
        other => panic!("unexpected step {other:?}"),
    }
}

#[test]
fn slot_timestamp_formula() {
    let spec = chain();
    assert_eq!(checked_slot_timestamp(&spec, 1_000, 10), Some(1_096));
    assert_eq!(checked_slot_timestamp(&spec, 1_000, 2), Some(1_000));
    assert_eq!(checked_slot_timestamp(&spec, 1_000, 1), None);
    assert_eq!(checked_slot_timestamp(&spec, u64::MAX - 95, 10), None);
    assert_eq!(checked_slot_timestamp(&spec, u64::MAX - 96, 10), Some(u64::MAX));
    assert_eq!(checked_slot_timestamp(&spec, 0, u64::MAX), None);
}

#[test]
fn builder_keeps_what_it_was_made_with() {
    let spec = chain();
    let context = Context::from_chain_spec(&spec);
    let builder = MockBuilder::new(spec, context, FixedBytes::new([BUILDER; 48]));
    assert_eq!(builder.signing_context(), context);
    assert_eq!(builder.public_key(), FixedBytes::new([BUILDER; 48]));
    assert_eq!(builder.lookup(&proposer_key()), None);
    assert!(builder_with_proposer().lookup(&proposer_key()).is_some());
}

#[test]
fn builder_applies_operations_once() {
    let mut builder = builder_with_proposer();
    builder.add_operation(Operation::GasLimit(30_000_000));
    builder.add_operation(Operation::FeeRecipient(FixedBytes::new([0xaa; 20])));
    let mut bid = expected_bid();
    assert!(builder.apply_operations(&mut bid).is_ok());
    assert_eq!(bid.header.gas_limit, 30_000_000);
    assert_eq!(bid.header.fee_recipient, FixedBytes::new([0xaa; 20]));
    let mut again = expected_bid();
    assert!(builder.apply_operations(&mut again).is_ok());
    assert_eq!(again, expected_bid());
}

#[test]
fn builder_registration_batch_is_not_atomic() {
    let mut builder = builder_with_proposer();
    let registration = |key: u8| SignedValidatorRegistration {
        message: ValidatorRegistration {
            fee_recipient: FixedBytes::new([key; 20]),
            gas_limit: 1,
            timestamp: 2,
            public_key: FixedBytes::new([key; 48]),
        },
        signature: FixedBytes::new([key; 96]),
    };
    let batch = [
        CheckedRegistration { registration: registration(1), signature_valid: true },
        CheckedRegistration { registration: registration(2), signature_valid: false },
        CheckedRegistration { registration: registration(3), signature_valid: true },
    ];
    assert!(matches!(
        builder.register_validator(&batch),
        Err(BuilderError::SignatureInvalid { index: 1 })
    ));
    assert_eq!(builder.lookup(&FixedBytes::new([1; 48])), Some(registration(1)));
    assert_eq!(builder.lookup(&FixedBytes::new([3; 48])), None);
}

#[test]
fn open_bid_finds_the_cached_payload() {
    let builder = builder_with_proposer();
    let root: Hash32 = FixedBytes::new([0x31; 32]);
    let key = builder.open_bid(&root).unwrap();
    assert_eq!(key, root);
    assert_eq!(payload_key(&root).unwrap(), root);
    let payload = builder.finish_open_bid(key, CachedPayload::Payload(vec![1u8, 2, 3])).unwrap();
    assert_eq!(payload, vec![1u8, 2, 3]);
    assert_eq!(open_payload(key, CachedPayload::Payload(7u32)).unwrap(), 7);
}

#[test]
fn open_bid_without_a_cached_payload() {
    let builder = builder_with_proposer();
    let root: Hash32 = FixedBytes::new([0x31; 32]);
    match builder.finish_open_bid::<Vec<u8>>(root, CachedPayload::Missing) {
        Err(BuilderError::MissingPayload { root: reported }) => assert_eq!(reported, root),
        other => panic!("unexpected result {other:?}"),
    }
}

#[test]
fn open_bid_with_an_untranslatable_payload() {
    let root: Hash32 = FixedBytes::new([0x31; 32]);
    match open_payload::<Vec<u8>>(root, CachedPayload::Untranslatable("bad hex".to_string())) {
        Err(BuilderError::CodecTranslationFailure(CodecError::Text(words))) => {
            assert_eq!(words, "bad hex")
        }
        other => panic!("unexpected result {other:?}"),
    }
}
