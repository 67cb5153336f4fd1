use mock_builder::bytes::{ExtraData, FixedBytes, U256};
use mock_builder::messages::{BuilderBid, ExecutionPayloadHeader};
use mock_builder::operation::{Operation, OperationQueue};

fn plain_bid() -> BuilderBid {
    BuilderBid {
        header: ExecutionPayloadHeader {
            parent_hash: FixedBytes::new([1; 32]),
            fee_recipient: FixedBytes::new([2; 20]),
            state_root: FixedBytes::new([3; 32]),
            receipts_root: FixedBytes::new([4; 32]),
            logs_bloom: FixedBytes::new([5; 256]),
            prev_randao: FixedBytes::new([6; 32]),
            block_number: 7,
            gas_limit: 8,
            gas_used: 9,
            timestamp: 10,
            extra_data: ExtraData::from_slice(&[11, 12]).unwrap(),
            base_fee_per_gas: U256::from_u64(13),
            block_hash: FixedBytes::new([14; 32]),
            transactions_root: FixedBytes::new([15; 32]),
        },
        value: U256::zero(),
        public_key: FixedBytes::new([16; 48]),
    }
}

#[test]
fn fee_recipient_is_set() {
    let mut bid = plain_bid();
    assert!(Operation::FeeRecipient(FixedBytes::new([0xaa; 20])).apply(&mut bid).is_ok());
    let mut expected = plain_bid();
    expected.header.fee_recipient = FixedBytes::new([0xaa; 20]);
    assert_eq!(bid, expected);
}

#[test]
fn gas_limit_is_set() {
    let mut bid = plain_bid();
    assert!(Operation::GasLimit(30_000_000).apply(&mut bid).is_ok());
    let mut expected = plain_bid();
    expected.header.gas_limit = 30_000_000;
    assert_eq!(bid, expected);
}

#[test]
fn value_is_set() {
    let mut bid = plain_bid();
    assert!(Operation::Value(0x0102_0304).apply(&mut bid).is_ok());
    let mut expected = plain_bid();
    let mut le_bytes = [0u8; 32];
    le_bytes[..4].copy_from_slice(&[4, 3, 2, 1]);
    expected.value = U256 { le_bytes: FixedBytes::new(le_bytes) };
    assert_eq!(bid, expected);
}

#[test]
fn operation_ordering() {
    let mut queue = OperationQueue::new();
    queue.add(Operation::GasLimit(30_000_000));
    queue.add(Operation::FeeRecipient(FixedBytes::new([0xaa; 20])));
    assert_eq!(queue.len(), 2);
    let mut bid = plain_bid();
    assert!(queue.apply_all(&mut bid).is_ok());
    assert_eq!(bid.header.fee_recipient, FixedBytes::new([0xaa; 20]));
    assert_eq!(bid.header.gas_limit, 30_000_000);
    assert_eq!(queue.len(), 0);
    let mut expected = plain_bid();
    expected.header.fee_recipient = FixedBytes::new([0xaa; 20]);
    expected.header.gas_limit = 30_000_000;
    assert_eq!(bid, expected);
}

#[test]
fn operation_added_first_is_applied_last() {
    let mut queue = OperationQueue::new();
    queue.add(Operation::GasLimit(1));
    queue.add(Operation::GasLimit(2));
    queue.add(Operation::Value(5));
    queue.add(Operation::Value(6));
    let mut bid = plain_bid();
    assert!(queue.apply_all(&mut bid).is_ok());
    assert_eq!(bid.header.gas_limit, 1);
    assert_eq!(bid.value, U256::from_u64(5));
    assert_eq!(queue.len(), 0);
}

#[test]
fn queue_is_used_once() {
    let mut queue = OperationQueue::new();
    queue.add(Operation::GasLimit(1));
    let mut first = plain_bid();
    assert!(queue.apply_all(&mut first).is_ok());
    let mut second = plain_bid();
    assert!(queue.apply_all(&mut second).is_ok());
    assert_eq!(first.header.gas_limit, 1);
    assert_eq!(second, plain_bid());
}

#[test]
fn empty_queue_changes_nothing() {
    let mut queue = OperationQueue::new();
    let mut bid = plain_bid();
    assert!(queue.apply_all(&mut bid).is_ok());
    assert_eq!(bid, plain_bid());
    assert_eq!(queue.len(), 0);
}
