//! Mutations that a test queues up, to be applied to the next bid before it
//! is signed.

use crate::bytes::{Address, U256};
use crate::codec::{lemma_to_ssz_rs_identity, to_ssz_rs};
use crate::error::BuilderError;
use crate::messages::{BuilderBid, ExecutionPayloadHeader};
use vstd::prelude::*;

verus! {

/// One mutation of a bid.
#[derive(Clone, Copy, Debug)]
pub enum Operation {
    /// Sets the fee recipient of the bid's header.
    FeeRecipient(Address),
    /// Sets the gas limit of the bid's header.
    GasLimit(usize),
    /// Sets the value of the bid.
    Value(usize),
}

impl Operation {
    /// The bid after the operation.
    pub open spec fn applied(self, bid: BuilderBid) -> BuilderBid {
        match self {
            Operation::FeeRecipient(fee_recipient) => BuilderBid {
                header: ExecutionPayloadHeader { fee_recipient, ..bid.header },
                ..bid
            },
            Operation::GasLimit(gas_limit) => BuilderBid {
                header: ExecutionPayloadHeader { gas_limit: gas_limit as u64, ..bid.header },
                ..bid
            },
            Operation::Value(value) => BuilderBid {
                value: U256::spec_from_u64(value as u64),
                ..bid
            },
        }
    }

    /// Applies the operation to a bid. The address and the value cross from
    /// the chain-side codec to the builder-side one, which no address and no
    /// value fails to do.
    pub fn apply(self, bid: &mut BuilderBid) -> (r: Result<(), BuilderError>)
        ensures
            r is Ok,
            *final(bid) == self.applied(*old(bid)),
    {
        match self {
            Operation::FeeRecipient(fee_recipient) => {
                let carried = to_ssz_rs::<Address, Address>(&fee_recipient);
                proof {
                    lemma_to_ssz_rs_identity(fee_recipient, carried);
                }
                match carried {
                    Ok(address) => {
                        bid.header.fee_recipient = address;
                    },
                    Err(e) => {
                        return Err(e);
                    },
                }
            },
            Operation::GasLimit(gas_limit) => {
                bid.header.gas_limit = gas_limit as u64;
            },
            Operation::Value(value) => {
                let chain_value = U256::from_u64(value as u64);
                let carried = to_ssz_rs::<U256, U256>(&chain_value);
                proof {
                    lemma_to_ssz_rs_identity(chain_value, carried);
                }
                match carried {
                    Ok(builder_value) => {
                        bid.value = builder_value;
                    },
                    Err(e) => {
                        return Err(e);
                    },
                }
            },
        }
        Ok(())
    }
}

/// The bid after a queue of operations has been applied to it: the operation
/// added last is applied first, the one added first is applied last.
pub open spec fn applied_all(ops: Seq<Operation>, bid: BuilderBid) -> BuilderBid
    decreases ops.len(),
{
    if ops.len() == 0 {
        bid
    } else {
        applied_all(ops.drop_last(), ops.last().applied(bid))
    }
}

/// Whether a queue holds an operation on the gas limit.
pub open spec fn sets_gas_limit(ops: Seq<Operation>) -> bool {
    exists|i: int| 0 <= i < ops.len() && #[trigger] ops[i] is GasLimit
}

/// Operations that do not touch the gas limit leave it as it was.
pub proof fn lemma_gas_limit_kept(ops: Seq<Operation>, bid: BuilderBid)
    requires
        !sets_gas_limit(ops),
    ensures
        applied_all(ops, bid).header.gas_limit == bid.header.gas_limit,
    decreases ops.len(),
{
    if ops.len() > 0 {
        assert(!(ops[ops.len() - 1] is GasLimit));
        assert forall|i: int| 0 <= i < ops.drop_last().len() implies !(
        #[trigger] ops.drop_last()[i] is GasLimit) by {
            assert(!(ops[i] is GasLimit));
        }
        lemma_gas_limit_kept(ops.drop_last(), ops.last().applied(bid));
    }
}

/// A gas limit queued before a fee recipient: both are set in the bid, the
/// fee recipient first, and nothing else changes.
pub proof fn lemma_gas_limit_then_fee_recipient(
    gas_limit: usize,
    fee_recipient: Address,
    bid: BuilderBid,
)
    ensures
        applied_all(
            seq![Operation::GasLimit(gas_limit), Operation::FeeRecipient(fee_recipient)],
            bid,
        ) == Operation::GasLimit(gas_limit).applied(
            Operation::FeeRecipient(fee_recipient).applied(bid),
        ),
        applied_all(
            seq![Operation::GasLimit(gas_limit), Operation::FeeRecipient(fee_recipient)],
            bid,
        ) == (BuilderBid {
            header: ExecutionPayloadHeader {
                fee_recipient,
                gas_limit: gas_limit as u64,
                ..bid.header
            },
            ..bid
        }),
{
    let ops = seq![Operation::GasLimit(gas_limit), Operation::FeeRecipient(fee_recipient)];
    assert(ops.drop_last() =~= seq![Operation::GasLimit(gas_limit)]);
    assert(ops.drop_last().drop_last() =~= Seq::<Operation>::empty());
    reveal_with_fuel(applied_all, 3);
}

/// The operations that wait for the next bid.
pub struct OperationQueue {
    ops: Vec<Operation>,
}

impl View for OperationQueue {
    type V = Seq<Operation>;

    closed spec fn view(&self) -> Seq<Operation> {
        self.ops@
    }
}

impl OperationQueue {
    /// An empty queue.
    pub fn new() -> (out: Self)
        ensures
            out@ == Seq::<Operation>::empty(),
    {
        OperationQueue { ops: Vec::new() }
    }

    /// The number of operations that wait.
    pub fn len(&self) -> (n: usize)
        ensures
            n == self@.len(),
    {
        self.ops.len()
    }

    /// Adds an operation at the tail.
    pub fn add(&mut self, op: Operation)
        ensures
            final(self)@ == old(self)@.push(op),
    {
        self.ops.push(op);
    }

    /// Applies every operation to the bid, the tail-most first, and leaves
    /// the queue empty. Should an operation fail, its error is returned and
    /// the operations that were still waiting are dropped with it.
    pub fn apply_all(&mut self, bid: &mut BuilderBid) -> (r: Result<(), BuilderError>)
        ensures
            r is Ok,
            final(self)@ == Seq::<Operation>::empty(),
            *final(bid) == applied_all(old(self)@, *old(bid)),
    {
        loop
            invariant
                applied_all(self.ops@, *bid) == applied_all(old(self).ops@, *old(bid)),
            ensures
                self.ops@.len() == 0,
                applied_all(self.ops@, *bid) == applied_all(old(self).ops@, *old(bid)),
            decreases self.ops@.len(),
        {
            let ghost before = self.ops@;
            match self.ops.pop() {
                None => {
                    break ;
                },
                Some(op) => {
                    assert(self.ops@ =~= before.drop_last());
                    assert(op == before.last());
                    match op.apply(bid) {
                        Ok(()) => {},
                        Err(e) => {
                            self.ops.clear();
                            return Err(e);
                        },
                    }
                },
            }
        }
        Ok(())
    }
}

} // verus!
