//! The builder: its registrations, its waiting operations, and the three
//! requests that it serves.

use crate::bid::{
    bid_start, bid_step, bid_step_in_range, bid_transition, BidAction, BidEvent, BidState,
};
use crate::bytes::{Hash32, PublicKey};
use crate::chain::{ChainSpec, Context};
use crate::error::BuilderError;
use crate::messages::{
    BidRequest, BuilderBid, CheckedRegistration, SignedValidatorRegistration, ValidatorRegistration,
};
use crate::operation::{applied_all, Operation, OperationQueue};
use crate::registration::{registered, stops_at, RegistrationCache};
use crate::unblind::{open_payload, opened, payload_key, CachedPayload};
use vstd::prelude::*;

verus! {

/// A builder for tests.
pub struct MockBuilder {
    spec: ChainSpec,
    context: Context,
    builder_public_key: PublicKey,
    val_registration_cache: RegistrationCache,
    operations: OperationQueue,
}

impl MockBuilder {
    /// The cache of registrations holds each public key once.
    pub closed spec fn wf(&self) -> bool {
        self.val_registration_cache.wf()
    }

    /// The parameters of the chain.
    pub closed spec fn spec(&self) -> ChainSpec {
        self.spec
    }

    /// The context in which the builder's messages are signed.
    pub closed spec fn context(&self) -> Context {
        self.context
    }

    /// The public key under which the builder offers its bids.
    pub closed spec fn builder_public_key(&self) -> PublicKey {
        self.builder_public_key
    }

    /// The registrations that are stored, by public key.
    pub closed spec fn registrations(&self) -> Map<PublicKey, SignedValidatorRegistration> {
        self.val_registration_cache@
    }

    /// The operations that wait for the next bid, in the order in which they
    /// were added.
    pub closed spec fn operations(&self) -> Seq<Operation> {
        self.operations@
    }

    /// What a proposer has registered, if anything.
    pub open spec fn registration_of(&self, public_key: PublicKey) -> Option<
        ValidatorRegistration,
    > {
        if self.registrations().dom().contains(public_key) {
            Some(self.registrations()[public_key].message)
        } else {
            None
        }
    }

    /// A builder with this key, without registrations or waiting operations.
    pub fn new(spec: ChainSpec, context: Context, builder_public_key: PublicKey) -> (out: Self)
        ensures
            out.wf(),
            out.spec() == spec,
            out.context() == context,
            out.builder_public_key() == builder_public_key,
            out.registrations() == Map::<PublicKey, SignedValidatorRegistration>::empty(),
            out.operations() == Seq::<Operation>::empty(),
    {
        MockBuilder {
            spec,
            context,
            builder_public_key,
            val_registration_cache: RegistrationCache::new(),
            operations: OperationQueue::new(),
        }
    }

    /// The parameters of the chain.
    pub fn chain_spec(&self) -> (out: ChainSpec)
        ensures
            out == self.spec(),
    {
        self.spec
    }

    /// The context in which the builder's messages are signed.
    pub fn signing_context(&self) -> (out: Context)
        ensures
            out == self.context(),
    {
        self.context
    }

    /// The public key under which the builder offers its bids.
    pub fn public_key(&self) -> (out: PublicKey)
        ensures
            out == self.builder_public_key(),
    {
        self.builder_public_key
    }

    /// Adds an operation behind those that wait.
    pub fn add_operation(&mut self, op: Operation)
        ensures
            final(self).operations() == old(self).operations().push(op),
            final(self).registrations() == old(self).registrations(),
            final(self).spec() == old(self).spec(),
            final(self).context() == old(self).context(),
            final(self).builder_public_key() == old(self).builder_public_key(),
            final(self).wf() == old(self).wf(),
    {
        self.operations.add(op);
    }

    /// Applies the waiting operations to a bid, the one added last first,
    /// and leaves none waiting.
    pub fn apply_operations(&mut self, bid: &mut BuilderBid) -> (r: Result<(), BuilderError>)
        ensures
            r is Ok,
            *final(bid) == applied_all(old(self).operations(), *old(bid)),
            final(self).operations() == Seq::<Operation>::empty(),
            final(self).registrations() == old(self).registrations(),
            final(self).spec() == old(self).spec(),
            final(self).context() == old(self).context(),
            final(self).builder_public_key() == old(self).builder_public_key(),
            final(self).wf() == old(self).wf(),
    {
        self.operations.apply_all(bid)
    }

    /// Stores the registrations of a batch, in order, up to the first whose
    /// signature does not verify; that one fails the call, and those in front
    /// of it stay stored.
    pub fn register_validator(&mut self, registrations: &[CheckedRegistration]) -> (r: Result<
        (),
        BuilderError,
    >)
        requires
            old(self).wf(),
        ensures
            final(self).wf(),
            match r {
                Ok(()) => stops_at(registrations@, registrations@.len() as int)
                    && final(self).registrations() == registered(
                    old(self).registrations(),
                    registrations@,
                    registrations@.len() as int,
                ),
                Err(e) => e matches BuilderError::SignatureInvalid { index } && index
                    < registrations@.len() && stops_at(registrations@, index as int)
                    && final(self).registrations() == registered(
                    old(self).registrations(),
                    registrations@,
                    index as int,
                ),
            },
            final(self).operations() == old(self).operations(),
            final(self).spec() == old(self).spec(),
            final(self).context() == old(self).context(),
            final(self).builder_public_key() == old(self).builder_public_key(),
    {
        self.val_registration_cache.register(registrations)
    }

    /// The registration that is stored for a public key.
    pub fn lookup(&self, public_key: &PublicKey) -> (found: Option<SignedValidatorRegistration>)
        requires
            self.wf(),
        ensures
            found is Some <==> self.registrations().dom().contains(*public_key),
            found matches Some(registration) ==> registration == self.registrations()[*public_key]
                && registration.message.public_key == *public_key,
    {
        self.val_registration_cache.lookup(public_key)
    }

    /// Begins a request for a bid. Without a registration of the proposer the
    /// request ends here, before anything is asked of the beacon node or the
    /// execution engine; with one, the head block is asked for.
    pub fn fetch_best_bid(&self, bid_request: &BidRequest) -> (out: (BidState, BidAction))
        requires
            self.wf(),
        ensures
            out.0 == bid_start(
                self.registration_of(bid_request.public_key),
                *bid_request,
                self.operations(),
            ).state,
            out.1 == bid_start(
                self.registration_of(bid_request.public_key),
                *bid_request,
                self.operations(),
            ).action,
            self.registration_of(bid_request.public_key) is None ==> out.0 is Finished && out.1
                == BidAction::Fail(
                BuilderError::MissingRegistration { public_key: bid_request.public_key },
            ),
    {
        match self.val_registration_cache.lookup(&bid_request.public_key) {
            None => (
                BidState::Finished,
                BidAction::Fail(
                    BuilderError::MissingRegistration { public_key: bid_request.public_key },
                ),
            ),
            Some(signed) => (
                BidState::AwaitingHeadBlock {
                    request: *bid_request,
                    registration: signed.message,
                },
                BidAction::QueryHeadBlock,
            ),
        }
    }

    /// Takes a request for a bid one step further, with the answer to its
    /// pending query.
    pub fn advance_bid(&mut self, state: BidState, event: BidEvent) -> (out: (BidState, BidAction))
        requires
            bid_step_in_range(old(self).spec(), state, event),
        ensures
            out.0 == bid_transition(
                old(self).spec(),
                old(self).builder_public_key(),
                old(self).operations(),
                state,
                event,
            ).state,
            out.1 == bid_transition(
                old(self).spec(),
                old(self).builder_public_key(),
                old(self).operations(),
                state,
                event,
            ).action,
            final(self).operations() == bid_transition(
                old(self).spec(),
                old(self).builder_public_key(),
                old(self).operations(),
                state,
                event,
            ).operations,
            final(self).registrations() == old(self).registrations(),
            final(self).spec() == old(self).spec(),
            final(self).context() == old(self).context(),
            final(self).builder_public_key() == old(self).builder_public_key(),
            final(self).wf() == old(self).wf(),
    {
        bid_step(&self.spec, &self.builder_public_key, &mut self.operations, state, event)
    }

    /// Begins the opening of a blinded block: says under which key the
    /// execution engine holds the payload of the header with this root.
    pub fn open_bid(&self, header_root: &Hash32) -> (r: Result<Hash32, BuilderError>)
        ensures
            r == Ok::<Hash32, BuilderError>(*header_root),
    {
        payload_key(header_root)
    }

    /// Ends the opening of a blinded block, with what the execution engine
    /// holds for the root of its header.
    pub fn finish_open_bid<P>(&self, header_root: Hash32, cached: CachedPayload<P>) -> (r: Result<
        P,
        BuilderError,
    >)
        ensures
            r == opened(header_root, cached),
    {
        open_payload(header_root, cached)
    }
}

} // verus!
