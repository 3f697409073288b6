//! One invocation of the contract, as the contract sees it: the storage it
//! reads and writes, and a journal of what it wants the host to do.
//!
//! The contract does not act on the ledger itself. It records each action in
//! the journal, in order, and the host carries the journal out; when an action
//! fails there (an address has not authorized the call, a code hash is
//! unknown), the host ends the whole invocation and nothing of it remains.

use vstd::prelude::*;

use crate::event::Event;
use crate::storage::{Slot, Storage};
use crate::types::Address;

verus! {

/// An action for the host to carry out.
#[derive(Debug, PartialEq, Eq)]
pub enum Effect<Id> {
    /// End the invocation unless the address has authorized it.
    RequireAuth(Address),
    /// Store a value.
    Write(Slot),
    /// Extend the time to live of instance storage to `extend_to` ledgers if
    /// fewer than `threshold` are left.
    ExtendInstanceTtl { threshold: u32, extend_to: u32 },
    /// Publish an event.
    Publish(Event<Id>),
    /// Replace the contract code by the uploaded code with this hash.
    UpdateWasm([u8; 32]),
}

impl View for Effect<Vec<u8>> {
    type V = Effect<Seq<u8>>;

    open spec fn view(&self) -> Effect<Seq<u8>> {
        match *self {
            Effect::RequireAuth(address) => Effect::RequireAuth(address),
            Effect::Write(slot) => Effect::Write(slot),
            Effect::ExtendInstanceTtl { threshold, extend_to } => Effect::ExtendInstanceTtl {
                threshold,
                extend_to,
            },
            Effect::Publish(event) => Effect::Publish(event@),
            Effect::UpdateWasm(hash) => Effect::UpdateWasm(hash),
        }
    }
}

/// A journal as contracts speak of it.
pub open spec fn journal_view(journal: Seq<Effect<Vec<u8>>>) -> Seq<Effect<Seq<u8>>> {
    journal.map_values(|e: Effect<Vec<u8>>| e@)
}

/// An invocation in progress.
#[derive(Debug, PartialEq, Eq)]
pub struct Invocation {
    contract: Address,
    storage: Storage,
    journal: Vec<Effect<Vec<u8>>>,
}

/// The mathematical state of an [`Invocation`].
pub struct InvocationView {
    /// The address of the contract itself.
    pub contract: Address,
    /// The contract's storage, all writes so far included.
    pub storage: Storage,
    /// The actions recorded and not yet handed to the host.
    pub journal: Seq<Effect<Seq<u8>>>,
}

impl InvocationView {
    /// This state with one more action recorded.
    pub open spec fn record(self, effect: Effect<Seq<u8>>) -> InvocationView {
        InvocationView { journal: self.journal.push(effect), ..self }
    }

    /// This state with one more value stored.
    pub open spec fn store(self, slot: Slot) -> InvocationView {
        InvocationView {
            storage: self.storage.with(slot),
            ..self.record(Effect::Write(slot))
        }
    }
}

impl View for Invocation {
    type V = InvocationView;

    closed spec fn view(&self) -> InvocationView {
        InvocationView {
            contract: self.contract,
            storage: self.storage,
            journal: journal_view(self.journal@),
        }
    }
}

impl Invocation {
    /// Starts an invocation of the contract at `contract`, whose storage is
    /// `storage`.
    pub fn new(contract: Address, storage: Storage) -> (invocation: Invocation)
        ensures
            invocation@.contract == contract,
            invocation@.storage == storage,
            invocation@.journal == Seq::<Effect<Seq<u8>>>::empty(),
    {
        let invocation = Invocation { contract, storage, journal: Vec::new() };
        assert(invocation@.journal =~= Seq::<Effect<Seq<u8>>>::empty());
        invocation
    }

    /// Returns the address of the contract itself.
    pub fn contract(&self) -> (contract: Address)
        ensures
            contract == self@.contract,
    {
        self.contract
    }

    /// Returns the contract's storage, all writes so far included.
    pub fn storage(&self) -> (storage: Storage)
        ensures
            storage == self@.storage,
    {
        self.storage
    }

    /// Hands over the actions recorded so far and empties the journal.
    pub fn take_effects(&mut self) -> (effects: Vec<Effect<Vec<u8>>>)
        ensures
            journal_view(effects@) == old(self)@.journal,
            final(self)@ == (InvocationView { journal: Seq::empty(), ..old(self)@ }),
    {
        let mut effects: Vec<Effect<Vec<u8>>> = Vec::new();
        std::mem::swap(&mut effects, &mut self.journal);
        assert(self@.journal =~= Seq::<Effect<Seq<u8>>>::empty());
        effects
    }

    /// Records an action.
    fn record(&mut self, effect: Effect<Vec<u8>>)
        ensures
            final(self)@ == old(self)@.record(effect@),
    {
        self.journal.push(effect);
        assert(self@.journal =~= old(self)@.journal.push(effect@));
    }

    /// Asks for the authorization of an address.
    pub(crate) fn require_auth(&mut self, address: Address)
        ensures
            final(self)@ == old(self)@.record(Effect::RequireAuth(address)),
    {
        self.record(Effect::RequireAuth(address));
    }

    /// Writes to storage.
    pub(crate) fn write(&mut self, slot: Slot)
        ensures
            final(self)@ == old(self)@.store(slot),
    {
        self.storage.write(slot);
        self.record(Effect::Write(slot));
    }

    /// Asks for an extension of the time to live of instance storage.
    pub(crate) fn extend_ttl(&mut self, threshold: u32, extend_to: u32)
        ensures
            final(self)@ == old(self)@.record(Effect::ExtendInstanceTtl { threshold, extend_to }),
    {
        self.record(Effect::ExtendInstanceTtl { threshold, extend_to });
    }

    /// Publishes an event.
    pub(crate) fn publish(&mut self, event: Event<Vec<u8>>)
        ensures
            final(self)@ == old(self)@.record(Effect::Publish(event@)),
    {
        self.record(Effect::Publish(event));
    }

    /// Asks for the replacement of the contract code.
    pub(crate) fn update_wasm(&mut self, hash: [u8; 32])
        ensures
            final(self)@ == old(self)@.record(Effect::UpdateWasm(hash)),
    {
        self.record(Effect::UpdateWasm(hash));
    }
}

} // verus!
