//! The events the contract publishes, and their layout on the ledger.
//!
//! Order identifiers are byte strings, so the types here have a parameter for
//! them: `Vec<u8>` in executable code, `Seq<u8>` in contracts.

use vstd::prelude::*;

use crate::types::{Address, Asset};

verus! {

/// A contract event.
#[derive(Debug, PartialEq, Eq)]
pub enum Event<Id> {
    /// The contract was initialized.
    Init { admin: Address, treasury: Address, usdc_contract: Address, xlm_contract: Address },
    /// A payment was forwarded to the treasury.
    Payment { asset: Asset, order_id: Id, from: Address, amount: i128 },
    /// Payments were halted.
    Paused { caller: Address },
    /// Payments were resumed.
    Unpaused { admin: Address },
    /// The contract code was replaced.
    Upgraded { admin: Address, new_wasm_hash: [u8; 32] },
    /// Administrative control changed hands.
    AdminTransferred { old_admin: Address, new_admin: Address },
}

impl View for Event<Vec<u8>> {
    type V = Event<Seq<u8>>;

    open spec fn view(&self) -> Event<Seq<u8>> {
        match *self {
            Event::Init { admin, treasury, usdc_contract, xlm_contract } => Event::Init {
                admin,
                treasury,
                usdc_contract,
                xlm_contract,
            },
            Event::Payment { asset, order_id, from, amount } => Event::Payment {
                asset,
                order_id: order_id@,
                from,
                amount,
            },
            Event::Paused { caller } => Event::Paused { caller },
            Event::Unpaused { admin } => Event::Unpaused { admin },
            Event::Upgraded { admin, new_wasm_hash } => Event::Upgraded { admin, new_wasm_hash },
            Event::AdminTransferred { old_admin, new_admin } => Event::AdminTransferred {
                old_admin,
                new_admin,
            },
        }
    }
}

/// One topic of a published event.
#[derive(Debug, PartialEq, Eq)]
pub enum Topic<Name, Id> {
    Symbol(Name),
    Bytes(Id),
    Address(Address),
}

impl View for Topic<&'static str, Vec<u8>> {
    type V = Topic<Seq<char>, Seq<u8>>;

    open spec fn view(&self) -> Topic<Seq<char>, Seq<u8>> {
        match *self {
            Topic::Symbol(name) => Topic::Symbol(name@),
            Topic::Bytes(id) => Topic::Bytes(id@),
            Topic::Address(address) => Topic::Address(address),
        }
    }
}

/// The value of a published event.
#[derive(Clone, Copy, Debug, PartialEq, Eq)]
pub enum Payload {
    Addresses(Address, Address, Address),
    Amount(i128),
    Flag(bool),
    Hash([u8; 32]),
    Unit,
}

impl<Id> Event<Id> {
    /// The symbol under which the event is published: its first topic.
    pub open spec fn symbol(self) -> Seq<char> {
        match self {
            Event::Init { .. } => "init"@,
            Event::Payment { asset: Asset::Usdc, .. } => "pay_usdc"@,
            Event::Payment { asset: Asset::Xlm, .. } => "pay_xlm"@,
            Event::Paused { .. } => "paused"@,
            Event::Unpaused { .. } => "unpaused"@,
            Event::Upgraded { .. } => "upgraded"@,
            Event::AdminTransferred { .. } => "admin_transferred"@,
        }
    }

    /// The topics of the event, in order.
    pub open spec fn topics(self) -> Seq<Topic<Seq<char>, Id>> {
        let symbol = Topic::Symbol(self.symbol());
        match self {
            Event::Init { admin, .. } => seq![symbol, Topic::Address(admin)],
            Event::Payment { order_id, from, .. } => seq![
                symbol,
                Topic::Bytes(order_id),
                Topic::Address(from),
            ],
            Event::Paused { caller } => seq![symbol, Topic::Address(caller)],
            Event::Unpaused { admin } => seq![symbol, Topic::Address(admin)],
            Event::Upgraded { admin, .. } => seq![symbol, Topic::Address(admin)],
            Event::AdminTransferred { old_admin, new_admin } => seq![
                symbol,
                Topic::Address(old_admin),
                Topic::Address(new_admin),
            ],
        }
    }

    /// The value of the event.
    pub open spec fn payload(self) -> Payload {
        match self {
            Event::Init { treasury, usdc_contract, xlm_contract, .. } => Payload::Addresses(
                treasury,
                usdc_contract,
                xlm_contract,
            ),
            Event::Payment { amount, .. } => Payload::Amount(amount),
            Event::Paused { .. } => Payload::Flag(true),
            Event::Unpaused { .. } => Payload::Flag(false),
            Event::Upgraded { new_wasm_hash, .. } => Payload::Hash(new_wasm_hash),
            Event::AdminTransferred { .. } => Payload::Unit,
        }
    }
}

impl Event<Vec<u8>> {
    /// Returns the symbol under which the event is published.
    pub fn name(&self) -> (name: &'static str)
        ensures
            name@ == self@.symbol(),
    {
        match self {
            Event::Init { .. } => "init",
            Event::Payment { asset: Asset::Usdc, .. } => "pay_usdc",
            Event::Payment { asset: Asset::Xlm, .. } => "pay_xlm",
            Event::Paused { .. } => "paused",
            Event::Unpaused { .. } => "unpaused",
            Event::Upgraded { .. } => "upgraded",
            Event::AdminTransferred { .. } => "admin_transferred",
        }
    }

    /// Lays the event out as the topics and the value to publish.
    pub fn into_parts(self) -> (parts: (Vec<Topic<&'static str, Vec<u8>>>, Payload))
        ensures
            parts.0@.map_values(|t: Topic<&'static str, Vec<u8>>| t@) == self@.topics(),
            parts.1 == self@.payload(),
    {
        let mut topics: Vec<Topic<&'static str, Vec<u8>>> = Vec::new();
        topics.push(Topic::Symbol(self.name()));
        let payload = match self {
            Event::Init { admin, treasury, usdc_contract, xlm_contract } => {
                topics.push(Topic::Address(admin));
                Payload::Addresses(treasury, usdc_contract, xlm_contract)
            },
            Event::Payment { asset: _, order_id, from, amount } => {
                topics.push(Topic::Bytes(order_id));
                topics.push(Topic::Address(from));
                Payload::Amount(amount)
            },
            Event::Paused { caller } => {
                topics.push(Topic::Address(caller));
                Payload::Flag(true)
            },
            Event::Unpaused { admin } => {
                topics.push(Topic::Address(admin));
                Payload::Flag(false)
            },
            Event::Upgraded { admin, new_wasm_hash } => {
                topics.push(Topic::Address(admin));
                Payload::Hash(new_wasm_hash)
            },
            Event::AdminTransferred { old_admin, new_admin } => {
                topics.push(Topic::Address(old_admin));
                topics.push(Topic::Address(new_admin));
                Payload::Unit
            },
        };
        assert(topics@.map_values(|t: Topic<&'static str, Vec<u8>>| t@) =~= self@.topics());
        (topics, payload)
    }
}

} // verus!
