//! What each call promises, one kind of action at a time: who has to authorize,
//! what is written, what is published, when code is replaced, when the time to
//! live is extended, what storage is left and how the call ends.
//!
//! Every law here is an equivalence over all inputs. What a call does beyond
//! its promise is as much a breach as what it fails to do.

use vstd::prelude::*;

use crate::event::{Event, Payload, Topic};
use crate::invocation::Effect;
use crate::laws::{react, Call};
use crate::model;
use crate::progress::{Config, Payment, Pending, Progress, TokenCall};
use crate::storage::{Slot, Storage};
use crate::types::{Abort, Address, Asset, DataKey, Error};

verus! {

/// The slot that holds the token contract of an asset.
pub open spec fn token_slot(storage: Storage, asset: Asset) -> Option<Address> {
    match asset {
        Asset::Usdc => storage.usdc_contract,
        Asset::Xlm => storage.xlm_contract,
    }
}

/// Whether a payment gets as far as the payer's authorization.
pub open spec fn taken_up(storage: Storage, amount: i128) -> bool {
    storage.paused != Some(true) && amount > 0
}

/// Whether a payment gets as far as its transfer.
pub open spec fn sent(storage: Storage, asset: Asset, amount: i128) -> bool {
    &&& taken_up(storage, amount)
    &&& storage.treasury is Some
    &&& token_slot(storage, asset) is Some
    &&& storage.reentrancy_guard != Some(true)
}

/// A call that aborted.
pub open spec fn aborted(abort: Abort) -> Progress<Seq<u8>> {
    Progress::Aborted(abort)
}

/// A call that waits.
pub open spec fn waiting(pending: Pending<Seq<u8>>) -> Progress<Seq<u8>> {
    Progress::Waiting(pending)
}

/// A call that returned.
pub open spec fn returned(result: Result<(), Error>) -> Progress<Seq<u8>> {
    Progress::Returned(result)
}

/// A sequence holds what stands at each of its positions.
proof fn lemma_holds_its_actions(effects: Seq<Effect<Seq<u8>>>)
    ensures
        effects.len() > 0 ==> effects.contains(effects[0]),
        effects.len() > 1 ==> effects.contains(effects[1]),
        effects.len() > 2 ==> effects.contains(effects[2]),
        effects.len() > 3 ==> effects.contains(effects[3]),
        effects.len() > 4 ==> effects.contains(effects[4]),
        effects.len() > 5 ==> effects.contains(effects[5]),
        effects.len() > 6 ==> effects.contains(effects[6]),
{
}

// ---- actions ----

/// Who has to authorize a call, and nobody else has to: the admin-to-be for
/// `init`, the payer for a payment that is taken up, the caller for `pause`, the
/// stored admin for `unpause` and `upgrade`, both admins for a handover. A call
/// that goes on after a token call asks nobody.
pub proof fn law_who_has_to_authorize(
    storage: Storage,
    contract: Address,
    call: Call,
    who: Address,
)
    ensures
        react(storage, contract, call).effects.contains(Effect::RequireAuth(who)) <==> match call {
            Call::Init(config) => who == config.admin,
            Call::Pay { asset: _, from, amount, order_id: _ } => taken_up(storage, amount) && who
                == from,
            Call::Pause(caller) => who == caller,
            Call::Unpause => storage.admin == Some(who),
            Call::Upgrade(_) => storage.admin == Some(who),
            Call::TransferAdmin(new_admin) => storage.admin is Some && (storage.admin == Some(who)
                || who == new_admin),
            Call::Resume(_, _) => false,
        },
{
    lemma_holds_its_actions(react(storage, contract, call).effects);
}

/// What a call writes, and nothing else.
pub proof fn law_what_is_written(storage: Storage, contract: Address, call: Call, slot: Slot)
    ensures
        react(storage, contract, call).effects.contains(Effect::Write(slot)) <==> match call {
            Call::Init(_) => false,
            Call::Pay { asset, from: _, amount, order_id: _ } => sent(storage, asset, amount)
                && slot == Slot::ReentrancyGuard(true),
            Call::Pause(caller) => storage.admin == Some(caller) && storage.paused != Some(true)
                && slot == Slot::Paused(true),
            Call::Unpause => storage.admin is Some && storage.paused == Some(true) && slot
                == Slot::Paused(false),
            Call::Upgrade(_) => false,
            Call::TransferAdmin(new_admin) => storage.admin is Some && slot == Slot::Admin(
                new_admin,
            ),
            Call::Resume(Pending::UsdcProbe(_), _) => false,
            Call::Resume(Pending::XlmProbe(config), succeeded) => succeeded && (slot == Slot::Admin(
                config.admin,
            ) || slot == Slot::Treasury(config.treasury) || slot == Slot::UsdcContract(
                config.usdc_contract,
            ) || slot == Slot::XlmContract(config.xlm_contract) || slot == Slot::Paused(false)),
            Call::Resume(Pending::Transfer(_), _) => slot == Slot::ReentrancyGuard(false),
        },
{
    lemma_holds_its_actions(react(storage, contract, call).effects);
}

/// What a call publishes, and nothing else.
pub proof fn law_what_is_published(
    storage: Storage,
    contract: Address,
    call: Call,
    event: Event<Seq<u8>>,
)
    ensures
        react(storage, contract, call).effects.contains(Effect::Publish(event)) <==> match call {
            Call::Init(_) => false,
            Call::Pay { .. } => false,
            Call::Pause(caller) => storage.admin == Some(caller) && storage.paused != Some(true)
                && event == (Event::<Seq<u8>>::Paused { caller }),
            Call::Unpause => storage.admin is Some && storage.paused == Some(true) && event == (
            Event::<Seq<u8>>::Unpaused { admin: storage.admin->0 }),
            Call::Upgrade(new_wasm_hash) => storage.admin is Some && event == (Event::<Seq<u8>>::Upgraded {
                admin: storage.admin->0,
                new_wasm_hash,
            }),
            Call::TransferAdmin(new_admin) => storage.admin is Some && storage.admin != Some(
                new_admin,
            ) && event == (Event::<Seq<u8>>::AdminTransferred { old_admin: storage.admin->0, new_admin }),
            Call::Resume(Pending::UsdcProbe(_), _) => false,
            Call::Resume(Pending::XlmProbe(config), succeeded) => succeeded && event == (
            Event::<Seq<u8>>::Init {
                admin: config.admin,
                treasury: config.treasury,
                usdc_contract: config.usdc_contract,
                xlm_contract: config.xlm_contract,
            }),
            Call::Resume(Pending::Transfer(payment), moved) => moved && event == (Event::Payment {
                asset: payment.asset,
                order_id: payment.order_id,
                from: payment.from,
                amount: payment.amount,
            }),
        },
{
    lemma_holds_its_actions(react(storage, contract, call).effects);
}

/// When code is replaced: by an upgrade of a contract that has an admin, by the
/// code with the hash that was given. No other call asks for it, and no other
/// hash is asked for.
pub proof fn law_when_code_is_replaced(
    storage: Storage,
    contract: Address,
    call: Call,
    hash: [u8; 32],
)
    ensures
        react(storage, contract, call).effects.contains(Effect::UpdateWasm(hash)) <==> call
            == Call::Upgrade(hash) && storage.admin is Some,
{
    lemma_holds_its_actions(react(storage, contract, call).effects);
}

/// When the time to live is extended: by every call that changes the
/// configuration or the pause flag, by every handover, and by every payment that
/// succeeded; always to 17280000 ledgers once fewer than half of them are left.
pub proof fn law_when_the_time_to_live_is_extended(
    storage: Storage,
    contract: Address,
    call: Call,
    threshold: u32,
    extend_to: u32,
)
    ensures
        react(storage, contract, call).effects.contains(
            Effect::ExtendInstanceTtl { threshold, extend_to },
        ) <==> extend_to == 17_280_000 && threshold == 8_640_000 && match call {
            Call::Init(_) => false,
            Call::Pay { .. } => false,
            Call::Pause(caller) => storage.admin == Some(caller) && storage.paused != Some(true),
            Call::Unpause => storage.admin is Some && storage.paused == Some(true),
            Call::Upgrade(_) => false,
            Call::TransferAdmin(_) => storage.admin is Some,
            Call::Resume(Pending::UsdcProbe(_), _) => false,
            Call::Resume(Pending::XlmProbe(_), succeeded) => succeeded,
            Call::Resume(Pending::Transfer(_), moved) => moved,
        },
{
    lemma_holds_its_actions(react(storage, contract, call).effects);
}

/// No action is asked for twice in a call. The one exception is a handover to
/// the admin in charge, who is asked to authorize in both roles; that call asks
/// for four actions, of which these are the first two.
pub proof fn law_no_action_is_repeated(storage: Storage, contract: Address, call: Call)
    ensures
        ({
            let effects = react(storage, contract, call).effects;
            if call is TransferAdmin && storage.admin == Some(call->TransferAdmin_0) {
                &&& effects.len() == 4
                &&& effects[0] is RequireAuth
                &&& effects[1] is RequireAuth
            } else {
                forall|i: int, j: int|
                    0 <= i < j < effects.len() ==> #[trigger] effects[i] != #[trigger] effects[j]
            }
        }),
{
}

/// Actions come in order: authorizations before anything else, the current admin
/// before the new one; writes before the extension that covers them and before
/// the event that announces them; the new code before the event that announces
/// it.
pub proof fn law_order_of_actions(
    storage: Storage,
    contract: Address,
    call: Call,
    i: int,
    j: int,
)
    requires
        0 <= i < j < react(storage, contract, call).effects.len(),
    ensures
        ({
            let effects = react(storage, contract, call).effects;
            &&& effects[j] is RequireAuth ==> effects[i] is RequireAuth
            &&& call is TransferAdmin && effects[j] is RequireAuth ==> effects[i]
                == Effect::<Seq<u8>>::RequireAuth(storage.admin->0)
            &&& effects[i] is ExtendInstanceTtl ==> effects[j] is Publish
            &&& effects[i] is Publish ==> effects[j] is ExtendInstanceTtl && call is Resume
            &&& effects[i] is Write && effects[j] is Write ==> call is Resume
        }),
{
}

/// A payment ends with its extension, administration with its event.
pub proof fn law_last_action(storage: Storage, contract: Address, call: Call, event: Event<Seq<u8>>)
    requires
        react(storage, contract, call).effects.contains(Effect::Publish(event)),
    ensures
        ({
            let effects = react(storage, contract, call).effects;
            if event is Payment {
                effects.last() is ExtendInstanceTtl
            } else {
                effects.last() == Effect::Publish(event)
            }
        }),
{
}

/// `init` stores in a fixed order: admin, treasury, USDC contract, XLM contract,
/// pause flag.
pub proof fn law_init_stores_in_order(storage: Storage, contract: Address, config: Config, i: int)
    requires
        0 <= i < 5,
    ensures
        ({
            let effects = react(
                storage,
                contract,
                Call::Resume(Pending::XlmProbe(config), true),
            ).effects;
            &&& effects.len() == 7
            &&& effects[i] matches Effect::Write(slot) && match slot {
                Slot::Admin(_) => i == 0,
                Slot::Treasury(_) => i == 1,
                Slot::UsdcContract(_) => i == 2,
                Slot::XlmContract(_) => i == 3,
                Slot::Paused(_) => i == 4,
                Slot::ReentrancyGuard(_) => false,
            }
        }),
{
}

// ---- storage and results ----

/// What storage a call leaves, slot by slot.
pub proof fn law_what_storage_is_left(storage: Storage, contract: Address, call: Call)
    ensures
        react(storage, contract, call).storage == match call {
            Call::Init(_) => storage,
            Call::Pay { asset, from: _, amount, order_id: _ } => if sent(storage, asset, amount) {
                Storage { reentrancy_guard: Some(true), ..storage }
            } else {
                storage
            },
            Call::Pause(caller) => if storage.admin == Some(caller) {
                Storage { paused: Some(true), ..storage }
            } else {
                storage
            },
            Call::Unpause => if storage.admin is Some && storage.paused == Some(true) {
                Storage { paused: Some(false), ..storage }
            } else {
                storage
            },
            Call::Upgrade(_) => storage,
            Call::TransferAdmin(new_admin) => if storage.admin is Some {
                Storage { admin: Some(new_admin), ..storage }
            } else {
                storage
            },
            Call::Resume(Pending::UsdcProbe(_), _) => storage,
            Call::Resume(Pending::XlmProbe(config), succeeded) => if succeeded {
                Storage {
                    admin: Some(config.admin),
                    treasury: Some(config.treasury),
                    usdc_contract: Some(config.usdc_contract),
                    xlm_contract: Some(config.xlm_contract),
                    paused: Some(false),
                    reentrancy_guard: storage.reentrancy_guard,
                }
            } else {
                storage
            },
            Call::Resume(Pending::Transfer(_), _) => Storage {
                reentrancy_guard: Some(false),
                ..storage
            },
        },
{
}

/// Why `init` aborts. The reason given is true, and it is the first that is, in
/// this order; where none is, the USDC contract is probed.
pub proof fn law_how_init_begins(
    storage: Storage,
    contract: Address,
    admin: Address,
    treasury: Address,
    usdc_contract: Address,
    xlm_contract: Address,
)
    ensures
        ({
            let config = Config { admin, treasury, usdc_contract, xlm_contract };
            let result = model::init(storage, contract, config).result;
            let fresh = storage.admin is None;
            let outside_admin = fresh && admin != contract;
            let outside_treasury = outside_admin && treasury != contract;
            let roles_apart = outside_treasury && admin != treasury;
            let tokens_apart = roles_apart && usdc_contract != xlm_contract;
            let outside_usdc = tokens_apart && usdc_contract != contract;
            let outside_xlm = outside_usdc && xlm_contract != contract;
            let clear = outside_xlm && treasury != usdc_contract && treasury != xlm_contract;
            &&& result == aborted(Abort::AlreadyInitialized) <==> !fresh
            &&& result == aborted(Abort::AdminIsContract) <==> fresh && !outside_admin
            &&& result == aborted(Abort::TreasuryIsContract) <==> outside_admin
                && !outside_treasury
            &&& result == aborted(Abort::AdminIsTreasury) <==> outside_treasury && !roles_apart
            &&& result == aborted(Abort::SameTokenContracts) <==> roles_apart && !tokens_apart
            &&& result == aborted(Abort::UsdcIsContract) <==> tokens_apart && !outside_usdc
            &&& result == aborted(Abort::XlmIsContract) <==> outside_usdc && !outside_xlm
            &&& result == aborted(Abort::TreasuryIsToken) <==> outside_xlm && !clear
            &&& result == waiting(Pending::UsdcProbe(config)) <==> clear
        }),
{
}

/// How a payment begins: refused while paused, then for its amount; aborted on a
/// contract without treasury or token contract, or while another payment waits;
/// else it waits for exactly one transfer, through the asset's token contract,
/// from the payer to the treasury, of the amount given, for the order given.
pub proof fn law_how_a_payment_begins(
    storage: Storage,
    asset: Asset,
    from: Address,
    amount: i128,
    order_id: Seq<u8>,
    payment: Payment<Seq<u8>>,
)
    ensures
        ({
            let result = model::pay(storage, asset, from, amount, order_id).result;
            let token = token_slot(storage, asset);
            let key = match asset {
                Asset::Usdc => DataKey::UsdcContract,
                Asset::Xlm => DataKey::XlmContract,
            };
            let asked = taken_up(storage, amount);
            let routed = asked && storage.treasury is Some && token is Some;
            &&& result == returned(Err(Error::ContractPaused)) <==> storage.paused == Some(true)
            &&& result == returned(Err(Error::InvalidAmount)) <==> storage.paused != Some(true)
                && amount <= 0
            &&& result == aborted(Abort::MissingSlot(DataKey::Treasury)) <==> asked
                && storage.treasury is None
            &&& result == aborted(Abort::MissingSlot(key)) <==> asked && storage.treasury is Some
                && token is None
            &&& result == aborted(Abort::ReentrancyDetected) <==> routed
                && storage.reentrancy_guard == Some(true)
            &&& result == waiting(Pending::Transfer(payment)) <==> {
                &&& routed
                &&& storage.reentrancy_guard != Some(true)
                &&& payment.asset == asset
                &&& Some(payment.token) == token
                &&& payment.from == from
                &&& Some(payment.to) == storage.treasury
                &&& payment.amount == amount
                &&& payment.order_id == order_id
            }
        }),
{
}

/// How a call ends once its token call is answered: a USDC probe that succeeds
/// leads to the XLM probe of the same configuration, an XLM probe that succeeds
/// to the end of `init`; a probe that fails aborts. A payment succeeds if and
/// only if its transfer did.
pub proof fn law_how_waiting_calls_go_on(
    storage: Storage,
    config: Config,
    payment: Payment<Seq<u8>>,
    succeeded: bool,
)
    ensures
        model::resume(storage, Pending::UsdcProbe(config), succeeded).result == if succeeded {
            waiting(Pending::XlmProbe(config))
        } else {
            aborted(Abort::UsdcNotToken)
        },
        model::resume(storage, Pending::XlmProbe(config), succeeded).result == if succeeded {
            returned(Ok(()))
        } else {
            aborted(Abort::XlmNotToken)
        },
        model::resume(storage, Pending::Transfer(payment), succeeded).result == if succeeded {
            returned(Ok(()))
        } else {
            returned(Err(Error::TransferFailed))
        },
{
}

/// How administration ends: it succeeds on a contract that has an admin, except
/// that `pause` is refused to anybody else; without an admin the missing slot is
/// reported.
pub proof fn law_how_administration_ends(
    storage: Storage,
    caller: Address,
    new_wasm_hash: [u8; 32],
    new_admin: Address,
)
    ensures
        ({
            let missing = Err::<(), Abort>(Abort::MissingSlot(DataKey::Admin));
            let done = Ok::<(), Abort>(());
            let refused = Err::<(), Abort>(Abort::PauseRequiresAdmin);
            &&& storage.admin is None ==> {
                &&& model::pause(storage, caller).result == missing
                &&& model::unpause(storage).result == missing
                &&& model::upgrade(storage, new_wasm_hash).result == missing
                &&& model::transfer_admin(storage, new_admin).result == missing
            }
            &&& storage.admin is Some ==> {
                &&& model::pause(storage, caller).result == if storage.admin == Some(caller) {
                    done
                } else {
                    refused
                }
                &&& model::unpause(storage).result == done
                &&& model::upgrade(storage, new_wasm_hash).result == done
                &&& model::transfer_admin(storage, new_admin).result == done
            }
        }),
{
}

// ---- payments, configuration and administration in full ----

/// A payment asks for the payer's authorization and for nobody else's, once, up
/// to the transfer; while settling it asks for none.
pub proof fn law_payments_ask_the_payer_alone(
    storage: Storage,
    asset: Asset,
    from: Address,
    amount: i128,
    order_id: Seq<u8>,
    later: Storage,
    payment: Payment<Seq<u8>>,
    moved: bool,
    i: int,
    j: int,
)
    ensures
        ({
            let begun = model::pay(storage, asset, from, amount, order_id).effects;
            let settled = model::resume(later, Pending::Transfer(payment), moved).effects;
            &&& 0 <= i < begun.len() && begun[i] is RequireAuth ==> i == 0 && begun[i]
                == Effect::<Seq<u8>>::RequireAuth(from)
            &&& taken_up(storage, amount) ==> begun.len() > 0 && begun[0] == Effect::<
                Seq<u8>,
            >::RequireAuth(from)
            &&& 0 <= j < settled.len() ==> settled[j] !is RequireAuth
        }),
{
}

/// The event of a payment carries the payment: asset by its symbol, order and
/// payer as topics, and as value the amount itself.
pub proof fn law_payment_events_carry_the_payment(
    asset: Asset,
    order_id: Seq<u8>,
    from: Address,
    amount: i128,
)
    ensures
        ({
            let event = Event::Payment { asset, order_id, from, amount };
            &&& event.payload() == Payload::Amount(amount)
            &&& event.topics().len() == 3
            &&& event.topics()[0] == Topic::<Seq<char>, Seq<u8>>::Symbol(
                if asset == Asset::Usdc {
                    "pay_usdc"@
                } else {
                    "pay_xlm"@
                },
            )
            &&& event.topics()[1] == Topic::<Seq<char>, Seq<u8>>::Bytes(order_id)
            &&& event.topics()[2] == Topic::<Seq<char>, Seq<u8>>::Address(from)
        }),
{
}

/// The other events carry what they announce: `init` the four addresses, `paused`
/// the caller and `true`, `unpaused` the admin and `false`, `upgraded` the admin
/// and the hash, `admin_transferred` the old admin, then the new one.
pub proof fn law_administrative_events_carry_what_they_announce(
    a: Address,
    b: Address,
    c: Address,
    d: Address,
    hash: [u8; 32],
)
    ensures
        ({
            let event: Event<Seq<u8>> = Event::Init {
                admin: a,
                treasury: b,
                usdc_contract: c,
                xlm_contract: d,
            };
            &&& event.payload() == Payload::Addresses(b, c, d)
            &&& event.topics() =~= seq![Topic::Symbol("init"@), Topic::Address(a)]
        }),
        ({
            let event: Event<Seq<u8>> = Event::Paused { caller: a };
            &&& event.payload() == Payload::Flag(true)
            &&& event.topics() =~= seq![Topic::Symbol("paused"@), Topic::Address(a)]
        }),
        ({
            let event: Event<Seq<u8>> = Event::Unpaused { admin: a };
            &&& event.payload() == Payload::Flag(false)
            &&& event.topics() =~= seq![Topic::Symbol("unpaused"@), Topic::Address(a)]
        }),
        ({
            let event: Event<Seq<u8>> = Event::Upgraded { admin: a, new_wasm_hash: hash };
            &&& event.payload() == Payload::Hash(hash)
            &&& event.topics() =~= seq![Topic::Symbol("upgraded"@), Topic::Address(a)]
        }),
        ({
            let event: Event<Seq<u8>> = Event::AdminTransferred { old_admin: a, new_admin: b };
            &&& event.payload() == Payload::Unit
            &&& event.topics() =~= seq![
                Topic::Symbol("admin_transferred"@),
                Topic::Address(a),
                Topic::Address(b),
            ]
        }),
{
}

/// What completing `init` announces is what it was given and what it stored:
/// any event it publishes is an `Init` that agrees, field by field, with the
/// configuration and with the storage left.
pub proof fn law_init_announces_what_it_stores(
    storage: Storage,
    contract: Address,
    config: Config,
    event: Event<Seq<u8>>,
)
    requires
        model::resume(storage, Pending::XlmProbe(config), true).effects.contains(
            Effect::Publish(event),
        ),
    ensures
        ({
            let left = model::resume(storage, Pending::XlmProbe(config), true).storage;
            &&& event matches Event::Init { admin, treasury, usdc_contract, xlm_contract } && {
                &&& admin == config.admin
                &&& treasury == config.treasury
                &&& usdc_contract == config.usdc_contract
                &&& xlm_contract == config.xlm_contract
                &&& left.admin == Some(admin)
                &&& left.treasury == Some(treasury)
                &&& left.usdc_contract == Some(usdc_contract)
                &&& left.xlm_contract == Some(xlm_contract)
            }
        }),
{
}

/// A handover is announced as it happened, from the admin stored before to the
/// admin stored after, and by nothing else, whatever else storage holds.
pub proof fn law_handover_is_announced_as_it_happened(
    storage: Storage,
    new_admin: Address,
    event: Event<Seq<u8>>,
)
    requires
        model::transfer_admin(storage, new_admin).effects.contains(Effect::Publish(event)),
    ensures
        ({
            let left = model::transfer_admin(storage, new_admin).storage;
            &&& event matches Event::AdminTransferred { old_admin, new_admin: appointed } && {
                &&& storage.admin == Some(old_admin)
                &&& left.admin == Some(appointed)
                &&& appointed == new_admin
                &&& old_admin != appointed
            }
        }),
{
}

/// An upgrade asks for one replacement of the code, by the hash given, ahead of
/// its announcement with that same hash.
pub proof fn law_one_replacement_per_upgrade(
    storage: Storage,
    new_wasm_hash: [u8; 32],
    i: int,
    j: int,
)
    requires
        ({
            let effects = model::upgrade(storage, new_wasm_hash).effects;
            &&& 0 <= i < effects.len()
            &&& 0 <= j < effects.len()
            &&& effects[i] is UpdateWasm
        }),
    ensures
        ({
            let effects = model::upgrade(storage, new_wasm_hash).effects;
            &&& effects[i] == Effect::<Seq<u8>>::UpdateWasm(new_wasm_hash)
            &&& effects[j] is UpdateWasm ==> i == j
            &&& effects[j] matches Effect::Publish(event) ==> i < j && event == (Event::<Seq<u8>>::Upgraded {
                admin: storage.admin->0,
                new_wasm_hash,
            })
        }),
{
}

/// The token calls asked for are those the configuration and the payment name.
pub proof fn law_token_calls_are_as_named(config: Config, payment: Payment<Seq<u8>>)
    ensures
        Pending::<Seq<u8>>::UsdcProbe(config).call_of() == (TokenCall::Decimals {
            token: config.usdc_contract,
        }),
        Pending::<Seq<u8>>::XlmProbe(config).call_of() == (TokenCall::Decimals {
            token: config.xlm_contract,
        }),
        Pending::Transfer(payment).call_of() == (TokenCall::Transfer {
            token: payment.token,
            from: payment.from,
            to: payment.to,
            amount: payment.amount,
        }),
{
}

} // verus!
