//! What callers of the library can rely on, function by function: every
//! entrypoint carries out its [`Call`] and nothing more, and the values handed
//! in and out keep their meaning on the way.
//!
//! Each law takes a possible run of an executable function, its arguments and
//! what it returned, and says what that run did.

use vstd::prelude::*;

use crate::event::{Event, Payload, Topic};
use crate::invocation::{Effect, Invocation, InvocationView};
use crate::laws::{react, Call};
use crate::progress::{Config, Payment, Pending, Progress, TokenCall};
use crate::promises::{aborted, returned};
use crate::receiver::Stellar_CardReceiver;
use crate::storage::{Slot, Storage};
use crate::types::{Abort, Address, Asset, DataKey, Error};

verus! {

/// Whether an invocation that went from `before` to `after` and answered
/// `progress` carried out `call`: storage is what the call leaves, the actions
/// of the call stand behind those recorded earlier, and the contract is the
/// same.
pub open spec fn carried_out(
    before: InvocationView,
    after: InvocationView,
    call: Call,
    progress: Progress<Seq<u8>>,
) -> bool {
    let reaction = react(before.storage, before.contract, call);
    let recorded = before.journal.len();
    &&& after.contract == before.contract
    &&& after.storage == reaction.storage
    &&& after.journal.len() == recorded + reaction.effects.len()
    &&& forall|i: int| 0 <= i < recorded ==> #[trigger] after.journal[i] == before.journal[i]
    &&& forall|i: int|
        0 <= i < reaction.effects.len() ==> after.journal[recorded + i]
            == #[trigger] reaction.effects[i]
    &&& progress == reaction.result
}

/// An answer of an administrative entrypoint in the common form.
pub open spec fn answered(result: Result<(), Abort>) -> Progress<Seq<u8>> {
    if result is Ok {
        returned(Ok(()))
    } else {
        aborted(result->Err_0)
    }
}

// ---- entrypoints ----

/// `init` carries out the call of that name with its four addresses in place.
pub proof fn law_init_carries_out_its_call(
    env: &mut Invocation,
    admin: Address,
    treasury: Address,
    usdc_contract: Address,
    xlm_contract: Address,
    progress: Progress<Vec<u8>>,
)
    requires
        call_ensures(
            Stellar_CardReceiver::init,
            (env, admin, treasury, usdc_contract, xlm_contract),
            progress,
        ),
    ensures
        carried_out(
            old(env)@,
            final(env)@,
            Call::Init(Config { admin, treasury, usdc_contract, xlm_contract }),
            progress@,
        ),
{
}

/// `pay_usdc` carries out a payment in USDC.
pub proof fn law_pay_usdc_carries_out_its_call(
    env: &mut Invocation,
    from: Address,
    amount: i128,
    order_id: Vec<u8>,
    progress: Progress<Vec<u8>>,
)
    requires
        call_ensures(Stellar_CardReceiver::pay_usdc, (env, from, amount, order_id), progress),
    ensures
        carried_out(
            old(env)@,
            final(env)@,
            Call::Pay { asset: Asset::Usdc, from, amount, order_id: order_id@ },
            progress@,
        ),
{
}

/// `pay_xlm` carries out a payment in XLM.
pub proof fn law_pay_xlm_carries_out_its_call(
    env: &mut Invocation,
    from: Address,
    amount: i128,
    order_id: Vec<u8>,
    progress: Progress<Vec<u8>>,
)
    requires
        call_ensures(Stellar_CardReceiver::pay_xlm, (env, from, amount, order_id), progress),
    ensures
        carried_out(
            old(env)@,
            final(env)@,
            Call::Pay { asset: Asset::Xlm, from, amount, order_id: order_id@ },
            progress@,
        ),
{
}

/// `resume` goes on with what it is given, as it was answered.
pub proof fn law_resume_carries_out_its_call(
    env: &mut Invocation,
    pending: Pending<Vec<u8>>,
    succeeded: bool,
    progress: Progress<Vec<u8>>,
)
    requires
        call_ensures(Stellar_CardReceiver::resume, (env, pending, succeeded), progress),
    ensures
        carried_out(old(env)@, final(env)@, Call::Resume(pending@, succeeded), progress@),
{
}

/// `pause` carries out the call of that name.
pub proof fn law_pause_carries_out_its_call(
    env: &mut Invocation,
    caller: Address,
    result: Result<(), Abort>,
)
    requires
        call_ensures(Stellar_CardReceiver::pause, (env, caller), result),
    ensures
        carried_out(old(env)@, final(env)@, Call::Pause(caller), answered(result)),
{
}

/// `unpause` carries out the call of that name.
pub proof fn law_unpause_carries_out_its_call(env: &mut Invocation, result: Result<(), Abort>)
    requires
        call_ensures(Stellar_CardReceiver::unpause, (env,), result),
    ensures
        carried_out(old(env)@, final(env)@, Call::Unpause, answered(result)),
{
}

/// `upgrade` carries out the call of that name.
pub proof fn law_upgrade_carries_out_its_call(
    env: &mut Invocation,
    new_wasm_hash: [u8; 32],
    result: Result<(), Abort>,
)
    requires
        call_ensures(Stellar_CardReceiver::upgrade, (env, new_wasm_hash), result),
    ensures
        carried_out(old(env)@, final(env)@, Call::Upgrade(new_wasm_hash), answered(result)),
{
}

/// `transfer_admin` carries out the call of that name.
pub proof fn law_transfer_admin_carries_out_its_call(
    env: &mut Invocation,
    new_admin: Address,
    result: Result<(), Abort>,
)
    requires
        call_ensures(Stellar_CardReceiver::transfer_admin, (env, new_admin), result),
    ensures
        carried_out(old(env)@, final(env)@, Call::TransferAdmin(new_admin), answered(result)),
{
}

/// Taking the guard succeeds if and only if the guard is not set. It then sets
/// the guard, records that one write and touches nothing else; where it fails it
/// touches nothing at all.
pub proof fn law_taking_the_guard(env: &mut Invocation, entered: Result<(), Abort>)
    requires
        call_ensures(Stellar_CardReceiver::_enter, (env,), entered),
    ensures
        ({
            let before = old(env)@;
            let after = final(env)@;
            &&& after.contract == before.contract
            &&& if before.storage.reentrancy_guard == Some(true) {
                &&& entered == Err::<(), Abort>(Abort::ReentrancyDetected)
                &&& after.storage == before.storage
                &&& after.journal == before.journal
            } else {
                &&& entered == Ok::<(), Abort>(())
                &&& after.storage == (Storage { reentrancy_guard: Some(true), ..before.storage })
                &&& after.journal == before.journal.push(
                    Effect::Write(Slot::ReentrancyGuard(true)),
                )
            }
        }),
{
}

/// Releasing the guard clears it, held or not, records that one write and touches
/// nothing else.
pub proof fn law_releasing_the_guard(env: &mut Invocation)
    requires
        call_ensures(Stellar_CardReceiver::_exit, (env,), ()),
    ensures
        final(env)@.contract == old(env)@.contract,
        final(env)@.storage == (Storage { reentrancy_guard: Some(false), ..old(env)@.storage }),
        final(env)@.journal == old(env)@.journal.push(Effect::Write(Slot::ReentrancyGuard(false))),
{
}

/// Extending instance storage records one action, which targets 17280000 ledgers
/// once fewer than half of them are left, and touches nothing else.
pub proof fn law_extending_instance_storage(env: &mut Invocation)
    requires
        call_ensures(Stellar_CardReceiver::extend_instance_ttl, (env,), ()),
    ensures
        final(env)@.contract == old(env)@.contract,
        final(env)@.storage == old(env)@.storage,
        final(env)@.journal == old(env)@.journal.push(
            Effect::ExtendInstanceTtl { threshold: 8_640_000, extend_to: 17_280_000 },
        ),
{
}

// ---- getters ----

/// Whether a getter answered with what its slot holds, or named the slot that is
/// empty.
pub open spec fn answers(
    answer: Result<Address, Abort>,
    slot: Option<Address>,
    key: DataKey,
) -> bool {
    &&& answer is Ok <==> slot is Some
    &&& answer is Ok ==> slot == Some(answer->Ok_0)
    &&& answer is Err ==> answer->Err_0 == Abort::MissingSlot(key)
}

/// The getter of the treasury reads the treasury's slot.
pub proof fn law_treasury_reads_its_slot(env: &Invocation, answer: Result<Address, Abort>)
    requires
        call_ensures(Stellar_CardReceiver::treasury, (env,), answer),
    ensures
        answers(answer, env@.storage.treasury, DataKey::Treasury),
{
}

/// The getter of the USDC contract reads the USDC contract's slot.
pub proof fn law_usdc_contract_reads_its_slot(env: &Invocation, answer: Result<Address, Abort>)
    requires
        call_ensures(Stellar_CardReceiver::usdc_contract, (env,), answer),
    ensures
        answers(answer, env@.storage.usdc_contract, DataKey::UsdcContract),
{
}

/// The getter of the XLM contract reads the XLM contract's slot.
pub proof fn law_xlm_contract_reads_its_slot(env: &Invocation, answer: Result<Address, Abort>)
    requires
        call_ensures(Stellar_CardReceiver::xlm_contract, (env,), answer),
    ensures
        answers(answer, env@.storage.xlm_contract, DataKey::XlmContract),
{
}

/// The getter of the admin reads the admin's slot.
pub proof fn law_admin_reads_its_slot(env: &Invocation, answer: Result<Address, Abort>)
    requires
        call_ensures(Stellar_CardReceiver::admin, (env,), answer),
    ensures
        answers(answer, env@.storage.admin, DataKey::Admin),
{
}

/// The contract counts as paused if and only if the flag is there and set.
pub proof fn law_paused_reads_its_slot(env: &Invocation, viewed: bool, paused: bool)
    requires
        call_ensures(Stellar_CardReceiver::is_paused_view, (env,), viewed),
        call_ensures(Stellar_CardReceiver::is_paused, (env,), paused),
    ensures
        viewed <==> env@.storage.paused is Some && env@.storage.paused->0,
        paused == viewed,
{
}

// ---- events ----

/// An event goes out under its symbol, with its fields as topics and value.
pub proof fn law_events_are_laid_out_field_by_field(
    event: Event<Vec<u8>>,
    parts: (Vec<Topic<&'static str, Vec<u8>>>, Payload),
)
    requires
        call_ensures(Event::<Vec<u8>>::into_parts, (event,), parts),
    ensures
        ({
            let topics = parts.0@;
            &&& parts.1 == match event {
                Event::Init { admin: _, treasury, usdc_contract, xlm_contract } =>
                    Payload::Addresses(treasury, usdc_contract, xlm_contract),
                Event::Payment { asset: _, order_id: _, from: _, amount } => Payload::Amount(
                    amount,
                ),
                Event::Paused { caller: _ } => Payload::Flag(true),
                Event::Unpaused { admin: _ } => Payload::Flag(false),
                Event::Upgraded { admin: _, new_wasm_hash } => Payload::Hash(new_wasm_hash),
                Event::AdminTransferred { old_admin: _, new_admin: _ } => Payload::Unit,
            }
            &&& topics.len() > 1
            &&& topics[0] matches Topic::Symbol(symbol) && match event {
                Event::Init { .. } => symbol@ == "init"@,
                Event::Payment { asset, .. } => if asset == Asset::Usdc {
                    symbol@ == "pay_usdc"@
                } else {
                    symbol@ == "pay_xlm"@
                },
                Event::Paused { .. } => symbol@ == "paused"@,
                Event::Unpaused { .. } => symbol@ == "unpaused"@,
                Event::Upgraded { .. } => symbol@ == "upgraded"@,
                Event::AdminTransferred { .. } => symbol@ == "admin_transferred"@,
            }
            &&& match event {
                Event::Init { admin, .. } => topics.len() == 2 && is_address(topics[1], admin),
                Event::Payment { asset: _, order_id, from, amount: _ } => topics.len() == 3
                    && is_bytes(topics[1], order_id@) && is_address(topics[2], from),
                Event::Paused { caller } => topics.len() == 2 && is_address(topics[1], caller),
                Event::Unpaused { admin } => topics.len() == 2 && is_address(topics[1], admin),
                Event::Upgraded { admin, new_wasm_hash: _ } => topics.len() == 2 && is_address(
                    topics[1],
                    admin,
                ),
                Event::AdminTransferred { old_admin, new_admin } => topics.len() == 3
                    && is_address(topics[1], old_admin) && is_address(topics[2], new_admin),
            }
        }),
{
    let topics = parts.0@;
    let viewed = topics.map_values(|t: Topic<&'static str, Vec<u8>>| t@);
    assert(viewed == event@.topics());
    assert(viewed.len() == topics.len());
    assert(viewed[0] == topics[0]@);
    assert(viewed[1] == topics[1]@);
    assert(viewed.len() > 2 ==> viewed[2] == topics[2]@);
}

/// Whether a topic is an address.
pub open spec fn is_address(topic: Topic<&'static str, Vec<u8>>, address: Address) -> bool {
    topic matches Topic::Address(held) && held == address
}

/// Whether a topic is a byte string.
pub open spec fn is_bytes(topic: Topic<&'static str, Vec<u8>>, bytes: Seq<u8>) -> bool {
    topic matches Topic::Bytes(held) && held@ == bytes
}

/// The name of an event is its symbol.
pub proof fn law_names_of_events(event: &Event<Vec<u8>>, name: &'static str)
    requires
        call_ensures(Event::<Vec<u8>>::name, (event,), name),
    ensures
        name@ == match *event {
            Event::Init { .. } => "init"@,
            Event::Payment { asset, .. } => if asset == Asset::Usdc {
                "pay_usdc"@
            } else {
                "pay_xlm"@
            },
            Event::Paused { .. } => "paused"@,
            Event::Unpaused { .. } => "unpaused"@,
            Event::Upgraded { .. } => "upgraded"@,
            Event::AdminTransferred { .. } => "admin_transferred"@,
        },
{
}

// ---- invocations and storage ----

/// A new invocation is of the contract and the storage it was given, with
/// nothing recorded.
pub proof fn law_new_invocations(
    contract: Address,
    storage: Storage,
    invocation: Invocation,
    its_contract: Address,
    its_storage: Storage,
)
    requires
        call_ensures(Invocation::new, (contract, storage), invocation),
        call_ensures(Invocation::contract, (&invocation,), its_contract),
        call_ensures(Invocation::storage, (&invocation,), its_storage),
    ensures
        its_contract == contract,
        its_storage == storage,
        invocation@.contract == contract,
        invocation@.storage == storage,
        invocation@.journal.len() == 0,
{
}

/// What an invocation says of itself is its state.
pub proof fn law_invocations_tell_their_state(
    invocation: &Invocation,
    contract: Address,
    storage: Storage,
)
    requires
        call_ensures(Invocation::contract, (invocation,), contract),
        call_ensures(Invocation::storage, (invocation,), storage),
    ensures
        contract == invocation@.contract,
        storage == invocation@.storage,
{
}

/// Taking the actions hands over all of them in order, leaves none, and touches
/// nothing else.
pub proof fn law_taking_the_actions(env: &mut Invocation, effects: Vec<Effect<Vec<u8>>>, i: int)
    requires
        call_ensures(Invocation::take_effects, (env,), effects),
    ensures
        effects@.len() == old(env)@.journal.len(),
        0 <= i < effects@.len() ==> effects@[i]@ == old(env)@.journal[i],
        final(env)@.journal.len() == 0,
        final(env)@.storage == old(env)@.storage,
        final(env)@.contract == old(env)@.contract,
{
}

/// Empty storage holds nothing.
pub proof fn law_empty_storage(storage: Storage)
    requires
        call_ensures(Storage::empty, (), storage),
    ensures
        storage.treasury is None,
        storage.usdc_contract is None,
        storage.xlm_contract is None,
        storage.admin is None,
        storage.paused is None,
        storage.reentrancy_guard is None,
{
}

/// A write is read back from the slot it belongs in, and leaves the other slots
/// alone.
pub proof fn law_writes_are_read_back(storage: &mut Storage, slot: Slot)
    requires
        call_ensures(Storage::write, (storage, slot), ()),
    ensures
        match slot {
            Slot::Treasury(address) => final(storage).treasury == Some(address),
            Slot::UsdcContract(address) => final(storage).usdc_contract == Some(address),
            Slot::XlmContract(address) => final(storage).xlm_contract == Some(address),
            Slot::Admin(address) => final(storage).admin == Some(address),
            Slot::Paused(flag) => final(storage).paused == Some(flag),
            Slot::ReentrancyGuard(flag) => final(storage).reentrancy_guard == Some(flag),
        },
        slot !is Treasury ==> final(storage).treasury == old(storage).treasury,
        slot !is UsdcContract ==> final(storage).usdc_contract == old(storage).usdc_contract,
        slot !is XlmContract ==> final(storage).xlm_contract == old(storage).xlm_contract,
        slot !is Admin ==> final(storage).admin == old(storage).admin,
        slot !is Paused ==> final(storage).paused == old(storage).paused,
        slot !is ReentrancyGuard ==> final(storage).reentrancy_guard == old(
            storage,
        ).reentrancy_guard,
{
}

/// Each slot has the key of its name, and the guard alone is temporary.
pub proof fn law_keys_of_slots(slot: Slot, key: DataKey, temporary: bool)
    requires
        call_ensures(Slot::key, (slot,), key),
        call_ensures(Slot::is_temporary, (slot,), temporary),
    ensures
        slot is Treasury <==> key == DataKey::Treasury,
        slot is UsdcContract <==> key == DataKey::UsdcContract,
        slot is XlmContract <==> key == DataKey::XlmContract,
        slot is Admin <==> key == DataKey::Admin,
        slot is Paused <==> key == DataKey::Paused,
        slot is ReentrancyGuard <==> key == DataKey::ReentrancyGuard,
        temporary <==> slot is ReentrancyGuard,
{
}

// ---- token calls, errors and addresses ----

/// The token call of a probe reads from the contract probed; that of a payment
/// moves the payment's amount from the payer to the receiver named in it.
pub proof fn law_token_calls_are_made_as_named(pending: &Pending<Vec<u8>>, call: TokenCall)
    requires
        call_ensures(Pending::<Vec<u8>>::call, (pending,), call),
    ensures
        match *pending {
            Pending::UsdcProbe(config) => call matches TokenCall::Decimals { token } && token
                == config.usdc_contract,
            Pending::XlmProbe(config) => call matches TokenCall::Decimals { token } && token
                == config.xlm_contract,
            Pending::Transfer(payment) => call matches TokenCall::Transfer {
                token,
                from,
                to,
                amount,
            } && token == payment.token && from == payment.from && to == payment.to && amount
                == payment.amount,
        },
{
}

/// The codes of errors: 1, 2 and 3.
pub proof fn law_codes_of_errors(error: Error, code: u32)
    requires
        call_ensures(Error::code, (error,), code),
    ensures
        1 <= code <= 3,
        code == 1 <==> error == Error::InvalidAmount,
        code == 2 <==> error == Error::TransferFailed,
        code == 3 <==> error == Error::ContractPaused,
{
}

/// The messages of aborts. An empty slot is reported in the same words whichever
/// slot it is.
pub proof fn law_messages_of_aborts(abort: Abort, message: &'static str)
    requires
        call_ensures(Abort::message, (abort,), message),
    ensures
        abort == Abort::AlreadyInitialized ==> message@ == "already initialized"@,
        abort == Abort::AdminIsContract ==> message@ == "admin cannot be the contract itself"@,
        abort == Abort::TreasuryIsContract ==> message@
            == "treasury cannot be the contract itself"@,
        abort == Abort::AdminIsTreasury ==> message@
            == "admin and treasury must be different addresses"@,
        abort == Abort::SameTokenContracts ==> message@
            == "usdc_contract and xlm_contract must be different"@,
        abort == Abort::UsdcIsContract ==> message@
            == "usdc_contract cannot be the contract itself"@,
        abort == Abort::XlmIsContract ==> message@ == "xlm_contract cannot be the contract itself"@,
        abort == Abort::TreasuryIsToken ==> message@
            == "treasury cannot be a configured token contract"@,
        abort == Abort::UsdcNotToken ==> message@
            == "usdc_contract does not implement the token interface"@,
        abort == Abort::XlmNotToken ==> message@
            == "xlm_contract does not implement the token interface"@,
        abort == Abort::ReentrancyDetected ==> message@ == "reentrancy detected"@,
        abort == Abort::PauseRequiresAdmin ==> message@ == "pause requires admin"@,
        abort is MissingSlot ==> message@ == "called `Option::unwrap()` on a `None` value"@,
{
}

/// Addresses compare equal if and only if they have the same strkey, byte for
/// byte.
pub proof fn law_addresses_compare_by_strkey(a: &Address, b: &Address, same: bool)
    requires
        call_ensures(Address::eq, (a, b), same),
    ensures
        same <==> forall|i: int| 0 <= i < 56 ==> #[trigger] a.strkey@[i] == b.strkey@[i],
{
    if forall|i: int| 0 <= i < 56 ==> #[trigger] a.strkey@[i] == b.strkey@[i] {
        assert(a.strkey =~= b.strkey);
    }
}

// ---- views ----

/// The view of an event is the same event.
pub proof fn law_views_keep_events(event: Event<Vec<u8>>)
    ensures
        match event {
            Event::Init { admin, treasury, usdc_contract, xlm_contract } => event@ == (Event::<
                Seq<u8>,
            >::Init { admin, treasury, usdc_contract, xlm_contract }),
            Event::Payment { asset, order_id, from, amount } => event@ == (Event::<
                Seq<u8>,
            >::Payment { asset, order_id: order_id@, from, amount }),
            Event::Paused { caller } => event@ == (Event::<Seq<u8>>::Paused { caller }),
            Event::Unpaused { admin } => event@ == (Event::<Seq<u8>>::Unpaused { admin }),
            Event::Upgraded { admin, new_wasm_hash } => event@ == (Event::<
                Seq<u8>,
            >::Upgraded { admin, new_wasm_hash }),
            Event::AdminTransferred { old_admin, new_admin } => event@ == (Event::<
                Seq<u8>,
            >::AdminTransferred { old_admin, new_admin }),
        },
{
}

/// The view of an action is the same action.
pub proof fn law_views_keep_actions(effect: Effect<Vec<u8>>)
    ensures
        match effect {
            Effect::RequireAuth(address) => effect@ == Effect::<Seq<u8>>::RequireAuth(address),
            Effect::Write(slot) => effect@ == Effect::<Seq<u8>>::Write(slot),
            Effect::ExtendInstanceTtl { threshold, extend_to } => effect@ == (Effect::<
                Seq<u8>,
            >::ExtendInstanceTtl { threshold, extend_to }),
            Effect::Publish(event) => effect@ == Effect::<Seq<u8>>::Publish(event@),
            Effect::UpdateWasm(hash) => effect@ == Effect::<Seq<u8>>::UpdateWasm(hash),
        },
{
}

/// The view of a payment is the same payment.
pub proof fn law_views_keep_payments(payment: Payment<Vec<u8>>)
    ensures
        payment@.asset == payment.asset,
        payment@.token == payment.token,
        payment@.from == payment.from,
        payment@.to == payment.to,
        payment@.amount == payment.amount,
        payment@.order_id == payment.order_id@,
{
}

/// The view of an answer is the same answer, down to what it waits for.
pub proof fn law_views_keep_answers(progress: Progress<Vec<u8>>)
    ensures
        match progress {
            Progress::Returned(result) => progress@ == returned(result),
            Progress::Aborted(abort) => progress@ == aborted(abort),
            Progress::Waiting(pending) => progress@ == Progress::<Seq<u8>>::Waiting(pending@),
        },
        progress is Waiting ==> match progress->Waiting_0 {
            Pending::UsdcProbe(config) => progress->Waiting_0@ == Pending::<
                Seq<u8>,
            >::UsdcProbe(config),
            Pending::XlmProbe(config) => progress->Waiting_0@ == Pending::<Seq<u8>>::XlmProbe(
                config,
            ),
            Pending::Transfer(payment) => progress->Waiting_0@ == Pending::<
                Seq<u8>,
            >::Transfer(payment@),
        },
{
}

} // verus!
