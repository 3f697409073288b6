//! What holds of the contract as a whole.
//!
//! The laws speak of the functions in [`crate::model`], which are what the
//! entrypoints are proved to do. Several range over every [`Call`].

use vstd::prelude::*;

use crate::event::Event;
use crate::invocation::Effect;
use crate::model;
use crate::progress::{Config, Payment, Pending, Progress, TokenCall};
use crate::receiver::{INSTANCE_TTL_MAX, INSTANCE_TTL_THRESHOLD};
use crate::storage::{Slot, Storage};
use crate::types::{Abort, Address, Asset, DataKey, Error};

verus! {

/// A call that can change something: an entrypoint, or the continuation of one
/// after its token call.
pub enum Call {
    Init(Config),
    Pay { asset: Asset, from: Address, amount: i128, order_id: Seq<u8> },
    Pause(Address),
    Unpause,
    Upgrade([u8; 32]),
    TransferAdmin(Address),
    Resume(Pending<Seq<u8>>, bool),
}

/// How a call ended, whichever entrypoint it was.
pub open spec fn progress_of(result: Result<(), Abort>) -> Progress<Seq<u8>> {
    match result {
        Ok(_) => Progress::Returned(Ok(())),
        Err(abort) => Progress::Aborted(abort),
    }
}

/// What a call does to the contract at `contract`.
pub open spec fn react(storage: Storage, contract: Address, call: Call) -> model::Reaction<
    Progress<Seq<u8>>,
> {
    match call {
        Call::Init(config) => model::init(storage, contract, config),
        Call::Pay { asset, from, amount, order_id } => model::pay(
            storage,
            asset,
            from,
            amount,
            order_id,
        ),
        Call::Pause(caller) => lift(model::pause(storage, caller)),
        Call::Unpause => lift(model::unpause(storage)),
        Call::Upgrade(hash) => lift(model::upgrade(storage, hash)),
        Call::TransferAdmin(new_admin) => lift(model::transfer_admin(storage, new_admin)),
        Call::Resume(pending, succeeded) => model::resume(storage, pending, succeeded),
    }
}

/// A reaction with its result in the common form.
pub open spec fn lift(reaction: model::Reaction<Result<(), Abort>>) -> model::Reaction<
    Progress<Seq<u8>>,
> {
    model::Reaction {
        storage: reaction.storage,
        effects: reaction.effects,
        result: progress_of(reaction.result),
    }
}

/// Whether the contract has been configured.
pub open spec fn is_configured(storage: Storage) -> bool {
    storage.admin is Some
}

/// A configuration `init` has no objection to on a fresh contract.
pub open spec fn acceptable(contract: Address, config: Config) -> bool {
    model::refusal(Storage::blank(), contract, config) is None
}

/// Either nothing is configured, or everything is, with addresses that do not
/// clash.
pub open spec fn consistent(storage: Storage, contract: Address) -> bool {
    match (
        storage.admin,
        storage.treasury,
        storage.usdc_contract,
        storage.xlm_contract,
        storage.paused,
    ) {
        (None, None, None, None, None) => true,
        (Some(_), Some(treasury), Some(usdc), Some(xlm), Some(_)) => {
            &&& treasury != contract
            &&& treasury != usdc
            &&& treasury != xlm
            &&& usdc != xlm
            &&& usdc != contract
            &&& xlm != contract
        },
        _ => false,
    }
}

/// Whether `pending` is something the contract can be waiting for in this
/// state: a probe for an acceptable configuration of a contract that has none,
/// or the transfer of a positive amount to the treasury under the guard.
///
/// A probe is not awaited on a configured contract: that would take a second
/// `init` finishing while the first one's probe is out, and the host, which
/// forbids re-entry, does not let one start.
pub open spec fn awaited(storage: Storage, contract: Address, pending: Pending<Seq<u8>>) -> bool {
    match pending {
        Pending::UsdcProbe(config) => !is_configured(storage) && acceptable(contract, config),
        Pending::XlmProbe(config) => !is_configured(storage) && acceptable(contract, config),
        Pending::Transfer(payment) => {
            &&& payment.amount > 0
            &&& storage.treasury == Some(payment.to)
            &&& storage.token(payment.asset) == Some(payment.token)
            &&& storage.guarded()
        },
    }
}

/// Whether a call can be made in this state: entrypoints always, continuations
/// only of what is awaited.
pub open spec fn timely(storage: Storage, contract: Address, call: Call) -> bool {
    match call {
        Call::Resume(pending, _) => awaited(storage, contract, pending),
        _ => true,
    }
}

/// The storage after a history of calls on a fresh contract.
pub open spec fn storage_after(contract: Address, history: Seq<Call>) -> Storage
    decreases history.len(),
{
    if history.len() == 0 {
        Storage::blank()
    } else {
        react(storage_after(contract, history.drop_last()), contract, history.last()).storage
    }
}

/// Whether every call of a history came in a state it can be made in.
pub open spec fn orderly(contract: Address, history: Seq<Call>) -> bool
    decreases history.len(),
{
    history.len() == 0 || {
        &&& orderly(contract, history.drop_last())
        &&& timely(storage_after(contract, history.drop_last()), contract, history.last())
    }
}

/// Whether the call at position `i` of a history returned without an error.
pub open spec fn succeeded_at(contract: Address, history: Seq<Call>, i: int) -> bool {
    react(storage_after(contract, history.take(i)), contract, history[i]).result == Progress::<
        Seq<u8>,
    >::Returned(Ok(()))
}

/// Whether the call at position `i` is a pause that succeeded and that no
/// successful `unpause` has followed.
pub open spec fn pause_stands(contract: Address, history: Seq<Call>, i: int) -> bool {
    &&& 0 <= i < history.len()
    &&& history[i] is Pause
    &&& succeeded_at(contract, history, i)
    &&& forall|j: int|
        i < j < history.len() && #[trigger] history[j] is Unpause ==> !succeeded_at(
            contract,
            history,
            j,
        )
}

/// The admin whom the call at position `i` of a history put in charge, if it
/// did: by completing `init`, or by a handover that succeeded.
pub open spec fn appointed_at(contract: Address, history: Seq<Call>, i: int) -> Option<Address> {
    match history[i] {
        Call::Resume(Pending::XlmProbe(config), true) => Some(config.admin),
        Call::TransferAdmin(new_admin) => if succeeded_at(contract, history, i) {
            Some(new_admin)
        } else {
            None
        },
        _ => None,
    }
}

/// Whether the call at position `i` put `admin` in charge and no later call put
/// anybody in charge.
pub open spec fn last_appointed(
    contract: Address,
    history: Seq<Call>,
    admin: Address,
    i: int,
) -> bool {
    &&& 0 <= i < history.len()
    &&& appointed_at(contract, history, i) == Some(admin)
    &&& forall|j: int|
        i < j < history.len() ==> #[trigger] appointed_at(contract, history, j) is None
}

/// Whether a call completes `init`.
pub open spec fn completes_init(call: Call) -> bool {
    call matches Call::Resume(pending, succeeded) && pending is XlmProbe && succeeded
}

/// Whether some event is published.
pub open spec fn announces(effects: Seq<Effect<Seq<u8>>>) -> bool {
    exists|i: int| 0 <= i < effects.len() && #[trigger] effects[i] is Publish
}

/// What the writes in a journal make of the storage they are carried out on.
pub open spec fn replay(storage: Storage, effects: Seq<Effect<Seq<u8>>>) -> Storage {
    replay_first(storage, effects, effects.len())
}

/// What the first `n` actions of a journal make of the storage.
pub open spec fn replay_first(storage: Storage, effects: Seq<Effect<Seq<u8>>>, n: nat) -> Storage
    decreases n,
{
    if n == 0 {
        storage
    } else {
        let before = replay_first(storage, effects, (n - 1) as nat);
        match effects[n - 1] {
            Effect::Write(slot) => before.with(slot),
            _ => before,
        }
    }
}

// ---- configuration ----

/// A call in a consistent state leaves a consistent state.
pub proof fn law_consistency_is_kept(storage: Storage, contract: Address, call: Call)
    requires
        consistent(storage, contract),
        timely(storage, contract, call),
    ensures
        consistent(react(storage, contract, call).storage, contract),
{
}

/// Whatever a call waits for is awaited in the state it leaves.
pub proof fn law_waiting_calls_are_awaited(storage: Storage, contract: Address, call: Call)
    requires
        timely(storage, contract, call),
    ensures
        react(storage, contract, call).result matches Progress::Waiting(pending) ==> awaited(
            react(storage, contract, call).storage,
            contract,
            pending,
        ),
{
}

/// What is awaited stays awaited: no entrypoint called in the meantime takes
/// the ground from under a waiting call.
pub proof fn law_awaited_calls_stay_awaited(
    storage: Storage,
    contract: Address,
    pending: Pending<Seq<u8>>,
    call: Call,
)
    requires
        awaited(storage, contract, pending),
        call !is Resume,
    ensures
        awaited(react(storage, contract, call).storage, contract, pending),
{
}

/// Every state a contract can get into is consistent.
pub proof fn law_reachable_states_are_consistent(contract: Address, history: Seq<Call>)
    requires
        orderly(contract, history),
    ensures
        consistent(storage_after(contract, history), contract),
    decreases history.len(),
{
    if history.len() > 0 {
        law_reachable_states_are_consistent(contract, history.drop_last());
        law_consistency_is_kept(
            storage_after(contract, history.drop_last()),
            contract,
            history.last(),
        );
    }
}

/// Once configured, a contract keeps its treasury and its token contracts
/// whatever is called, and stays configured.
pub proof fn law_configuration_is_permanent(storage: Storage, contract: Address, call: Call)
    requires
        is_configured(storage),
        timely(storage, contract, call),
    ensures
        ({
            let after = react(storage, contract, call).storage;
            &&& is_configured(after)
            &&& after.treasury == storage.treasury
            &&& after.usdc_contract == storage.usdc_contract
            &&& after.xlm_contract == storage.xlm_contract
        }),
{
}

/// The treasury and the token contracts are set once: whatever is called after
/// the first `n` calls of a history have configured the contract, they stay.
pub proof fn law_configuration_is_set_once(contract: Address, history: Seq<Call>, n: int)
    requires
        orderly(contract, history),
        0 <= n <= history.len(),
        is_configured(storage_after(contract, history.take(n))),
    ensures
        ({
            let early = storage_after(contract, history.take(n));
            let late = storage_after(contract, history);
            &&& is_configured(late)
            &&& late.treasury == early.treasury
            &&& late.usdc_contract == early.usdc_contract
            &&& late.xlm_contract == early.xlm_contract
        }),
    decreases history.len(),
{
    if n == history.len() {
        assert(history.take(n) =~= history);
    } else {
        let earlier = history.drop_last();
        assert(earlier.take(n) =~= history.take(n));
        law_configuration_is_set_once(contract, earlier, n);
        law_configuration_is_permanent(
            storage_after(contract, earlier),
            contract,
            history.last(),
        );
    }
}

/// A contract is configured if and only if an `init` was completed; until then
/// every slot but the guard is empty.
pub proof fn law_configured_by_init_alone(contract: Address, history: Seq<Call>)
    requires
        orderly(contract, history),
    ensures
        ({
            let storage = storage_after(contract, history);
            let completed = exists|i: int|
                0 <= i < history.len() && #[trigger] completes_init(history[i]);
            &&& is_configured(storage) <==> completed
            &&& !completed ==> storage == Storage {
                reentrancy_guard: storage.reentrancy_guard,
                ..Storage::blank()
            }
        }),
    decreases history.len(),
{
    law_reachable_states_are_consistent(contract, history);
    if history.len() > 0 {
        let last = history.len() - 1;
        let earlier = history.drop_last();
        law_configured_by_init_alone(contract, earlier);
        law_reachable_states_are_consistent(contract, earlier);
        assert forall|i: int| 0 <= i < last implies completes_init(#[trigger] earlier[i])
            == completes_init(history[i]) by {}
        assert(completes_init(history[last]) == completes_init(history.last()));
        if is_configured(storage_after(contract, earlier)) {
            let i = choose|i: int| 0 <= i < earlier.len() && #[trigger] completes_init(earlier[i]);
            assert(completes_init(history[i]));
        } else {
            assert forall|i: int| 0 <= i < last implies !completes_init(#[trigger] history[i]) by {
                assert(!completes_init(earlier[i]));
            }
        }
    }
}

/// `init` works once: on a configured contract it aborts, whatever the
/// arguments, and changes nothing.
pub proof fn law_init_works_once(storage: Storage, contract: Address, config: Config)
    requires
        is_configured(storage),
    ensures
        model::init(storage, contract, config).result == Progress::<Seq<u8>>::Aborted(
            Abort::AlreadyInitialized,
        ),
        model::init(storage, contract, config).storage == storage,
{
}

/// A fresh contract given acceptable addresses, both of whose tokens answer,
/// ends up with exactly those addresses, unpaused.
pub proof fn law_init_stores_what_it_is_given(storage: Storage, contract: Address, config: Config)
    requires
        !is_configured(storage),
        acceptable(contract, config),
    ensures
        ({
            let asked = model::init(storage, contract, config);
            let probed = model::resume(asked.storage, Pending::UsdcProbe(config), true);
            let done = model::resume(probed.storage, Pending::XlmProbe(config), true);
            &&& asked.result == Progress::<Seq<u8>>::Waiting(Pending::UsdcProbe(config))
            &&& probed.result == Progress::<Seq<u8>>::Waiting(Pending::XlmProbe(config))
            &&& done.result == Progress::<Seq<u8>>::Returned(Ok(()))
            &&& model::filled(done.storage.admin, DataKey::Admin) == Ok::<Address, Abort>(
                config.admin,
            )
            &&& model::filled(done.storage.treasury, DataKey::Treasury) == Ok::<Address, Abort>(
                config.treasury,
            )
            &&& model::filled(done.storage.usdc_contract, DataKey::UsdcContract) == Ok::<
                Address,
                Abort,
            >(config.usdc_contract)
            &&& model::filled(done.storage.xlm_contract, DataKey::XlmContract) == Ok::<
                Address,
                Abort,
            >(config.xlm_contract)
            &&& !done.storage.halted()
        }),
{
}

/// `init` probes exactly the two token addresses it is given, and a probe that
/// fails leaves the contract as it was.
pub proof fn law_init_probes_both_tokens(storage: Storage, config: Config)
    ensures
        Pending::<Seq<u8>>::UsdcProbe(config).call_of() == (TokenCall::Decimals {
            token: config.usdc_contract,
        }),
        Pending::<Seq<u8>>::XlmProbe(config).call_of() == (TokenCall::Decimals {
            token: config.xlm_contract,
        }),
        model::resume(storage, Pending::UsdcProbe(config), false).storage == storage,
        model::resume(storage, Pending::UsdcProbe(config), false).result == Progress::<
            Seq<u8>,
        >::Aborted(Abort::UsdcNotToken),
        model::resume(storage, Pending::XlmProbe(config), false).storage == storage,
        model::resume(storage, Pending::XlmProbe(config), false).result == Progress::<
            Seq<u8>,
        >::Aborted(Abort::XlmNotToken),
{
}

/// The addresses `init` accepts on a fresh contract are those without a clash:
/// the contract itself in no role, admin and treasury apart, the tokens apart,
/// and a treasury that is no token.
pub proof fn law_acceptable_means_no_clash(contract: Address, config: Config)
    ensures
        acceptable(contract, config) <==> {
            &&& config.admin != contract
            &&& config.treasury != contract
            &&& config.usdc_contract != contract
            &&& config.xlm_contract != contract
            &&& config.admin != config.treasury
            &&& config.usdc_contract != config.xlm_contract
            &&& config.treasury != config.usdc_contract
            &&& config.treasury != config.xlm_contract
        },
{
}

// ---- payments ----

/// No custody: the only transfers the contract ever asks for go from the payer
/// to the configured treasury, for the amount of the payment, through the
/// configured token; and the treasury is never the contract itself.
pub proof fn law_no_custody(
    storage: Storage,
    contract: Address,
    call: Call,
    token: Address,
    from: Address,
    to: Address,
    amount: i128,
)
    requires
        consistent(storage, contract),
        timely(storage, contract, call),
        react(storage, contract, call).result matches Progress::Waiting(pending)
            && pending.call_of() == (TokenCall::Transfer { token, from, to, amount }),
    ensures
        to != contract,
        storage.treasury == Some(to),
        amount > 0,
        call matches Call::Pay { asset, from: payer, amount: paid, .. } && payer == from && paid
            == amount && storage.token(asset) == Some(token),
{
}

/// No custody, over any history: whatever is called, no transfer ever goes to
/// the contract itself.
pub proof fn law_no_transfer_to_the_contract(
    contract: Address,
    history: Seq<Call>,
    call: Call,
    token: Address,
    from: Address,
    amount: i128,
)
    requires
        orderly(contract, history.push(call)),
    ensures
        !(react(storage_after(contract, history), contract, call).result matches Progress::Waiting(
            pending,
        ) && pending.call_of() == (TokenCall::Transfer { token, from, to: contract, amount })),
{
    assert(history.push(call).drop_last() =~= history);
    law_reachable_states_are_consistent(contract, history);
}

/// A payment on a configured, unpaused contract with no other payment waiting,
/// from the call to its end: it succeeds if and only if the transfer does,
/// fails with `TransferFailed` otherwise, announces itself exactly when it
/// succeeds, and leaves storage as it was but for a released guard.
pub proof fn law_payment_from_start_to_end(
    storage: Storage,
    contract: Address,
    asset: Asset,
    from: Address,
    amount: i128,
    order_id: Seq<u8>,
    moved: bool,
)
    requires
        consistent(storage, contract),
        is_configured(storage),
        !storage.halted(),
        !storage.guarded(),
        amount > 0,
    ensures
        ({
            let asked = model::pay(storage, asset, from, amount, order_id);
            &&& asked.result matches Progress::Waiting(pending) && {
                let done = model::resume(asked.storage, pending, moved);
                &&& pending.call_of() == (TokenCall::Transfer {
                    token: storage.token(asset)->0,
                    from,
                    to: storage.treasury->0,
                    amount,
                })
                &&& done.result == Progress::<Seq<u8>>::Returned(
                    if moved {
                        Ok(())
                    } else {
                        Err(Error::TransferFailed)
                    },
                )
                &&& done.storage == storage.with(Slot::ReentrancyGuard(false))
                &&& !announces(asked.effects)
                &&& announces(done.effects) <==> moved
                &&& moved ==> done.effects.contains(
                    Effect::Publish(Event::Payment { asset, order_id, from, amount }),
                )
            }
        }),
{
    let asked = model::pay(storage, asset, from, amount, order_id);
    let done = model::resume(asked.storage, asked.result->Waiting_0, moved);
    if moved {
        assert(done.effects[1] == Effect::Publish(
            Event::Payment { asset, order_id, from, amount },
        ));
    }
}

/// While the contract is paused every payment is refused with
/// `ContractPaused`; nothing is recorded, not even a request for authorization,
/// and nothing changes.
pub proof fn law_paused_contract_takes_no_payment(
    storage: Storage,
    asset: Asset,
    from: Address,
    amount: i128,
    order_id: Seq<u8>,
)
    requires
        storage.halted(),
    ensures
        ({
            let refused = model::pay(storage, asset, from, amount, order_id);
            &&& refused.result == Progress::<Seq<u8>>::Returned(Err(Error::ContractPaused))
            &&& refused.storage == storage
            &&& refused.effects == Seq::<Effect<Seq<u8>>>::empty()
        }),
{
}

/// On an unpaused contract an amount that is not positive is refused with
/// `InvalidAmount`, before anything is recorded; and no other amount is.
pub proof fn law_amounts_are_positive(
    storage: Storage,
    asset: Asset,
    from: Address,
    amount: i128,
    order_id: Seq<u8>,
)
    requires
        !storage.halted(),
    ensures
        ({
            let paid = model::pay(storage, asset, from, amount, order_id);
            let refused = paid.result == Progress::<Seq<u8>>::Returned(
                Err(Error::InvalidAmount),
            );
            &&& refused <==> amount <= 0
            &&& refused ==> paid.storage == storage && paid.effects == Seq::<
                Effect<Seq<u8>>,
            >::empty()
        }),
{
}

/// While a payment waits for its transfer no second payment gets through, in
/// either asset.
pub proof fn law_no_payment_during_a_payment(
    storage: Storage,
    contract: Address,
    first: Payment<Seq<u8>>,
    asset: Asset,
    from: Address,
    amount: i128,
    order_id: Seq<u8>,
)
    requires
        consistent(storage, contract),
        awaited(storage, contract, Pending::Transfer(first)),
    ensures
        ({
            let second = model::pay(storage, asset, from, amount, order_id);
            &&& second.storage == storage
            &&& second.result !is Waiting
            &&& second.result != Progress::<Seq<u8>>::Returned(Ok(()))
            &&& !storage.halted() && amount > 0 ==> second.result == Progress::<
                Seq<u8>,
            >::Aborted(Abort::ReentrancyDetected)
        }),
{
}

/// Releasing the guard works in any state, held or not: the guard is free
/// afterwards and can be taken again, instance storage is as it was, nothing is
/// announced, and releasing it once more changes nothing.
pub proof fn law_release_is_idempotent(storage: Storage)
    ensures
        ({
            let once = model::exit(storage);
            let twice = model::exit(once.storage);
            &&& once.storage == Storage { reentrancy_guard: Some(false), ..storage }
            &&& twice.storage == once.storage
            &&& !announces(once.effects)
            &&& model::enter(once.storage).result == Ok::<(), Abort>(())
        }),
{
}

/// The guard can be held once: taken when free, refused until it is released.
pub proof fn law_guard_is_exclusive(storage: Storage)
    requires
        !storage.guarded(),
    ensures
        ({
            let held = model::enter(storage);
            &&& held.result == Ok::<(), Abort>(())
            &&& model::enter(held.storage).result == Err::<(), Abort>(Abort::ReentrancyDetected)
            &&& model::enter(held.storage).storage == held.storage
            &&& model::enter(model::exit(held.storage).storage).result == Ok::<(), Abort>(())
        }),
{
}

/// After any payment, however its transfer went, the next payment of a positive
/// amount on a configured, unpaused contract gets to its transfer.
pub proof fn law_next_payment_gets_through(
    storage: Storage,
    contract: Address,
    settled: Payment<Seq<u8>>,
    moved: bool,
    asset: Asset,
    from: Address,
    amount: i128,
    order_id: Seq<u8>,
)
    requires
        consistent(storage, contract),
        is_configured(storage),
        !storage.halted(),
        amount > 0,
    ensures
        ({
            let after = model::resume(storage, Pending::Transfer(settled), moved).storage;
            model::pay(after, asset, from, amount, order_id).result is Waiting
        }),
{
}

/// Settling a second time leaves the storage that settling once left.
pub proof fn law_settling_twice_changes_nothing(
    storage: Storage,
    payment: Payment<Seq<u8>>,
    moved: bool,
    again: bool,
)
    ensures
        ({
            let once = model::resume(storage, Pending::Transfer(payment), moved).storage;
            &&& once == model::exit(storage).storage
            &&& model::resume(once, Pending::Transfer(payment), again).storage == once
        }),
{
}

/// The guard is free after every payment, however its transfer went.
pub proof fn law_guard_is_always_released(
    storage: Storage,
    payment: Payment<Seq<u8>>,
    moved: bool,
)
    ensures
        !model::resume(storage, Pending::Transfer(payment), moved).storage.guarded(),
{
}

/// Only payments touch the guard.
pub proof fn law_only_payments_touch_the_guard(storage: Storage, contract: Address, call: Call)
    requires
        call !is Pay,
        !(call matches Call::Resume(pending, _) && pending is Transfer),
    ensures
        react(storage, contract, call).storage.reentrancy_guard == storage.reentrancy_guard,
{
}

// ---- administration ----

/// Pausing is idempotent: pausing again changes nothing, announces nothing and
/// asks for nothing but the caller's authorization.
pub proof fn law_pause_is_idempotent(storage: Storage, caller: Address)
    requires
        model::pause(storage, caller).result is Ok,
    ensures
        ({
            let once = model::pause(storage, caller).storage;
            let twice = model::pause(once, caller);
            &&& once.halted()
            &&& twice.result is Ok
            &&& twice.storage == once
            &&& twice.effects == seq![Effect::<Seq<u8>>::RequireAuth(caller)]
            &&& !announces(twice.effects)
        }),
{
}

/// Unpausing is idempotent in the same way.
pub proof fn law_unpause_is_idempotent(storage: Storage, admin: Address)
    requires
        storage.admin == Some(admin),
    ensures
        ({
            let once = model::unpause(storage).storage;
            let twice = model::unpause(once);
            &&& !once.halted()
            &&& twice.result is Ok
            &&& twice.storage == once
            &&& twice.effects == seq![Effect::<Seq<u8>>::RequireAuth(admin)]
            &&& !announces(twice.effects)
        }),
{
}

/// Unpausing undoes pausing: a configured, unpaused contract comes back as it
/// was.
pub proof fn law_unpause_undoes_pause(storage: Storage, contract: Address, caller: Address)
    requires
        consistent(storage, contract),
        !storage.halted(),
        model::pause(storage, caller).result is Ok,
    ensures
        model::unpause(model::pause(storage, caller).storage).result is Ok,
        model::unpause(model::pause(storage, caller).storage).storage == storage,
{
    assert(storage.paused == Some(false));
}

/// On a configured contract nothing but `pause` and `unpause` touches the pause
/// flag.
pub proof fn law_only_pausing_touches_the_flag(storage: Storage, contract: Address, call: Call)
    requires
        is_configured(storage),
        timely(storage, contract, call),
        call !is Pause,
        call !is Unpause,
    ensures
        react(storage, contract, call).storage.paused == storage.paused,
{
}

/// The pause flag stays as the first `n` calls of a history left it, once they
/// have configured the contract, until the next `pause` or `unpause`.
pub proof fn law_flag_stays_between_pauses(contract: Address, history: Seq<Call>, n: int)
    requires
        orderly(contract, history),
        0 <= n <= history.len(),
        is_configured(storage_after(contract, history.take(n))),
        forall|i: int|
            n <= i < history.len() ==> #[trigger] history[i] !is Pause && history[i] !is Unpause,
    ensures
        storage_after(contract, history).paused == storage_after(
            contract,
            history.take(n),
        ).paused,
    decreases history.len(),
{
    if n == history.len() {
        assert(history.take(n) =~= history);
    } else {
        let earlier = history.drop_last();
        assert(earlier.take(n) =~= history.take(n));
        assert forall|i: int| n <= i < earlier.len() implies #[trigger] earlier[i] !is Pause
            && earlier[i] !is Unpause by {
            assert(earlier[i] == history[i]);
        }
        law_flag_stays_between_pauses(contract, earlier, n);
        law_configuration_is_set_once(contract, earlier, n);
        law_only_pausing_touches_the_flag(
            storage_after(contract, earlier),
            contract,
            history.last(),
        );
    }
}

/// In every state a contract can get into, configured or not, it is paused if
/// and only if some `pause` has succeeded and no `unpause` has succeeded since.
pub proof fn law_paused_between_pause_and_unpause(contract: Address, history: Seq<Call>)
    requires
        orderly(contract, history),
    ensures
        storage_after(contract, history).halted() <==> exists|i: int|
            #[trigger] pause_stands(contract, history, i),
    decreases history.len(),
{
    if history.len() > 0 {
        let last = history.len() - 1;
        let earlier = history.drop_last();
        let before = storage_after(contract, earlier);
        law_paused_between_pause_and_unpause(contract, earlier);
        law_reachable_states_are_consistent(contract, earlier);
        assert(history.take(last) =~= earlier);
        assert forall|i: int| 0 <= i < last implies #[trigger] succeeded_at(contract, history, i)
            == succeeded_at(contract, earlier, i) by {
            assert(history.take(i) =~= earlier.take(i));
        }
        let ended = history.last() is Unpause && succeeded_at(contract, history, last);
        assert forall|i: int| 0 <= i < last implies #[trigger] pause_stands(contract, history, i)
            == (pause_stands(contract, earlier, i) && !ended) by {
            assert forall|j: int| 0 <= j < last implies #[trigger] history[j] == earlier[j] by {}
            if pause_stands(contract, history, i) {
                assert forall|j: int|
                    i < j < earlier.len() && #[trigger] earlier[j] is Unpause implies !succeeded_at(
                    contract,
                    earlier,
                    j,
                ) by {
                    assert(history[j] is Unpause);
                }
                assert(history[last] == history.last());
            }
        }
        if storage_after(contract, history).halted() {
            if before.halted() {
                let i = choose|i: int| #[trigger] pause_stands(contract, earlier, i);
                assert(pause_stands(contract, history, i));
            } else {
                assert(pause_stands(contract, history, last));
            }
        } else if exists|i: int| #[trigger] pause_stands(contract, history, i) {
            let i = choose|i: int| #[trigger] pause_stands(contract, history, i);
            if i < last {
                assert(pause_stands(contract, earlier, i));
            }
        }
    }
}

/// On a configured contract, pausing succeeds for the admin and for nobody
/// else.
pub proof fn law_only_the_admin_pauses(storage: Storage, admin: Address, caller: Address)
    requires
        storage.admin == Some(admin),
    ensures
        caller == admin ==> model::pause(storage, caller).result == Ok::<(), Abort>(()),
        caller != admin ==> model::pause(storage, caller).result == Err::<(), Abort>(
            Abort::PauseRequiresAdmin,
        ) && model::pause(storage, caller).storage == storage,
{
}

/// After a handover the new admin is in control and the old one, if another
/// address, is not; nothing but the admin has changed.
pub proof fn law_handover_moves_control(storage: Storage, old_admin: Address, new_admin: Address)
    requires
        storage.admin == Some(old_admin),
    ensures
        ({
            let handover = model::transfer_admin(storage, new_admin);
            let after = handover.storage;
            &&& handover.result is Ok
            &&& model::filled(after.admin, DataKey::Admin) == Ok::<Address, Abort>(new_admin)
            &&& after == Storage { admin: Some(new_admin), ..storage }
            &&& model::pause(after, new_admin).result is Ok
            &&& old_admin != new_admin ==> model::pause(after, old_admin).result == Err::<
                (),
                Abort,
            >(Abort::PauseRequiresAdmin)
        }),
{
}

/// An upgrade keeps all storage.
pub proof fn law_upgrade_keeps_storage(storage: Storage, new_wasm_hash: [u8; 32])
    ensures
        model::upgrade(storage, new_wasm_hash).storage == storage,
{
}

/// The admin changes only by `init` and by a handover.
pub proof fn law_admin_changes_only_by_handover(storage: Storage, contract: Address, call: Call)
    requires
        is_configured(storage),
        timely(storage, contract, call),
        call !is TransferAdmin,
    ensures
        react(storage, contract, call).storage.admin == storage.admin,
{
}

/// After any history the admin is whoever was put in charge last: by the
/// completed `init`, or by the last handover that succeeded. Before either
/// there is none.
pub proof fn law_admin_is_the_last_appointed(contract: Address, history: Seq<Call>, admin: Address)
    requires
        orderly(contract, history),
    ensures
        storage_after(contract, history).admin == Some(admin) <==> exists|i: int|
            #[trigger] last_appointed(contract, history, admin, i),
    decreases history.len(),
{
    if history.len() > 0 {
        let last = history.len() - 1;
        let earlier = history.drop_last();
        law_admin_is_the_last_appointed(contract, earlier, admin);
        assert(history.take(last) =~= earlier);
        assert(history[last] == history.last());
        assert forall|i: int| 0 <= i < last implies #[trigger] appointed_at(contract, history, i)
            == appointed_at(contract, earlier, i) by {
            assert(history.take(i) =~= earlier.take(i));
        }
        let kept = appointed_at(contract, history, last) is None;
        assert forall|i: int| 0 <= i < last implies #[trigger] last_appointed(
            contract,
            history,
            admin,
            i,
        ) == (last_appointed(contract, earlier, admin, i) && kept) by {
            if last_appointed(contract, history, admin, i) {
                assert forall|j: int| i < j < earlier.len() implies #[trigger] appointed_at(
                    contract,
                    earlier,
                    j,
                ) is None by {
                    assert(appointed_at(contract, history, j) is None);
                }
            }
        }
        if storage_after(contract, history).admin == Some(admin) {
            if kept {
                let i = choose|i: int| #[trigger] last_appointed(contract, earlier, admin, i);
                assert(last_appointed(contract, history, admin, i));
            } else {
                assert(last_appointed(contract, history, admin, last));
            }
        } else if exists|i: int| #[trigger] last_appointed(contract, history, admin, i) {
            let i = choose|i: int| #[trigger] last_appointed(contract, history, admin, i);
            if i < last {
                assert(last_appointed(contract, earlier, admin, i));
            }
        }
    }
}

// ---- authorization ----

/// Nothing is written, published or replaced ahead of the authorizations a
/// call asks for: these come first.
pub proof fn law_authorization_comes_first(
    storage: Storage,
    contract: Address,
    call: Call,
    i: int,
    j: int,
)
    requires
        0 <= i < j < react(storage, contract, call).effects.len(),
        react(storage, contract, call).effects[j] is RequireAuth,
    ensures
        react(storage, contract, call).effects[i] is RequireAuth,
{
}

/// Every call that gets anywhere has the authorization it needs: `init` of the
/// admin-to-be, a payment of the payer, administration of the stored admin,
/// and a handover of the new admin as well.
pub proof fn law_every_call_is_authorized(storage: Storage, contract: Address, call: Call)
    requires
        call !is Resume,
        react(storage, contract, call).result is Waiting || react(
            storage,
            contract,
            call,
        ).result == Progress::<Seq<u8>>::Returned(Ok(())),
    ensures
        ({
            let effects = react(storage, contract, call).effects;
            match call {
                Call::Init(config) => effects.contains(Effect::RequireAuth(config.admin)),
                Call::Pay { from, .. } => effects.contains(Effect::RequireAuth(from)),
                Call::TransferAdmin(new_admin) => {
                    &&& storage.admin matches Some(admin) && effects.contains(
                        Effect::RequireAuth(admin),
                    )
                    &&& effects.contains(Effect::RequireAuth(new_admin))
                },
                _ => storage.admin matches Some(admin) && effects.contains(
                    Effect::RequireAuth(admin),
                ),
            }
        }),
{
    let effects = react(storage, contract, call).effects;
    assert(effects[0] is RequireAuth);
    if call is TransferAdmin {
        assert(effects[1] is RequireAuth);
    }
}

/// An aborted call leaves storage as it was and has asked for nothing but
/// authorization.
pub proof fn law_aborted_calls_do_nothing(storage: Storage, contract: Address, call: Call)
    requires
        react(storage, contract, call).result is Aborted,
    ensures
        ({
            let aborted = react(storage, contract, call);
            &&& aborted.storage == storage
            &&& forall|i: int|
                0 <= i < aborted.effects.len() ==> #[trigger] aborted.effects[i] is RequireAuth
        }),
{
}

// ---- journal and events ----

/// The journal tells the whole story: carrying out its writes, in order, on
/// the storage a call found gives the storage the call left.
pub proof fn law_journal_accounts_for_storage(storage: Storage, contract: Address, call: Call)
    ensures
        replay(storage, react(storage, contract, call).effects) == react(
            storage,
            contract,
            call,
        ).storage,
{
    match call {
        Call::Init(_) | Call::Pay { .. } => {
            reveal_with_fuel(replay_first, 3);
        },
        Call::Pause(_) | Call::Unpause | Call::Upgrade(_) => {
            reveal_with_fuel(replay_first, 5);
        },
        Call::TransferAdmin(_) => {
            reveal_with_fuel(replay_first, 6);
        },
        Call::Resume(_, _) => {
            reveal_with_fuel(replay_first, 8);
        },
    }
}

/// Administrative events are real changes of state, and every change is
/// announced: `init`, `pause`, `unpause` and `transfer_admin` publish an event
/// if and only if they change storage.
pub proof fn law_events_are_state_changes(storage: Storage, contract: Address, call: Call)
    requires
        consistent(storage, contract),
        timely(storage, contract, call),
        match call {
            Call::Init(_) | Call::Pause(_) | Call::Unpause | Call::TransferAdmin(_) => true,
            Call::Resume(pending, _) => pending !is Transfer,
            _ => false,
        },
    ensures
        announces(react(storage, contract, call).effects) <==> react(
            storage,
            contract,
            call,
        ).storage != storage,
{
    let reaction = react(storage, contract, call);
    if reaction.storage != storage {
        assert(reaction.effects.last() is Publish);
    }
}

/// A call publishes at most one event.
pub proof fn law_one_event_per_call(
    storage: Storage,
    contract: Address,
    call: Call,
    i: int,
    j: int,
)
    requires
        0 <= i < react(storage, contract, call).effects.len(),
        0 <= j < react(storage, contract, call).effects.len(),
        react(storage, contract, call).effects[i] is Publish,
        react(storage, contract, call).effects[j] is Publish,
    ensures
        i == j,
{
}

/// An upgrade is announced exactly when the code is replaced, with the hash of
/// the new code and the admin who authorized it.
pub proof fn law_upgrades_are_announced(storage: Storage, new_wasm_hash: [u8; 32])
    ensures
        ({
            let effects = model::upgrade(storage, new_wasm_hash).effects;
            &&& announces(effects) <==> storage.admin is Some
            &&& effects.contains(Effect::UpdateWasm(new_wasm_hash)) <==> storage.admin is Some
            &&& storage.admin matches Some(admin) ==> effects.contains(
                Effect::Publish(Event::Upgraded { admin, new_wasm_hash }),
            )
        }),
{
    let effects = model::upgrade(storage, new_wasm_hash).effects;
    if storage.admin is Some {
        assert(effects[1] == Effect::<Seq<u8>>::UpdateWasm(new_wasm_hash));
        assert(effects[2] is Publish);
    }
}

/// Nothing is lost in the layout of events: topics and value determine the
/// event, so that a watcher can read asset, order, payer and amount back.
pub proof fn law_event_layout_is_faithful(a: Event<Seq<u8>>, b: Event<Seq<u8>>)
    requires
        a.topics() == b.topics(),
        a.payload() == b.payload(),
    ensures
        a == b,
{
    assert(a.topics()[0] == b.topics()[0]);
    assert(a.topics()[1] == b.topics()[1]);
    assert(a.topics().len() == 3 ==> a.topics()[2] == b.topics()[2]);
    law_symbols_identify_events(a, b);
}

/// The first topic identifies the kind of an event and, of a payment, the
/// asset.
pub proof fn law_symbols_identify_events(a: Event<Seq<u8>>, b: Event<Seq<u8>>)
    requires
        a.topics()[0] == b.topics()[0],
    ensures
        a is Init <==> b is Init,
        a is Payment <==> b is Payment,
        a is Paused <==> b is Paused,
        a is Unpaused <==> b is Unpaused,
        a is Upgraded <==> b is Upgraded,
        a is AdminTransferred <==> b is AdminTransferred,
        a is Payment ==> a->asset == b->asset,
{
    reveal_strlit("init");
    reveal_strlit("pay_usdc");
    reveal_strlit("pay_xlm");
    reveal_strlit("paused");
    reveal_strlit("unpaused");
    reveal_strlit("upgraded");
    reveal_strlit("admin_transferred");
    assert(a.symbol() == b.symbol());
    assert(a.symbol().len() == b.symbol().len());
    assert(a.symbol()[0] == b.symbol()[0]);
    assert(a.symbol()[1] == b.symbol()[1]);
}

// ---- time to live ----

/// Instance storage is never written without an extension of its time to live
/// being asked for in the same call, always with the same bounds, of which the
/// threshold is half the target.
pub proof fn law_writes_extend_instance_storage(
    storage: Storage,
    contract: Address,
    call: Call,
    i: int,
)
    requires
        0 <= i < react(storage, contract, call).effects.len(),
        react(storage, contract, call).effects[i] matches Effect::Write(slot) && slot.key_of()
            != DataKey::ReentrancyGuard,
    ensures
        react(storage, contract, call).effects.contains(model::extension()),
        INSTANCE_TTL_THRESHOLD < INSTANCE_TTL_MAX,
        INSTANCE_TTL_THRESHOLD * 2 == INSTANCE_TTL_MAX,
{
    let effects = react(storage, contract, call).effects;
    assert(effects[effects.len() - 2] == model::extension() || effects.last()
        == model::extension());
}

} // verus!
