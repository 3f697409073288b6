//! The contract on the Soroban test host: real token contracts, real
//! authorization, real events.

use soroban_sdk::testutils::{
    Address as _, ContractFunctionSet, EnvTestConfig, Events as _,
};
use soroban_sdk::{token, Bytes, BytesN, Env, FromVal, IntoVal, InvokeError, Symbol, TryFromVal, Val};
use stellar_card_receiver::event::{Payload, Topic};
use stellar_card_receiver::invocation::{Effect, Invocation};
use stellar_card_receiver::progress::{Progress, TokenCall};
use stellar_card_receiver::storage::{Slot, Storage};
use stellar_card_receiver::types::{Abort, Address};
use stellar_card_receiver::{DataKey, Error, Stellar_CardReceiver};

type HostAddress = soroban_sdk::Address;

// ---- the contract as the host sees it ----

fn plain(address: &HostAddress) -> Address {
    let mut strkey = [0u8; 56];
    address.to_string().copy_into_slice(&mut strkey);
    Address { strkey }
}

fn on_host(env: &Env, address: &Address) -> HostAddress {
    HostAddress::from_str(env, std::str::from_utf8(&address.strkey).unwrap())
}

fn key(env: &Env, key: DataKey) -> (Symbol,) {
    let name = match key {
        DataKey::Treasury => "Treasury",
        DataKey::UsdcContract => "UsdcContract",
        DataKey::XlmContract => "XlmContract",
        DataKey::Admin => "Admin",
        DataKey::Paused => "Paused",
        DataKey::ReentrancyGuard => "ReentrancyGuard",
    };
    (Symbol::new(env, name),)
}

fn stored_address(env: &Env, slot: DataKey) -> Option<Address> {
    let stored: Option<HostAddress> = env.storage().instance().get(&key(env, slot));
    stored.map(|address| plain(&address))
}

fn load(env: &Env) -> Storage {
    Storage {
        treasury: stored_address(env, DataKey::Treasury),
        usdc_contract: stored_address(env, DataKey::UsdcContract),
        xlm_contract: stored_address(env, DataKey::XlmContract),
        admin: stored_address(env, DataKey::Admin),
        paused: env.storage().instance().get(&key(env, DataKey::Paused)),
        reentrancy_guard: env.storage().temporary().get(&key(env, DataKey::ReentrancyGuard)),
    }
}

fn begin(env: &Env) -> Invocation {
    Invocation::new(plain(&env.current_contract_address()), load(env))
}

fn carry_out(env: &Env, invocation: &mut Invocation) {
    for effect in invocation.take_effects() {
        match effect {
            Effect::RequireAuth(address) => on_host(env, &address).require_auth(),
            Effect::Write(slot) => {
                let at = key(env, slot.key());
                let value: Val = match slot {
                    Slot::Treasury(a) | Slot::UsdcContract(a) | Slot::XlmContract(a)
                    | Slot::Admin(a) => on_host(env, &a).into_val(env),
                    Slot::Paused(flag) | Slot::ReentrancyGuard(flag) => flag.into_val(env),
                };
                if slot.is_temporary() {
                    env.storage().temporary().set(&at, &value);
                } else {
                    env.storage().instance().set(&at, &value);
                }
            }
            Effect::ExtendInstanceTtl { threshold, extend_to } => {
                env.storage().instance().extend_ttl(threshold, extend_to)
            }
            Effect::Publish(event) => {
                let (topics, payload) = event.into_parts();
                let mut on_ledger: soroban_sdk::Vec<Val> = soroban_sdk::Vec::new(env);
                for topic in topics {
                    on_ledger.push_back(match topic {
                        Topic::Symbol(name) => Symbol::new(env, name).into_val(env),
                        Topic::Bytes(bytes) => Bytes::from_slice(env, &bytes).into_val(env),
                        Topic::Address(address) => on_host(env, &address).into_val(env),
                    });
                }
                let value: Val = match payload {
                    Payload::Addresses(a, b, c) => {
                        (on_host(env, &a), on_host(env, &b), on_host(env, &c)).into_val(env)
                    }
                    Payload::Amount(amount) => amount.into_val(env),
                    Payload::Flag(flag) => flag.into_val(env),
                    Payload::Hash(hash) => BytesN::from_array(env, &hash).into_val(env),
                    Payload::Unit => ().into_val(env),
                };
                #[allow(deprecated)]
                env.events().publish(on_ledger, value);
            }
            Effect::UpdateWasm(hash) => {
                env.deployer().update_current_contract_wasm(BytesN::from_array(env, &hash))
            }
        }
    }
}

fn answer(env: &Env, call: &TokenCall) -> bool {
    match call {
        TokenCall::Decimals { token } => {
            token::Client::new(env, &on_host(env, token)).try_decimals().is_ok()
        }
        TokenCall::Transfer { token, from, to, amount } => {
            let to = on_host(env, to);
            token::Client::new(env, &on_host(env, token))
                .try_transfer(&on_host(env, from), &to, amount)
                .is_ok()
        }
    }
}

fn run(env: &Env, mut invocation: Invocation, mut progress: Progress<Vec<u8>>) -> Val {
    loop {
        carry_out(env, &mut invocation);
        match progress {
            Progress::Returned(Ok(())) => return ().into_val(env),
            Progress::Returned(Err(error)) => {
                return soroban_sdk::Error::from_contract_error(error.code()).into()
            }
            Progress::Aborted(abort) => panic!("{}", abort.message()),
            Progress::Waiting(pending) => {
                let succeeded = answer(env, &pending.call());
                invocation = begin(env);
                progress = Stellar_CardReceiver::resume(&mut invocation, pending, succeeded);
            }
        }
    }
}

fn done(env: &Env, mut invocation: Invocation, result: Result<(), Abort>) -> Val {
    carry_out(env, &mut invocation);
    match result {
        Ok(()) => ().into_val(env),
        Err(abort) => panic!("{}", abort.message()),
    }
}

fn show(env: &Env, slot: Result<Address, Abort>) -> Val {
    match slot {
        Ok(address) => on_host(env, &address).into_val(env),
        Err(abort) => panic!("{}", abort.message()),
    }
}

struct Contract;

impl ContractFunctionSet for Contract {
    fn call(&self, func: &str, env: Env, args: &[Val]) -> Option<Val> {
        if func.starts_with("__") {
            return None;
        }
        let address = |i: usize| plain(&HostAddress::from_val(&env, &args[i]));
        let mut invocation = begin(&env);
        Some(match func {
            "init" => {
                let progress = Stellar_CardReceiver::init(
                    &mut invocation,
                    address(0),
                    address(1),
                    address(2),
                    address(3),
                );
                run(&env, invocation, progress)
            }
            "pay_usdc" | "pay_xlm" => {
                let amount = i128::from_val(&env, &args[1]);
                let order_id: Vec<u8> = Bytes::from_val(&env, &args[2]).iter().collect();
                let progress = if func == "pay_usdc" {
                    Stellar_CardReceiver::pay_usdc(&mut invocation, address(0), amount, order_id)
                } else {
                    Stellar_CardReceiver::pay_xlm(&mut invocation, address(0), amount, order_id)
                };
                run(&env, invocation, progress)
            }
            "pause" => {
                let result = Stellar_CardReceiver::pause(&mut invocation, address(0));
                done(&env, invocation, result)
            }
            "unpause" => {
                let result = Stellar_CardReceiver::unpause(&mut invocation);
                done(&env, invocation, result)
            }
            "upgrade" => {
                let hash = BytesN::<32>::from_val(&env, &args[0]).to_array();
                let result = Stellar_CardReceiver::upgrade(&mut invocation, hash);
                done(&env, invocation, result)
            }
            "transfer_admin" => {
                let result = Stellar_CardReceiver::transfer_admin(&mut invocation, address(0));
                done(&env, invocation, result)
            }
            "treasury" => show(&env, Stellar_CardReceiver::treasury(&invocation)),
            "usdc_contract" => show(&env, Stellar_CardReceiver::usdc_contract(&invocation)),
            "xlm_contract" => show(&env, Stellar_CardReceiver::xlm_contract(&invocation)),
            "admin" => show(&env, Stellar_CardReceiver::admin(&invocation)),
            "is_paused_view" => Stellar_CardReceiver::is_paused_view(&invocation).into_val(&env),
            _ => return None,
        })
    }
}

// ---- fixture ----

struct Client<'a> {
    env: &'a Env,
    id: &'a HostAddress,
}

type Tried<T> = Result<T, InvokeError>;

impl<'a> Client<'a> {
    fn try_call<T>(&self, func: &str, args: &[Val]) -> Tried<T>
    where
        T: TryFromVal<Env, Val>,
    {
        let args = soroban_sdk::Vec::from_slice(self.env, args);
        match self.env.try_invoke_contract::<T, InvokeError>(
            self.id,
            &Symbol::new(self.env, func),
            args,
        ) {
            Ok(Ok(value)) => Ok(value),
            Ok(Err(_)) => panic!("unexpected type of result"),
            Err(Ok(error)) => Err(error),
            Err(Err(error)) => Err(error),
        }
    }

    fn call<T>(&self, func: &str, args: &[Val]) -> T
    where
        T: TryFromVal<Env, Val>,
    {
        let args = soroban_sdk::Vec::from_slice(self.env, args);
        self.env.invoke_contract(self.id, &Symbol::new(self.env, func), args)
    }

    fn init(&self, admin: &HostAddress, treasury: &HostAddress, usdc: &HostAddress, xlm: &HostAddress) {
        self.call("init", &[admin.to_val(), treasury.to_val(), usdc.to_val(), xlm.to_val()])
    }

    fn pay_args(&self, from: &HostAddress, amount: &i128, order_id: &Bytes) -> [Val; 3] {
        [from.to_val(), amount.into_val(self.env), order_id.to_val()]
    }

    fn pay_usdc(&self, from: &HostAddress, amount: &i128, order_id: &Bytes) {
        self.call("pay_usdc", &self.pay_args(from, amount, order_id))
    }

    fn try_pay_usdc(&self, from: &HostAddress, amount: &i128, order_id: &Bytes) -> Tried<()> {
        self.try_call("pay_usdc", &self.pay_args(from, amount, order_id))
    }

    fn pay_xlm(&self, from: &HostAddress, amount: &i128, order_id: &Bytes) {
        self.call("pay_xlm", &self.pay_args(from, amount, order_id))
    }

    fn try_pay_xlm(&self, from: &HostAddress, amount: &i128, order_id: &Bytes) -> Tried<()> {
        self.try_call("pay_xlm", &self.pay_args(from, amount, order_id))
    }

    fn pause(&self, caller: &HostAddress) {
        self.call("pause", &[caller.to_val()])
    }

    fn unpause(&self) {
        self.call("unpause", &[])
    }

    fn upgrade(&self, hash: &BytesN<32>) {
        self.call("upgrade", &[hash.to_val()])
    }

    fn transfer_admin(&self, new_admin: &HostAddress) {
        self.call("transfer_admin", &[new_admin.to_val()])
    }

    fn address(&self, getter: &str) -> HostAddress {
        self.call(getter, &[])
    }

    fn try_address(&self, getter: &str) -> Tried<HostAddress> {
        self.try_call(getter, &[])
    }

    fn is_paused_view(&self) -> bool {
        self.call("is_paused_view", &[])
    }
}

struct Fixture {
    env: Env,
    contract_id: HostAddress,
    admin: HostAddress,
    treasury: HostAddress,
    payer: HostAddress,
    usdc: HostAddress,
    xlm_sac: HostAddress,
}

fn test_env() -> Env {
    let env = Env::new_with_config(EnvTestConfig { capture_snapshot_at_drop: false });
    env.mock_all_auths();
    env
}

impl Fixture {
    fn new() -> Self {
        let env = test_env();
        let admin = HostAddress::generate(&env);
        let treasury = HostAddress::generate(&env);
        let payer = HostAddress::generate(&env);
        let usdc = env.register_stellar_asset_contract_v2(admin.clone()).address();
        let xlm_sac = env.register_stellar_asset_contract_v2(admin.clone()).address();
        let contract_id = env.register(Contract, ());
        Fixture { env, contract_id, admin, treasury, payer, usdc, xlm_sac }
    }

    fn client(&self) -> Client<'_> {
        Client { env: &self.env, id: &self.contract_id }
    }

    fn init(&self) {
        self.client().init(&self.admin, &self.treasury, &self.usdc, &self.xlm_sac);
    }

    fn mint_usdc(&self, to: &HostAddress, amount: i128) {
        token::StellarAssetClient::new(&self.env, &self.usdc).mint(to, &amount);
    }

    fn mint_xlm(&self, to: &HostAddress, amount: i128) {
        token::StellarAssetClient::new(&self.env, &self.xlm_sac).mint(to, &amount);
    }

    fn usdc_balance(&self, addr: &HostAddress) -> i128 {
        token::Client::new(&self.env, &self.usdc).balance(addr)
    }

    fn xlm_balance(&self, addr: &HostAddress) -> i128 {
        token::Client::new(&self.env, &self.xlm_sac).balance(addr)
    }

    /// The events of the last invocation that the contract published under
    /// `name`: topics and value.
    fn events(&self, name: &str) -> Vec<(soroban_sdk::Vec<Val>, Val)> {
        let published = self.env.events().all().filter_by_contract(&self.contract_id);
        let mut found = Vec::new();
        for event in published.events() {
            let soroban_sdk::xdr::ContractEventBody::V0(body) = &event.body;
            let mut topics: soroban_sdk::Vec<Val> = soroban_sdk::Vec::new(&self.env);
            for topic in body.topics.iter() {
                topics.push_back(Val::try_from_val(&self.env, topic).unwrap());
            }
            let symbol = Symbol::from_val(&self.env, &topics.get(0).unwrap());
            if symbol == Symbol::new(&self.env, name) {
                found.push((topics, Val::try_from_val(&self.env, &body.data).unwrap()));
            }
        }
        found
    }

    fn topic<T>(&self, topics: &soroban_sdk::Vec<Val>, i: u32) -> T
    where
        T: FromVal<Env, Val>,
    {
        T::from_val(&self.env, &topics.get(i).unwrap())
    }
}

fn order_bytes(env: &Env, s: &str) -> Bytes {
    Bytes::from_slice(env, s.as_bytes())
}

fn failure(error: Error) -> Tried<()> {
    Err(InvokeError::Contract(error.code()))
}

// ---- configuration ----

#[test]
fn test_init_stores_documented_addresses() {
    let f = Fixture::new();
    f.init();
    assert_eq!(f.client().address("treasury"), f.treasury, "treasury mismatch");
    assert_eq!(f.client().address("usdc_contract"), f.usdc, "usdc_contract mismatch");
    assert_eq!(f.client().address("xlm_contract"), f.xlm_sac, "xlm_contract mismatch");
    assert_eq!(f.client().address("admin"), f.admin, "admin mismatch");
}

#[test]
fn test_init_emits_documented_event() {
    let f = Fixture::new();
    f.init();
    let found = f.events("init");
    assert_eq!(found.len(), 1, "init event not found");
    let (topics, data) = &found[0];
    assert_eq!(topics.len(), 2);
    assert_eq!(f.topic::<HostAddress>(topics, 1), f.admin);
    let config = <(HostAddress, HostAddress, HostAddress)>::try_from_val(&f.env, data).unwrap();
    assert_eq!(config, (f.treasury.clone(), f.usdc.clone(), f.xlm_sac.clone()));
}

#[test]
#[should_panic(expected = "already initialized")]
fn test_init_panics_already_initialized_as_documented() {
    let f = Fixture::new();
    f.init();
    f.init();
}

#[test]
fn init_refuses_an_address_that_is_no_token() {
    let f = Fixture::new();
    let no_token = f.env.register(Contract, ());
    for (usdc, xlm) in [(&no_token, &f.xlm_sac), (&f.usdc, &no_token)] {
        let args = [f.admin.to_val(), f.treasury.to_val(), usdc.to_val(), xlm.to_val()];
        assert!(f.client().try_call::<()>("init", &args).is_err());
        assert!(f.client().try_address("admin").is_err());
    }
    f.init();
    assert_eq!(f.client().address("admin"), f.admin);
}

#[test]
fn test_try_getters_return_err_before_init_as_documented() {
    let env = test_env();
    let id = env.register(Contract, ());
    let c = Client { env: &env, id: &id };
    assert!(c.try_address("treasury").is_err(), "try_treasury should Err before init");
    assert!(c.try_address("usdc_contract").is_err(), "try_usdc_contract should Err before init");
    assert!(c.try_address("xlm_contract").is_err(), "try_xlm_contract should Err before init");
    assert!(c.try_address("admin").is_err(), "try_admin should Err before init");
}

#[test]
fn test_is_paused_view_documented_initial_state() {
    let f = Fixture::new();
    f.init();
    assert!(!f.client().is_paused_view(), "contract must start unpaused as documented");
}

// ---- payments ----

#[test]
fn test_pay_usdc_returns_invalid_amount_for_zero() {
    let f = Fixture::new();
    f.init();
    let res = f.client().try_pay_usdc(&f.payer, &0_i128, &order_bytes(&f.env, "z"));
    assert_eq!(
        res,
        failure(Error::InvalidAmount),
        "documented InvalidAmount error not returned for zero amount"
    );
}

#[test]
fn test_pay_usdc_returns_invalid_amount_for_negative() {
    let f = Fixture::new();
    f.init();
    let res = f.client().try_pay_usdc(&f.payer, &(-1_i128), &order_bytes(&f.env, "n"));
    assert_eq!(
        res,
        failure(Error::InvalidAmount),
        "documented InvalidAmount error not returned for negative amount"
    );
}

#[test]
fn test_pay_usdc_returns_contract_paused_as_documented() {
    let f = Fixture::new();
    f.init();
    f.client().pause(&f.admin);
    let res = f.client().try_pay_usdc(&f.payer, &1_000_000_i128, &order_bytes(&f.env, "p"));
    assert_eq!(
        res,
        failure(Error::ContractPaused),
        "documented ContractPaused error not returned when paused"
    );
}

#[test]
fn test_pay_usdc_returns_transfer_failed_as_documented() {
    let f = Fixture::new();
    f.init();
    let amount = 10_000_000_i128;
    f.mint_usdc(&f.payer, amount / 2);
    let res = f.client().try_pay_usdc(&f.payer, &amount, &order_bytes(&f.env, "insuf"));
    assert_eq!(
        res,
        failure(Error::TransferFailed),
        "documented TransferFailed error not returned on insufficient balance"
    );
}

#[test]
fn test_pay_usdc_emits_documented_event_schema() {
    let f = Fixture::new();
    f.init();
    let amount = 15_000_000_i128;
    f.mint_usdc(&f.payer, amount);
    let oid = order_bytes(&f.env, "doc-usdc-event");
    f.client().pay_usdc(&f.payer, &amount, &oid);

    let found = f.events("pay_usdc");
    assert_eq!(found.len(), 1, "pay_usdc event not found");
    let (topics, data) = &found[0];
    assert_eq!(topics.len(), 3);
    assert_eq!(f.topic::<Bytes>(topics, 1), oid, "order_id topic mismatch");
    assert_eq!(f.topic::<HostAddress>(topics, 2), f.payer, "from topic mismatch");
    assert_eq!(i128::from_val(&f.env, data), amount, "amount value mismatch");
    assert_eq!(f.usdc_balance(&f.payer), 0);
    assert_eq!(f.usdc_balance(&f.treasury), amount);
}

#[test]
fn test_pay_xlm_emits_documented_event_schema() {
    let f = Fixture::new();
    f.init();
    let amount = 20_000_000_i128;
    f.mint_xlm(&f.payer, amount);
    let oid = order_bytes(&f.env, "doc-xlm-event");
    f.client().pay_xlm(&f.payer, &amount, &oid);

    let found = f.events("pay_xlm");
    assert_eq!(found.len(), 1, "pay_xlm event not found");
    let (topics, data) = &found[0];
    assert_eq!(f.topic::<Bytes>(topics, 1), oid);
    assert_eq!(f.topic::<HostAddress>(topics, 2), f.payer);
    assert_eq!(i128::from_val(&f.env, data), amount);
    assert_eq!(f.xlm_balance(&f.treasury), amount);
}

#[test]
fn test_pay_xlm_documented_errors() {
    let f = Fixture::new();
    f.init();
    assert_eq!(
        f.client().try_pay_xlm(&f.payer, &0_i128, &order_bytes(&f.env, "z")),
        failure(Error::InvalidAmount)
    );
    assert_eq!(
        f.client().try_pay_xlm(&f.payer, &(-5_i128), &order_bytes(&f.env, "n")),
        failure(Error::InvalidAmount)
    );
    f.client().pause(&f.admin);
    assert_eq!(
        f.client().try_pay_xlm(&f.payer, &1_000_000_i128, &order_bytes(&f.env, "p")),
        failure(Error::ContractPaused)
    );
    f.client().unpause();
    assert_eq!(
        f.client().try_pay_xlm(&f.payer, &5_000_000_i128, &order_bytes(&f.env, "i")),
        failure(Error::TransferFailed)
    );
}

#[test]
fn test_pay_usdc_documented_no_partial_transfer_on_failure() {
    let f = Fixture::new();
    f.init();
    let amount = 10_000_000_i128;
    let available = amount / 2;
    f.mint_usdc(&f.payer, available);
    let _ = f.client().try_pay_usdc(&f.payer, &amount, &order_bytes(&f.env, "partial"));
    assert_eq!(f.usdc_balance(&f.payer), available, "payer balance must be unchanged");
    assert_eq!(f.usdc_balance(&f.treasury), 0, "treasury must receive nothing");
}

#[test]
fn test_no_custody_invariant_usdc_as_documented() {
    let f = Fixture::new();
    f.init();
    let amount = 8_000_000_i128;
    f.mint_usdc(&f.payer, amount);
    f.client().pay_usdc(&f.payer, &amount, &order_bytes(&f.env, "nc"));
    assert_eq!(
        f.usdc_balance(&f.contract_id),
        0,
        "contract must not hold a USDC balance after pay_usdc"
    );
}

#[test]
fn test_no_custody_invariant_xlm_as_documented() {
    let f = Fixture::new();
    f.init();
    let amount = 8_000_000_i128;
    f.mint_xlm(&f.payer, amount);
    f.client().pay_xlm(&f.payer, &amount, &order_bytes(&f.env, "nc"));
    assert_eq!(
        f.xlm_balance(&f.contract_id),
        0,
        "contract must not hold an XLM balance after pay_xlm"
    );
}

#[test]
fn a_failed_payment_does_not_block_the_next() {
    let f = Fixture::new();
    f.init();
    let oid = order_bytes(&f.env, "again");
    assert_eq!(
        f.client().try_pay_usdc(&f.payer, &7_i128, &oid),
        failure(Error::TransferFailed)
    );
    f.mint_usdc(&f.payer, 7);
    assert_eq!(f.client().try_pay_usdc(&f.payer, &7_i128, &oid), Ok(()));
    f.mint_xlm(&f.payer, 9);
    assert_eq!(f.client().try_pay_xlm(&f.payer, &9_i128, &oid), Ok(()));
    assert_eq!(f.usdc_balance(&f.treasury), 7);
    assert_eq!(f.xlm_balance(&f.treasury), 9);
}

#[test]
fn a_payment_needs_the_payer() {
    let f = Fixture::new();
    f.init();
    f.mint_usdc(&f.payer, 100);
    f.env.set_auths(&[]);
    let res = f.client().try_pay_usdc(&f.payer, &100_i128, &order_bytes(&f.env, "unsigned"));
    assert_eq!(res, Err(InvokeError::Abort));
    assert_eq!(f.usdc_balance(&f.payer), 100);
    assert_eq!(f.usdc_balance(&f.treasury), 0);
}

#[test]
fn a_held_guard_aborts_payments() {
    let f = Fixture::new();
    f.init();
    f.mint_usdc(&f.payer, 5);
    f.env.as_contract(&f.contract_id, || {
        f.env.storage().temporary().set(&key(&f.env, DataKey::ReentrancyGuard), &true);
    });
    let oid = order_bytes(&f.env, "nested");
    assert_eq!(f.client().try_pay_usdc(&f.payer, &5_i128, &oid), Err(InvokeError::Abort));
    assert_eq!(f.client().try_pay_xlm(&f.payer, &5_i128, &oid), Err(InvokeError::Abort));
    assert_eq!(f.usdc_balance(&f.payer), 5);
}

// ---- administration ----

#[test]
fn test_pause_emits_documented_event() {
    let f = Fixture::new();
    f.init();
    f.client().pause(&f.admin);
    let found = f.events("paused");
    assert_eq!(found.len(), 1, "paused event not found");
    let (topics, data) = &found[0];
    assert_eq!(f.topic::<HostAddress>(topics, 1), f.admin);
    assert!(bool::try_from_val(&f.env, data).unwrap(), "documented value should be true");
}

#[test]
fn test_pause_idempotency_as_documented() {
    let f = Fixture::new();
    f.init();
    f.client().pause(&f.admin);
    assert_eq!(f.events("paused").len(), 1, "first pause should emit one event");
    f.client().pause(&f.admin);
    assert_eq!(f.events("paused").len(), 0, "idempotent no-op must not emit a second event");
}

#[test]
fn test_unpause_emits_documented_event() {
    let f = Fixture::new();
    f.init();
    f.client().pause(&f.admin);
    f.client().unpause();
    let found = f.events("unpaused");
    assert_eq!(found.len(), 1, "unpaused event not found");
    let (topics, data) = &found[0];
    assert_eq!(f.topic::<HostAddress>(topics, 1), f.admin);
    assert!(!bool::try_from_val(&f.env, data).unwrap(), "documented value should be false");
}

#[test]
fn test_unpause_idempotency_as_documented() {
    let f = Fixture::new();
    f.init();
    f.client().unpause();
    assert_eq!(f.events("unpaused").len(), 0, "idempotent no-op must not emit an event");
}

#[test]
fn test_transfer_admin_emits_documented_event() {
    let f = Fixture::new();
    f.init();
    let new_admin = HostAddress::generate(&f.env);
    f.client().transfer_admin(&new_admin);
    let found = f.events("admin_transferred");
    assert_eq!(found.len(), 1, "admin_transferred event not found");
    let (topics, data) = &found[0];
    assert_eq!(f.topic::<HostAddress>(topics, 1), f.admin, "old admin topic mismatch");
    assert_eq!(f.topic::<HostAddress>(topics, 2), new_admin, "new admin topic mismatch");
    assert!(data.is_void());
}

#[test]
fn test_transfer_admin_documented_two_step_result() {
    let f = Fixture::new();
    f.init();
    let new_admin = HostAddress::generate(&f.env);
    f.client().transfer_admin(&new_admin);
    assert_eq!(
        f.client().address("admin"),
        new_admin,
        "admin getter must return new_admin after transfer"
    );
    f.client().pause(&new_admin);
    assert!(f.client().is_paused_view());
}

#[test]
fn handover_to_the_current_admin_emits_nothing() {
    let f = Fixture::new();
    f.init();
    f.client().transfer_admin(&f.admin);
    assert_eq!(f.events("admin_transferred").len(), 0);
    assert_eq!(f.client().address("admin"), f.admin);
}

#[test]
#[should_panic(expected = "pause requires admin")]
fn test_pause_panics_with_documented_message_for_non_admin() {
    let f = Fixture::new();
    f.init();
    let non_admin = HostAddress::generate(&f.env);
    f.client().pause(&non_admin);
}

/// The smallest code the host accepts: an empty module that names the
/// protocol it is built for.
const SMALL_WASM: [u8; 40] = [
    0x00, 0x61, 0x73, 0x6d, 0x01, 0x00, 0x00, 0x00, // magic and version
    0x00, 0x1e, 0x11, // custom section, 30 bytes; name of 17 bytes
    b'c', b'o', b'n', b't', b'r', b'a', b'c', b't', b'e', b'n', b'v', b'm', b'e', b't', b'a', b'v',
    b'0', 0, 0, 0, 0, // interface version
    0, 0, 0, 22, // protocol
    0, 0, 0, 0, // no pre-release
];

#[test]
fn test_upgrade_emits_documented_event() {
    let f = Fixture::new();
    f.init();
    let new_hash = f.env.deployer().upload_contract_wasm(Bytes::from_array(&f.env, &SMALL_WASM));
    f.client().upgrade(&new_hash);
    let found = f.events("upgraded");
    assert_eq!(found.len(), 1, "upgrade event not found");
    let (topics, data) = &found[0];
    assert_eq!(f.topic::<HostAddress>(topics, 1), f.admin);
    assert_eq!(BytesN::<32>::from_val(&f.env, data), new_hash);
}
