//! The contract's entrypoints.

use vstd::prelude::*;

use crate::event::Event;
use crate::invocation::Invocation;
use crate::model;
use crate::progress::{Config, Payment, Pending, Progress};
use crate::storage::Slot;
use crate::types::{Abort, Address, Asset, DataKey, Error};

verus! {

/// Target time to live of instance storage, in ledgers: about 1000 days at one
/// ledger every five seconds. A network may cap it further.
pub const INSTANCE_TTL_MAX: u32 = 17_280_000;

/// Remaining time to live below which instance storage is really extended.
///
/// Half of [`INSTANCE_TTL_MAX`], so that an extension is paid for about once
/// in 500 days of activity instead of on nearly every call.
pub const INSTANCE_TTL_THRESHOLD: u32 = INSTANCE_TTL_MAX / 2;

/// The card receiver contract: it forwards USDC and XLM payments to a treasury
/// and announces each with the order it belongs to.
///
/// The struct carries no state: every entrypoint works on the [`Invocation`]
/// it is given.
pub struct Stellar_CardReceiver;

impl Stellar_CardReceiver {
    /// Configures the contract; works once.
    ///
    /// Waits for both token contracts to be probed, USDC first. The address
    /// checks, and the order in which they are made, are those of
    /// [`model::refusal`].
    pub fn init(
        env: &mut Invocation,
        admin: Address,
        treasury: Address,
        usdc_contract: Address,
        xlm_contract: Address,
    ) -> (progress: Progress<Vec<u8>>)
        ensures
            ({
                let reaction = model::init(
                    old(env)@.storage,
                    old(env)@.contract,
                    Config { admin, treasury, usdc_contract, xlm_contract },
                );
                &&& reaction.leads(old(env)@, final(env)@)
                &&& progress@ == reaction.result
            }),
    {
        env.require_auth(admin);

        if env.storage().admin.is_some() {
            return Progress::Aborted(Abort::AlreadyInitialized);
        }
        let this = env.contract();
        if admin == this {
            return Progress::Aborted(Abort::AdminIsContract);
        }
        if treasury == this {
            return Progress::Aborted(Abort::TreasuryIsContract);
        }
        if admin == treasury {
            return Progress::Aborted(Abort::AdminIsTreasury);
        }
        if usdc_contract == xlm_contract {
            return Progress::Aborted(Abort::SameTokenContracts);
        }
        if usdc_contract == this {
            return Progress::Aborted(Abort::UsdcIsContract);
        }
        if xlm_contract == this {
            return Progress::Aborted(Abort::XlmIsContract);
        }
        if treasury == usdc_contract || treasury == xlm_contract {
            return Progress::Aborted(Abort::TreasuryIsToken);
        }
        Progress::Waiting(
            Pending::UsdcProbe(Config { admin, treasury, usdc_contract, xlm_contract }),
        )
    }

    /// Takes the reentrancy guard ahead of a token transfer; fails if another
    /// payment holds it.
    pub fn _enter(env: &mut Invocation) -> (entered: Result<(), Abort>)
        ensures
            ({
                let reaction = model::enter(old(env)@.storage);
                &&& reaction.leads(old(env)@, final(env)@)
                &&& entered == reaction.result
            }),
    {
        if let Some(true) = env.storage().reentrancy_guard {
            return Err(Abort::ReentrancyDetected);
        }
        env.write(Slot::ReentrancyGuard(true));
        Ok(())
    }

    /// Releases the reentrancy guard once a token transfer is answered.
    pub fn _exit(env: &mut Invocation)
        ensures
            model::exit(old(env)@.storage).leads(old(env)@, final(env)@),
    {
        env.write(Slot::ReentrancyGuard(false));
    }

    /// Forwards USDC from `from` to the treasury.
    ///
    /// `amount` is in units of 10^-7 USDC. `order_id` identifies the order; any
    /// byte string will do, the empty one included.
    ///
    /// Waits for the transfer unless the payment is refused.
    pub fn pay_usdc(
        env: &mut Invocation,
        from: Address,
        amount: i128,
        order_id: Vec<u8>,
    ) -> (progress: Progress<Vec<u8>>)
        ensures
            ({
                let reaction = model::pay(
                    old(env)@.storage,
                    Asset::Usdc,
                    from,
                    amount,
                    order_id@,
                );
                &&& reaction.leads(old(env)@, final(env)@)
                &&& progress@ == reaction.result
            }),
    {
        Self::pay(env, Asset::Usdc, from, amount, order_id)
    }

    /// Forwards XLM from `from` to the treasury.
    ///
    /// As [`Self::pay_usdc`], through the XLM contract; `amount` is in stroops.
    pub fn pay_xlm(
        env: &mut Invocation,
        from: Address,
        amount: i128,
        order_id: Vec<u8>,
    ) -> (progress: Progress<Vec<u8>>)
        ensures
            ({
                let reaction = model::pay(old(env)@.storage, Asset::Xlm, from, amount, order_id@);
                &&& reaction.leads(old(env)@, final(env)@)
                &&& progress@ == reaction.result
            }),
    {
        Self::pay(env, Asset::Xlm, from, amount, order_id)
    }

    /// A payment in either asset, up to the token transfer.
    fn pay(
        env: &mut Invocation,
        asset: Asset,
        from: Address,
        amount: i128,
        order_id: Vec<u8>,
    ) -> (progress: Progress<Vec<u8>>)
        ensures
            ({
                let reaction = model::pay(old(env)@.storage, asset, from, amount, order_id@);
                &&& reaction.leads(old(env)@, final(env)@)
                &&& progress@ == reaction.result
            }),
    {
        if Self::is_paused(env) {
            return Progress::Returned(Err(Error::ContractPaused));
        }
        if amount <= 0 {
            return Progress::Returned(Err(Error::InvalidAmount));
        }
        env.require_auth(from);

        let to = match Self::treasury(env) {
            Ok(address) => address,
            Err(abort) => return Progress::Aborted(abort),
        };
        let token = match Self::token_contract(env, asset) {
            Ok(address) => address,
            Err(abort) => return Progress::Aborted(abort),
        };
        if let Err(abort) = Self::_enter(env) {
            return Progress::Aborted(abort);
        }
        Progress::Waiting(
            Pending::Transfer(Payment { asset, token, from, to, amount, order_id }),
        )
    }

    /// The token contract of an asset.
    fn token_contract(env: &Invocation, asset: Asset) -> (token: Result<Address, Abort>)
        ensures
            token == model::filled(env@.storage.token(asset), model::token_key(asset)),
    {
        match asset {
            Asset::Usdc => Self::usdc_contract(env),
            Asset::Xlm => Self::xlm_contract(env),
        }
    }

    /// Goes on with an entrypoint whose token call has been answered:
    /// `succeeded` tells whether the call returned without an error.
    pub fn resume(env: &mut Invocation, pending: Pending<Vec<u8>>, succeeded: bool) -> (progress:
        Progress<Vec<u8>>)
        ensures
            ({
                let reaction = model::resume(old(env)@.storage, pending@, succeeded);
                &&& reaction.leads(old(env)@, final(env)@)
                &&& progress@ == reaction.result
            }),
    {
        match pending {
            Pending::UsdcProbe(config) => if succeeded {
                Progress::Waiting(Pending::XlmProbe(config))
            } else {
                Progress::Aborted(Abort::UsdcNotToken)
            },
            Pending::XlmProbe(config) => if succeeded {
                Self::configure(env, config);
                Progress::Returned(Ok(()))
            } else {
                Progress::Aborted(Abort::XlmNotToken)
            },
            Pending::Transfer(payment) => Progress::Returned(
                Self::settle(env, payment, succeeded),
            ),
        }
    }

    /// Stores the configuration and announces it.
    fn configure(env: &mut Invocation, config: Config)
        ensures
            model::configured(old(env)@.storage, config).leads(old(env)@, final(env)@),
    {
        env.write(Slot::Admin(config.admin));
        env.write(Slot::Treasury(config.treasury));
        env.write(Slot::UsdcContract(config.usdc_contract));
        env.write(Slot::XlmContract(config.xlm_contract));
        env.write(Slot::Paused(false));
        Self::extend_instance_ttl(env);
        env.publish(
            Event::Init {
                admin: config.admin,
                treasury: config.treasury,
                usdc_contract: config.usdc_contract,
                xlm_contract: config.xlm_contract,
            },
        );
    }

    /// Ends a payment: releases the guard, and announces the payment if the
    /// funds moved.
    fn settle(env: &mut Invocation, payment: Payment<Vec<u8>>, moved: bool) -> (result: Result<
        (),
        Error,
    >)
        ensures
            ({
                let reaction = model::settled(old(env)@.storage, payment@, moved);
                &&& reaction.leads(old(env)@, final(env)@)
                &&& reaction.result == Progress::<Seq<u8>>::Returned(result)
            }),
    {
        Self::_exit(env);
        if !moved {
            return Err(Error::TransferFailed);
        }
        env.publish(
            Event::Payment {
                asset: payment.asset,
                order_id: payment.order_id,
                from: payment.from,
                amount: payment.amount,
            },
        );
        Self::extend_instance_ttl(env);
        Ok(())
    }

    /// Halts all payments. Only the admin may do so; on a paused contract this
    /// is a no-op.
    pub fn pause(env: &mut Invocation, caller: Address) -> (result: Result<(), Abort>)
        ensures
            ({
                let reaction = model::pause(old(env)@.storage, caller);
                &&& reaction.leads(old(env)@, final(env)@)
                &&& result == reaction.result
            }),
    {
        env.require_auth(caller);
        match Self::admin(env) {
            Ok(admin) => if caller != admin {
                return Err(Abort::PauseRequiresAdmin);
            },
            Err(abort) => return Err(abort),
        }
        if Self::is_paused(env) {
            return Ok(());
        }
        env.write(Slot::Paused(true));
        Self::extend_instance_ttl(env);
        env.publish(Event::Paused { caller });
        Ok(())
    }

    /// Resumes payments. Only the admin may do so; on an unpaused contract
    /// this is a no-op.
    pub fn unpause(env: &mut Invocation) -> (result: Result<(), Abort>)
        ensures
            ({
                let reaction = model::unpause(old(env)@.storage);
                &&& reaction.leads(old(env)@, final(env)@)
                &&& result == reaction.result
            }),
    {
        let admin = match Self::admin(env) {
            Ok(address) => address,
            Err(abort) => return Err(abort),
        };
        env.require_auth(admin);
        if !Self::is_paused(env) {
            return Ok(());
        }
        env.write(Slot::Paused(false));
        Self::extend_instance_ttl(env);
        env.publish(Event::Unpaused { admin });
        Ok(())
    }

    /// Replaces the contract code by uploaded code. Only the admin may do so.
    pub fn upgrade(env: &mut Invocation, new_wasm_hash: [u8; 32]) -> (result: Result<(), Abort>)
        ensures
            ({
                let reaction = model::upgrade(old(env)@.storage, new_wasm_hash);
                &&& reaction.leads(old(env)@, final(env)@)
                &&& result == reaction.result
            }),
    {
        let admin = match Self::admin(env) {
            Ok(address) => address,
            Err(abort) => return Err(abort),
        };
        env.require_auth(admin);
        env.update_wasm(new_wasm_hash);
        env.publish(Event::Upgraded { admin, new_wasm_hash });
        Ok(())
    }

    /// Hands administrative control to `new_admin`. Both the current admin and
    /// the new one have to authorize, so that control cannot go to an address
    /// nobody can use. Where `new_admin` is the admin already, nothing changes
    /// and nothing is announced.
    pub fn transfer_admin(env: &mut Invocation, new_admin: Address) -> (result: Result<(), Abort>)
        ensures
            ({
                let reaction = model::transfer_admin(old(env)@.storage, new_admin);
                &&& reaction.leads(old(env)@, final(env)@)
                &&& result == reaction.result
            }),
    {
        let old_admin = match Self::admin(env) {
            Ok(address) => address,
            Err(abort) => return Err(abort),
        };
        env.require_auth(old_admin);
        env.require_auth(new_admin);
        env.write(Slot::Admin(new_admin));
        Self::extend_instance_ttl(env);
        if new_admin != old_admin {
            env.publish(Event::AdminTransferred { old_admin, new_admin });
        }
        Ok(())
    }

    /// Returns the treasury; fails before `init`.
    pub fn treasury(env: &Invocation) -> (treasury: Result<Address, Abort>)
        ensures
            treasury == model::filled(env@.storage.treasury, DataKey::Treasury),
    {
        env.storage().treasury.ok_or(Abort::MissingSlot(DataKey::Treasury))
    }

    /// Returns the USDC contract; fails before `init`.
    pub fn usdc_contract(env: &Invocation) -> (token: Result<Address, Abort>)
        ensures
            token == model::filled(env@.storage.usdc_contract, DataKey::UsdcContract),
    {
        env.storage().usdc_contract.ok_or(Abort::MissingSlot(DataKey::UsdcContract))
    }

    /// Returns the XLM contract; fails before `init`.
    pub fn xlm_contract(env: &Invocation) -> (token: Result<Address, Abort>)
        ensures
            token == model::filled(env@.storage.xlm_contract, DataKey::XlmContract),
    {
        env.storage().xlm_contract.ok_or(Abort::MissingSlot(DataKey::XlmContract))
    }

    /// Returns the admin; fails before `init`.
    pub fn admin(env: &Invocation) -> (admin: Result<Address, Abort>)
        ensures
            admin == model::filled(env@.storage.admin, DataKey::Admin),
    {
        env.storage().admin.ok_or(Abort::MissingSlot(DataKey::Admin))
    }

    /// Tells whether payments are halted; `false` before `init`.
    pub fn is_paused_view(env: &Invocation) -> (paused: bool)
        ensures
            paused == env@.storage.halted(),
    {
        Self::is_paused(env)
    }

    /// Tells whether the pause flag is set; an empty slot counts as unset.
    pub fn is_paused(env: &Invocation) -> (paused: bool)
        ensures
            paused == env@.storage.halted(),
    {
        match env.storage().paused {
            Some(flag) => flag,
            None => false,
        }
    }

    /// Asks for instance storage to live for [`INSTANCE_TTL_MAX`] ledgers,
    /// should fewer than [`INSTANCE_TTL_THRESHOLD`] be left.
    pub fn extend_instance_ttl(env: &mut Invocation)
        ensures
            final(env)@ == old(env)@.record(model::extension()),
    {
        env.extend_ttl(INSTANCE_TTL_THRESHOLD, INSTANCE_TTL_MAX);
    }
}

} // verus!
