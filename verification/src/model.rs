//! What each entrypoint does, as a function of the storage it finds.

use vstd::prelude::*;

use crate::event::Event;
use crate::invocation::{Effect, InvocationView};
use crate::progress::{Config, Payment, Pending, Progress};
use crate::receiver::{INSTANCE_TTL_MAX, INSTANCE_TTL_THRESHOLD};
use crate::storage::{Slot, Storage};
use crate::types::{Abort, Address, Asset, DataKey, Error};

verus! {

/// What a call does: the storage it leaves, the actions it records, and what
/// it answers.
pub struct Reaction<R> {
    pub storage: Storage,
    pub effects: Seq<Effect<Seq<u8>>>,
    pub result: R,
}

impl<R> Reaction<R> {
    /// Whether an invocation that went from `before` to `after` did what this
    /// reaction says.
    pub open spec fn leads(self, before: InvocationView, after: InvocationView) -> bool {
        &&& after.contract == before.contract
        &&& after.storage == self.storage
        &&& after.journal =~= before.journal + self.effects
    }
}

/// The extension of instance storage that every call asks for once it has
/// changed something.
pub open spec fn extension() -> Effect<Seq<u8>> {
    Effect::ExtendInstanceTtl { threshold: INSTANCE_TTL_THRESHOLD, extend_to: INSTANCE_TTL_MAX }
}

/// The value of a slot that `init` fills.
pub open spec fn filled(slot: Option<Address>, key: DataKey) -> Result<Address, Abort> {
    match slot {
        Some(address) => Ok(address),
        None => Err(Abort::MissingSlot(key)),
    }
}

/// Why a configuration is refused before any token is probed, if it is. The
/// first reason that applies is the one reported.
pub open spec fn refusal(storage: Storage, contract: Address, config: Config) -> Option<Abort> {
    if storage.admin is Some {
        Some(Abort::AlreadyInitialized)
    } else if config.admin == contract {
        Some(Abort::AdminIsContract)
    } else if config.treasury == contract {
        Some(Abort::TreasuryIsContract)
    } else if config.admin == config.treasury {
        Some(Abort::AdminIsTreasury)
    } else if config.usdc_contract == config.xlm_contract {
        Some(Abort::SameTokenContracts)
    } else if config.usdc_contract == contract {
        Some(Abort::UsdcIsContract)
    } else if config.xlm_contract == contract {
        Some(Abort::XlmIsContract)
    } else if config.treasury == config.usdc_contract || config.treasury == config.xlm_contract {
        Some(Abort::TreasuryIsToken)
    } else {
        None
    }
}

/// `init`: the admin authorizes, and an acceptable configuration goes on to
/// the probe of the USDC contract.
pub open spec fn init(storage: Storage, contract: Address, config: Config) -> Reaction<
    Progress<Seq<u8>>,
> {
    Reaction {
        storage,
        effects: seq![Effect::RequireAuth(config.admin)],
        result: match refusal(storage, contract, config) {
            Some(abort) => Progress::Aborted(abort),
            None => Progress::Waiting(Pending::UsdcProbe(config)),
        },
    }
}

/// `init` once both tokens have answered: the configuration is stored, the
/// contract starts unpaused.
pub open spec fn configured(storage: Storage, config: Config) -> Reaction<Progress<Seq<u8>>> {
    Reaction {
        storage: Storage {
            admin: Some(config.admin),
            treasury: Some(config.treasury),
            usdc_contract: Some(config.usdc_contract),
            xlm_contract: Some(config.xlm_contract),
            paused: Some(false),
            reentrancy_guard: storage.reentrancy_guard,
        },
        effects: seq![
            Effect::Write(Slot::Admin(config.admin)),
            Effect::Write(Slot::Treasury(config.treasury)),
            Effect::Write(Slot::UsdcContract(config.usdc_contract)),
            Effect::Write(Slot::XlmContract(config.xlm_contract)),
            Effect::Write(Slot::Paused(false)),
            extension(),
            Effect::Publish(
                Event::Init {
                    admin: config.admin,
                    treasury: config.treasury,
                    usdc_contract: config.usdc_contract,
                    xlm_contract: config.xlm_contract,
                },
            ),
        ],
        result: Progress::Returned(Ok(())),
    }
}

/// Taking the reentrancy guard: possible if no other payment holds it.
pub open spec fn enter(storage: Storage) -> Reaction<Result<(), Abort>> {
    if storage.guarded() {
        Reaction { storage, effects: seq![], result: Err(Abort::ReentrancyDetected) }
    } else {
        Reaction {
            storage: storage.with(Slot::ReentrancyGuard(true)),
            effects: seq![Effect::Write(Slot::ReentrancyGuard(true))],
            result: Ok(()),
        }
    }
}

/// Releasing the reentrancy guard, held or not.
pub open spec fn exit(storage: Storage) -> Reaction<()> {
    Reaction {
        storage: storage.with(Slot::ReentrancyGuard(false)),
        effects: seq![Effect::Write(Slot::ReentrancyGuard(false))],
        result: (),
    }
}

/// `pay_usdc` and `pay_xlm`, up to the token transfer. A paused contract and a
/// bad amount are answered at once, before anything is recorded; otherwise the
/// payer authorizes and the guard is taken.
pub open spec fn pay(
    storage: Storage,
    asset: Asset,
    from: Address,
    amount: i128,
    order_id: Seq<u8>,
) -> Reaction<Progress<Seq<u8>>> {
    if storage.halted() {
        Reaction {
            storage,
            effects: seq![],
            result: Progress::Returned(Err(Error::ContractPaused)),
        }
    } else if amount <= 0 {
        Reaction {
            storage,
            effects: seq![],
            result: Progress::Returned(Err(Error::InvalidAmount)),
        }
    } else {
        match due(storage, asset, from, amount, order_id) {
            Err(abort) => Reaction {
                storage,
                effects: seq![Effect::RequireAuth(from)],
                result: Progress::Aborted(abort),
            },
            Ok(payment) => Reaction {
                storage: storage.with(Slot::ReentrancyGuard(true)),
                effects: seq![
                    Effect::RequireAuth(from),
                    Effect::Write(Slot::ReentrancyGuard(true)),
                ],
                result: Progress::Waiting(Pending::Transfer(payment)),
            },
        }
    }
}

/// The transfer that a payment of a positive amount calls for on an unpaused
/// contract: through the configured token, to the treasury. There is none on a
/// contract that is not configured, nor while another payment is waiting.
pub open spec fn due(
    storage: Storage,
    asset: Asset,
    from: Address,
    amount: i128,
    order_id: Seq<u8>,
) -> Result<Payment<Seq<u8>>, Abort> {
    match (storage.treasury, storage.token(asset)) {
        (None, _) => Err(Abort::MissingSlot(DataKey::Treasury)),
        (Some(_), None) => Err(Abort::MissingSlot(token_key(asset))),
        (Some(to), Some(token)) => if storage.guarded() {
            Err(Abort::ReentrancyDetected)
        } else {
            Ok(Payment { asset, token, from, to, amount, order_id })
        },
    }
}

/// The storage key of the token contract for an asset.
pub open spec fn token_key(asset: Asset) -> DataKey {
    match asset {
        Asset::Usdc => DataKey::UsdcContract,
        Asset::Xlm => DataKey::XlmContract,
    }
}

/// A payment whose transfer was answered: the guard is released either way;
/// the payment is announced if and only if the funds moved.
pub open spec fn settled(storage: Storage, payment: Payment<Seq<u8>>, moved: bool) -> Reaction<
    Progress<Seq<u8>>,
> {
    let released = Slot::ReentrancyGuard(false);
    if moved {
        Reaction {
            storage: storage.with(released),
            effects: seq![
                Effect::Write(released),
                Effect::Publish(
                    Event::Payment {
                        asset: payment.asset,
                        order_id: payment.order_id,
                        from: payment.from,
                        amount: payment.amount,
                    },
                ),
                extension(),
            ],
            result: Progress::Returned(Ok(())),
        }
    } else {
        Reaction {
            storage: storage.with(released),
            effects: seq![Effect::Write(released)],
            result: Progress::Returned(Err(Error::TransferFailed)),
        }
    }
}

/// How a waiting entrypoint goes on when its token call has succeeded or
/// failed.
pub open spec fn resume(storage: Storage, pending: Pending<Seq<u8>>, succeeded: bool) -> Reaction<
    Progress<Seq<u8>>,
> {
    match pending {
        Pending::UsdcProbe(config) => Reaction {
            storage,
            effects: seq![],
            result: if succeeded {
                Progress::Waiting(Pending::XlmProbe(config))
            } else {
                Progress::Aborted(Abort::UsdcNotToken)
            },
        },
        Pending::XlmProbe(config) => if succeeded {
            configured(storage, config)
        } else {
            Reaction { storage, effects: seq![], result: Progress::Aborted(Abort::XlmNotToken) }
        },
        Pending::Transfer(payment) => settled(storage, payment, succeeded),
    }
}

/// `pause`: the caller authorizes and has to be the admin. Pausing a paused
/// contract changes nothing and announces nothing.
pub open spec fn pause(storage: Storage, caller: Address) -> Reaction<Result<(), Abort>> {
    let auth = Effect::RequireAuth(caller);
    match storage.admin {
        None => Reaction {
            storage,
            effects: seq![auth],
            result: Err(Abort::MissingSlot(DataKey::Admin)),
        },
        Some(admin) => if caller != admin {
            Reaction { storage, effects: seq![auth], result: Err(Abort::PauseRequiresAdmin) }
        } else if storage.halted() {
            Reaction { storage, effects: seq![auth], result: Ok(()) }
        } else {
            Reaction {
                storage: storage.with(Slot::Paused(true)),
                effects: seq![
                    auth,
                    Effect::Write(Slot::Paused(true)),
                    extension(),
                    Effect::Publish(Event::Paused { caller }),
                ],
                result: Ok(()),
            }
        },
    }
}

/// `unpause`: the admin authorizes. Unpausing an unpaused contract changes
/// nothing and announces nothing.
pub open spec fn unpause(storage: Storage) -> Reaction<Result<(), Abort>> {
    match storage.admin {
        None => Reaction {
            storage,
            effects: seq![],
            result: Err(Abort::MissingSlot(DataKey::Admin)),
        },
        Some(admin) => if !storage.halted() {
            Reaction { storage, effects: seq![Effect::RequireAuth(admin)], result: Ok(()) }
        } else {
            Reaction {
                storage: storage.with(Slot::Paused(false)),
                effects: seq![
                    Effect::RequireAuth(admin),
                    Effect::Write(Slot::Paused(false)),
                    extension(),
                    Effect::Publish(Event::Unpaused { admin }),
                ],
                result: Ok(()),
            }
        },
    }
}

/// `upgrade`: the admin authorizes, the code is replaced; storage stays as it
/// is.
pub open spec fn upgrade(storage: Storage, new_wasm_hash: [u8; 32]) -> Reaction<
    Result<(), Abort>,
> {
    match storage.admin {
        None => Reaction {
            storage,
            effects: seq![],
            result: Err(Abort::MissingSlot(DataKey::Admin)),
        },
        Some(admin) => Reaction {
            storage,
            effects: seq![
                Effect::RequireAuth(admin),
                Effect::UpdateWasm(new_wasm_hash),
                Effect::Publish(Event::Upgraded { admin, new_wasm_hash }),
            ],
            result: Ok(()),
        },
    }
}

/// `transfer_admin`: the current admin and the new one both authorize. Handing
/// control to the admin who has it changes nothing, so it is not announced.
pub open spec fn transfer_admin(storage: Storage, new_admin: Address) -> Reaction<
    Result<(), Abort>,
> {
    match storage.admin {
        None => Reaction {
            storage,
            effects: seq![],
            result: Err(Abort::MissingSlot(DataKey::Admin)),
        },
        Some(old_admin) => Reaction {
            storage: storage.with(Slot::Admin(new_admin)),
            effects: if new_admin == old_admin {
                seq![
                    Effect::RequireAuth(old_admin),
                    Effect::RequireAuth(new_admin),
                    Effect::Write(Slot::Admin(new_admin)),
                    extension(),
                ]
            } else {
                seq![
                    Effect::RequireAuth(old_admin),
                    Effect::RequireAuth(new_admin),
                    Effect::Write(Slot::Admin(new_admin)),
                    extension(),
                    Effect::Publish(Event::AdminTransferred { old_admin, new_admin }),
                ]
            },
            result: Ok(()),
        },
    }
}

} // verus!
