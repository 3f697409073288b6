//! The contract's storage, slot by slot.

use vstd::prelude::*;

use crate::types::{Address, Asset, DataKey};

verus! {

/// What the contract's storage holds; `None` where a slot is empty.
#[derive(Clone, Copy, Debug, PartialEq, Eq)]
pub struct Storage {
    pub treasury: Option<Address>,
    pub usdc_contract: Option<Address>,
    pub xlm_contract: Option<Address>,
    pub admin: Option<Address>,
    pub paused: Option<bool>,
    pub reentrancy_guard: Option<bool>,
}

/// A value together with the slot it belongs in.
#[derive(Clone, Copy, Debug, PartialEq, Eq)]
pub enum Slot {
    Treasury(Address),
    UsdcContract(Address),
    XlmContract(Address),
    Admin(Address),
    Paused(bool),
    ReentrancyGuard(bool),
}

impl Slot {
    /// The key of the slot.
    pub open spec fn key_of(self) -> DataKey {
        match self {
            Slot::Treasury(_) => DataKey::Treasury,
            Slot::UsdcContract(_) => DataKey::UsdcContract,
            Slot::XlmContract(_) => DataKey::XlmContract,
            Slot::Admin(_) => DataKey::Admin,
            Slot::Paused(_) => DataKey::Paused,
            Slot::ReentrancyGuard(_) => DataKey::ReentrancyGuard,
        }
    }

    /// Returns the key under which the value is stored.
    pub fn key(self) -> (key: DataKey)
        ensures
            key == self.key_of(),
    {
        match self {
            Slot::Treasury(_) => DataKey::Treasury,
            Slot::UsdcContract(_) => DataKey::UsdcContract,
            Slot::XlmContract(_) => DataKey::XlmContract,
            Slot::Admin(_) => DataKey::Admin,
            Slot::Paused(_) => DataKey::Paused,
            Slot::ReentrancyGuard(_) => DataKey::ReentrancyGuard,
        }
    }

    /// Tells whether the slot lives in temporary storage rather than in
    /// instance storage.
    pub fn is_temporary(self) -> (temporary: bool)
        ensures
            temporary == (self.key_of() == DataKey::ReentrancyGuard),
    {
        self.key() == DataKey::ReentrancyGuard
    }
}

impl Storage {
    /// The storage of a contract on which nothing was ever called.
    pub open spec fn blank() -> Storage {
        Storage {
            treasury: None,
            usdc_contract: None,
            xlm_contract: None,
            admin: None,
            paused: None,
            reentrancy_guard: None,
        }
    }

    /// Returns storage in which every slot is empty.
    pub fn empty() -> (storage: Storage)
        ensures
            storage == Storage::blank(),
    {
        Storage {
            treasury: None,
            usdc_contract: None,
            xlm_contract: None,
            admin: None,
            paused: None,
            reentrancy_guard: None,
        }
    }

    /// This storage with one slot overwritten.
    pub open spec fn with(self, slot: Slot) -> Storage {
        match slot {
            Slot::Treasury(address) => Storage { treasury: Some(address), ..self },
            Slot::UsdcContract(address) => Storage { usdc_contract: Some(address), ..self },
            Slot::XlmContract(address) => Storage { xlm_contract: Some(address), ..self },
            Slot::Admin(address) => Storage { admin: Some(address), ..self },
            Slot::Paused(flag) => Storage { paused: Some(flag), ..self },
            Slot::ReentrancyGuard(flag) => Storage { reentrancy_guard: Some(flag), ..self },
        }
    }

    /// Whether the pause flag is set; an empty slot counts as not paused.
    pub open spec fn halted(self) -> bool {
        self.paused == Some(true)
    }

    /// Whether a payment is waiting for its transfer; an empty slot counts as
    /// no payment waiting.
    pub open spec fn guarded(self) -> bool {
        self.reentrancy_guard == Some(true)
    }

    /// The token contract configured for an asset.
    pub open spec fn token(self, asset: Asset) -> Option<Address> {
        match asset {
            Asset::Usdc => self.usdc_contract,
            Asset::Xlm => self.xlm_contract,
        }
    }

    /// Overwrites one slot.
    pub fn write(&mut self, slot: Slot)
        ensures
            *final(self) == old(self).with(slot),
    {
        match slot {
            Slot::Treasury(address) => self.treasury = Some(address),
            Slot::UsdcContract(address) => self.usdc_contract = Some(address),
            Slot::XlmContract(address) => self.xlm_contract = Some(address),
            Slot::Admin(address) => self.admin = Some(address),
            Slot::Paused(flag) => self.paused = Some(flag),
            Slot::ReentrancyGuard(flag) => self.reentrancy_guard = Some(flag),
        }
    }
}

} // verus!
