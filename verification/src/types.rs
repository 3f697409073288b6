//! Plain values the receiver works on: addresses, storage keys, and the two
//! ways an entrypoint can fail.

use vstd::prelude::*;

verus! {

/// Length in bytes of a Stellar strkey (`G...` for accounts, `C...` for
/// contracts).
pub const STRKEY_LEN: usize = 56;

/// A Stellar address, identified by its strkey in ASCII.
///
/// The receiver only ever compares addresses, stores them and hands them on,
/// so the strkey stands for the address as a whole.
#[derive(Clone, Copy, Debug)]
pub struct Address {
    pub strkey: [u8; STRKEY_LEN],
}

impl PartialEq for Address {
    fn eq(&self, other: &Self) -> (r: bool) {
        let mut i: usize = 0;
        while i < STRKEY_LEN
            invariant
                i <= STRKEY_LEN,
                forall|j: int| 0 <= j < i ==> self.strkey@[j] == other.strkey@[j],
            decreases STRKEY_LEN - i,
        {
            if self.strkey[i] != other.strkey[i] {
                assert(self.strkey@[i as int] != other.strkey@[i as int]);
                return false;
            }
            i += 1;
        }
        assert(self.strkey =~= other.strkey);
        true
    }
}

impl Eq for Address {

}

impl vstd::std_specs::cmp::PartialEqSpecImpl for Address {
    open spec fn obeys_eq_spec() -> bool {
        true
    }

    open spec fn eq_spec(&self, other: &Self) -> bool {
        *self == *other
    }
}

/// Every storage key of the contract.
///
/// All slots live in instance storage, except [`DataKey::ReentrancyGuard`],
/// which lives in temporary storage: it means nothing outside a single call.
#[derive(Clone, Copy, Debug, PartialEq, Eq, Structural)]
pub enum DataKey {
    /// The address to which all payments are forwarded. Set once by `init`.
    Treasury,
    /// The USDC Stellar Asset Contract. Set once by `init`.
    UsdcContract,
    /// The native XLM Stellar Asset Contract. Set once by `init`.
    XlmContract,
    /// The address that holds administrative control.
    Admin,
    /// Circuit breaker: no payment is processed while it is `true`.
    Paused,
    /// `true` while a payment is waiting for its token transfer.
    ReentrancyGuard,
}

/// The assets the receiver accepts.
#[derive(Clone, Copy, Debug, PartialEq, Eq, Structural)]
pub enum Asset {
    Usdc,
    Xlm,
}

/// Errors that payments return to their caller.
#[derive(Clone, Copy, Debug, PartialEq, Eq, PartialOrd, Ord, Structural)]
pub enum Error {
    /// The amount was zero or negative.
    InvalidAmount,
    /// The token contract refused the transfer.
    TransferFailed,
    /// The contract is paused.
    ContractPaused,
}

impl Error {
    /// The contract error code under which the error is surfaced.
    pub open spec fn code_of(self) -> u32 {
        match self {
            Error::InvalidAmount => 1,
            Error::TransferFailed => 2,
            Error::ContractPaused => 3,
        }
    }

    /// Returns the contract error code of this error.
    pub fn code(self) -> (code: u32)
        ensures
            code == self.code_of(),
    {
        match self {
            Error::InvalidAmount => 1,
            Error::TransferFailed => 2,
            Error::ContractPaused => 3,
        }
    }
}

/// Reasons for which an invocation is aborted: the host discards everything
/// the invocation did and reports the message.
#[derive(Clone, Copy, Debug, PartialEq, Eq, Structural)]
pub enum Abort {
    /// `init` on a contract that already has an admin.
    AlreadyInitialized,
    /// `init` with the contract itself as admin.
    AdminIsContract,
    /// `init` with the contract itself as treasury.
    TreasuryIsContract,
    /// `init` with one address as admin and treasury.
    AdminIsTreasury,
    /// `init` with one address for both tokens.
    SameTokenContracts,
    /// `init` with the contract itself as USDC token.
    UsdcIsContract,
    /// `init` with the contract itself as XLM token.
    XlmIsContract,
    /// `init` with one of the token contracts as treasury.
    TreasuryIsToken,
    /// `init` with a USDC address that does not answer as a token.
    UsdcNotToken,
    /// `init` with an XLM address that does not answer as a token.
    XlmNotToken,
    /// A payment while another payment is waiting for its transfer.
    ReentrancyDetected,
    /// `pause` by an address that is not the admin.
    PauseRequiresAdmin,
    /// A slot that `init` fills was read while still empty.
    MissingSlot(DataKey),
}

impl Abort {
    /// The message reported with the abort.
    pub open spec fn text(self) -> Seq<char> {
        match self {
            Abort::AlreadyInitialized => "already initialized"@,
            Abort::AdminIsContract => "admin cannot be the contract itself"@,
            Abort::TreasuryIsContract => "treasury cannot be the contract itself"@,
            Abort::AdminIsTreasury => "admin and treasury must be different addresses"@,
            Abort::SameTokenContracts => "usdc_contract and xlm_contract must be different"@,
            Abort::UsdcIsContract => "usdc_contract cannot be the contract itself"@,
            Abort::XlmIsContract => "xlm_contract cannot be the contract itself"@,
            Abort::TreasuryIsToken => "treasury cannot be a configured token contract"@,
            Abort::UsdcNotToken => "usdc_contract does not implement the token interface"@,
            Abort::XlmNotToken => "xlm_contract does not implement the token interface"@,
            Abort::ReentrancyDetected => "reentrancy detected"@,
            Abort::PauseRequiresAdmin => "pause requires admin"@,
            Abort::MissingSlot(_) => "called `Option::unwrap()` on a `None` value"@,
        }
    }

    /// Returns the message reported with the abort.
    pub fn message(self) -> (message: &'static str)
        ensures
            message@ == self.text(),
    {
        match self {
            Abort::AlreadyInitialized => "already initialized",
            Abort::AdminIsContract => "admin cannot be the contract itself",
            Abort::TreasuryIsContract => "treasury cannot be the contract itself",
            Abort::AdminIsTreasury => "admin and treasury must be different addresses",
            Abort::SameTokenContracts => "usdc_contract and xlm_contract must be different",
            Abort::UsdcIsContract => "usdc_contract cannot be the contract itself",
            Abort::XlmIsContract => "xlm_contract cannot be the contract itself",
            Abort::TreasuryIsToken => "treasury cannot be a configured token contract",
            Abort::UsdcNotToken => "usdc_contract does not implement the token interface",
            Abort::XlmNotToken => "xlm_contract does not implement the token interface",
            Abort::ReentrancyDetected => "reentrancy detected",
            Abort::PauseRequiresAdmin => "pause requires admin",
            Abort::MissingSlot(_) => "called `Option::unwrap()` on a `None` value",
        }
    }
}

} // verus!
