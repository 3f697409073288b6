//! How an entrypoint leaves off: done, aborted, or waiting for a reply from a
//! token contract.

use vstd::prelude::*;

use crate::types::{Abort, Address, Asset, Error};

verus! {

/// The addresses that `init` configures.
#[derive(Clone, Copy, Debug, PartialEq, Eq)]
pub struct Config {
    pub admin: Address,
    pub treasury: Address,
    pub usdc_contract: Address,
    pub xlm_contract: Address,
}

/// A payment whose token transfer has not been answered yet.
#[derive(Debug, PartialEq, Eq)]
pub struct Payment<Id> {
    pub asset: Asset,
    /// The token contract that moves the funds.
    pub token: Address,
    pub from: Address,
    /// The address that receives the funds.
    pub to: Address,
    pub amount: i128,
    pub order_id: Id,
}

impl View for Payment<Vec<u8>> {
    type V = Payment<Seq<u8>>;

    open spec fn view(&self) -> Payment<Seq<u8>> {
        Payment {
            asset: self.asset,
            token: self.token,
            from: self.from,
            to: self.to,
            amount: self.amount,
            order_id: self.order_id@,
        }
    }
}

/// A call to a token contract; all the receiver learns of it is whether it
/// succeeded.
#[derive(Clone, Copy, Debug, PartialEq, Eq)]
pub enum TokenCall {
    /// Read the number of decimals, to see whether `token` is a token at all.
    Decimals { token: Address },
    /// Move `amount` from `from` to `to`.
    Transfer { token: Address, from: Address, to: Address, amount: i128 },
}

/// What an entrypoint goes on with once its token call is answered.
#[derive(Debug, PartialEq, Eq)]
pub enum Pending<Id> {
    /// `init` is probing the USDC contract.
    UsdcProbe(Config),
    /// `init` is probing the XLM contract.
    XlmProbe(Config),
    /// A payment is moving funds.
    Transfer(Payment<Id>),
}

impl View for Pending<Vec<u8>> {
    type V = Pending<Seq<u8>>;

    open spec fn view(&self) -> Pending<Seq<u8>> {
        match *self {
            Pending::UsdcProbe(config) => Pending::UsdcProbe(config),
            Pending::XlmProbe(config) => Pending::XlmProbe(config),
            Pending::Transfer(payment) => Pending::Transfer(payment@),
        }
    }
}

impl<Id> Pending<Id> {
    /// The token call to be answered.
    pub open spec fn call_of(self) -> TokenCall {
        match self {
            Pending::UsdcProbe(config) => TokenCall::Decimals { token: config.usdc_contract },
            Pending::XlmProbe(config) => TokenCall::Decimals { token: config.xlm_contract },
            Pending::Transfer(payment) => TokenCall::Transfer {
                token: payment.token,
                from: payment.from,
                to: payment.to,
                amount: payment.amount,
            },
        }
    }
}

impl Pending<Vec<u8>> {
    /// Returns the token call for the host to make.
    pub fn call(&self) -> (call: TokenCall)
        ensures
            call == self@.call_of(),
    {
        match self {
            Pending::UsdcProbe(config) => TokenCall::Decimals { token: config.usdc_contract },
            Pending::XlmProbe(config) => TokenCall::Decimals { token: config.xlm_contract },
            Pending::Transfer(payment) => TokenCall::Transfer {
                token: payment.token,
                from: payment.from,
                to: payment.to,
                amount: payment.amount,
            },
        }
    }
}

/// Where an entrypoint stands.
#[derive(Debug, PartialEq, Eq)]
pub enum Progress<Id> {
    /// It returned.
    Returned(Result<(), Error>),
    /// It aborted the invocation.
    Aborted(Abort),
    /// It waits for the answer to a token call; hand the answer to
    /// `Stellar_CardReceiver::resume`.
    Waiting(Pending<Id>),
}

impl View for Progress<Vec<u8>> {
    type V = Progress<Seq<u8>>;

    open spec fn view(&self) -> Progress<Seq<u8>> {
        match *self {
            Progress::Returned(result) => Progress::Returned(result),
            Progress::Aborted(abort) => Progress::Aborted(abort),
            Progress::Waiting(pending) => Progress::Waiting(pending@),
        }
    }
}

} // verus!
