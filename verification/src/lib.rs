//! A card receiver for Stellar smart contracts: USDC and native XLM payments
//! go straight to a treasury, and each is announced with the order it pays.
//!
//! The contract is a state machine. An entrypoint of
//! [`receiver::Stellar_CardReceiver`] reads the storage of its
//! [`invocation::Invocation`], decides, and records in a journal what the host
//! shall do: ask for authorizations, write storage, publish events. Calls to
//! token contracts are outside its control, so an entrypoint that needs one
//! stops there, says which call it waits for, and goes on in
//! [`receiver::Stellar_CardReceiver::resume`] with the answer, whatever it is.
//!
//! [`model`] says what each entrypoint does; [`laws`] what follows for the
//! contract as a whole; [`promises`] what each call asks of the host, one kind of
//! action at a time; [`interface`] what callers of the executable functions get.

#![allow(non_camel_case_types)]

pub mod event;
pub mod interface;
pub mod invocation;
pub mod laws;
pub mod model;
pub mod progress;
pub mod promises;
pub mod receiver;
pub mod storage;
pub mod types;

pub use crate::receiver::{Stellar_CardReceiver, INSTANCE_TTL_MAX, INSTANCE_TTL_THRESHOLD};
pub use crate::types::{DataKey, Error};
