//! A ledger of tips for one recipient, kept in the instance storage of a
//! Soroban contract: who paid how much in all, and every tip in the order in
//! which it came.
//!
//! - [`book`] is the ledger as mathematics: the totals, the history, and what
//!   a call does to them.
//! - [`host`] is the boundary to the Soroban host, where the two aggregates
//!   live. Its statements about the host are taken on trust.
//! - [`ledger`] is the ledger as a value: what the two slots of instance
//!   storage hold.
//! - [`contract`] has the operations: `buy_coffee` and the three reads.
//! - [`laws`] proves what holds after any run of calls.
//!
//! The library decides and computes. Asking the host for authorization,
//! reading and writing instance storage and publishing the event are left to
//! the caller.

pub mod book;
pub mod contract;
pub mod host;
pub mod laws;
pub mod ledger;
pub mod types;

pub use book::{Book, Call};
pub use contract::{Contract, CREATOR_ADDRESS};
pub use host::{Board, History};
pub use ledger::Ledger;
pub use types::{CoffeeEvent, DataKey, Tip, TipError};
