//! Replay of client transactions into final account balances.
//!
//! A [`ledger::Ledger`] takes decoded records one by one, in order, and keeps
//! one [`client::Client`] per client. Money is counted in whole
//! ten-thousandths of a currency unit. The behaviour of both is stated
//! against the mathematical [`account::Account`] and [`book::Book`], whose
//! laws are proved in [`laws`].

pub mod kind;
pub mod record;
pub mod account;
pub mod client;
pub mod book;
pub mod ledger;
pub mod laws;
pub mod money;
