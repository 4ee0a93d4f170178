//! The accounting core of a points-weighted staking-reward ledger.
//!
//! Users lock non-fungible collateral items into custody, accrue a fungible
//! reward proportional to a global emission schedule and their share of the
//! total weighted stake, and later withdraw collateral or settle rewards.
//! The heart is the pool accrual engine and the accumulator/debt settlement
//! algorithm ([`engine`]), driven by the stake lifecycle orchestrator
//! ([`processor`]) over fixed-width persistent records ([`state`]).
//!
//! Durable storage, custody transfers and the host clock belong to the
//! surrounding runtime; the library works on plain values read from it and
//! hands back the records and transfers to apply.

use vstd::prelude::*;

pub mod account;
pub mod codec;
pub mod engine;
pub mod error;
pub mod instruction;
pub mod metadata;
pub mod pda;
pub mod processor;
pub mod state;
pub mod token;
pub mod validation;

verus! {

} // verus!
