//! Accounting and pricing core of a two-asset constant-product market maker.
//!
//! The pool keeps three ledgers (asset A, asset B and its own shares), holds
//! one descriptor per asset, prices trades along the curve `x * y = k`, and
//! ends a withdrawal only when it is told how the transfer by the asset's own
//! contract ended.
//!
//! The ledgers keep their tables in the host's storage. The library reads
//! them and decides: an operation is refused with an `AmmError`, or it is
//! planned as the steps to perform on the ledgers. It performs no step
//! itself, so an operation that is refused has changed nothing.
//!
//! - `utils`: decimal scaling and the pricing curve.
//! - `host`, `ledger`: what `near_sdk` and `near_contract_standards` provide,
//!   the reads of a ledger and the decisions on what was read.
//! - `metadata`, `pool`: descriptors, the pool, its model `PoolView`, reads
//!   and steps.
//! - `liquidity`, `swap`, `withdrawal`, `info`: the operations of the pool.
//! - `laws`: what holds of these operations in every state.

pub mod error;
pub mod host;
pub mod info;
pub mod laws;
pub mod ledger;
pub mod liquidity;
pub mod metadata;
pub mod pool;
pub mod swap;
pub mod utils;
pub mod withdrawal;

pub use error::AmmError;
pub use info::PoolInfo;
pub use metadata::TokenMetadata;
pub use ledger::{Holdings, LedgerAction};
pub use pool::{LedgerSlot, PoolReads, Side, Step, AMM};
pub use utils::{add_decimals, calc_dy, calc_raito, remove_decimals};
pub use withdrawal::{TransferOutcome, Withdrawal};
