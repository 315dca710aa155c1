//! Core of a cross-chain token bridge: the canonical request hash, the
//! committee registry, the request ledger, the fee and reward engine and the
//! bridge state machine that ties them together.

pub mod committee;
pub mod config;
pub mod error;
pub mod events;
pub mod fees;
pub mod handler;
pub mod hashing;
pub mod laws;
pub mod ledger;
pub mod logs;
pub mod most;
pub mod ownable;
pub mod state;
pub mod table;
pub mod token;
pub mod watcher;

pub use crate::error::MostError;
pub use crate::most::Most;
pub use crate::ownable::Ownable2StepError;
pub use crate::token::Token;
