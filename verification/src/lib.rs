//! Deterministic genesis configuration and chain specification assembly for a
//! staking-enabled test parachain.
//!
//! The crate resolves fixed test accounts, wires them into role-specific
//! lists (root authority, council, collators with bonded stake, endowed
//! balances), and packages the result together with network metadata into a
//! chain-specification value.

pub mod account;
pub mod chain_spec;
pub mod errors;
pub mod genesis;
pub mod staking;
