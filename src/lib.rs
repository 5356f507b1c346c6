//! A multi-chain EIP-1559 transaction relay: the fee-escalation policy, the
//! request repository and the per-chain monitor's decisions, verified.

pub mod fees;
pub mod primitives;
pub mod chain;
pub mod request;
pub mod monitor;
pub mod repository;
pub mod relay;
pub mod alchemy;
