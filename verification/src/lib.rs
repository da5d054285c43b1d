//! Verified decision logic of the Nexus bAsset vault contracts: 256-bit
//! amounts and decimals (`math`), the Terra transfer tax (`tax`), loan
//! repayment, borrowing surplus and reward profit (`actions`), the vault's
//! commands and replies (`vault`), carrying out the strategy's advice
//! (`rebalance`), its queries (`queries`), the set-up of its child
//! contracts (`init`), the borrowing strategy
//! (`strategy`, `farmer_config`), and the reward accounting of the staking
//! and farmer contracts (`staking`, `farmer`).
pub mod math;
pub mod tax;
pub mod actions;
pub mod strategy;
pub mod farmer;
pub mod staking;
pub mod farmer_config;
pub mod response;
pub mod vault;
pub mod queries;
pub mod rebalance;
pub mod init;
