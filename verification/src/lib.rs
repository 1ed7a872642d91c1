//! The progression and economy engine of a fitness-tracking backend: the
//! level curve that converts cumulative EXP to levels, the accrual
//! calculator that turns logged sets into EXP under difficulty, temporal,
//! level and streak multipliers with a per-date ceiling, the streak
//! tracker with its grace-day tolerance, the companion's growth ledger,
//! and the rules that gate companion types behind level and growth
//! thresholds.
//!
//! Every function here is pure over plain values: callers read the state
//! from their store, hand it in, and write back what the contracts say
//! comes out. The surrounding application serialises mutations per user
//! and treats companion feeding and unlock evaluation as best-effort
//! secondary effects of a successful credit.

pub mod account;
pub mod admin;
pub mod catalog;
pub mod contact;
pub mod dashboard;
pub mod daily_reward;
pub mod dates;
pub mod error;
pub mod exp;
pub mod levels;
pub mod pet;
pub mod streak;
pub mod text;
pub mod unlock;
pub mod workflow;
