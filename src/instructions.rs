//! The operations on markets, reserves and obligations. Each takes the
//! accounts it reads as plain values, checks its preconditions, and either
//! commits every change or returns an error with nothing changed.

pub mod initialize_lending_market;
pub mod initialize_reserve;
pub mod update_reserve_config;
pub mod set_emergency_mode;
pub mod collect_fees;

pub mod initialize_obligation;
pub mod deposit;
pub mod withdraw;
pub mod borrow;
pub mod repay;

pub mod refresh_reserve;
pub mod refresh_obligation;
pub mod liquidate;
