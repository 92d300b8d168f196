//! Accounting core of an over-collateralized lending market: reserves that
//! accrue interest through cumulative indexes, obligations valued from those
//! indexes and oracle prices, and the operations that move positions.

pub mod address;
pub mod constants;
pub mod instructions;
pub mod market;
pub mod math;
pub mod obligation;
pub mod oracle;
pub mod reserve;
