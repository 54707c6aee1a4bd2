//! Verified core of a money-market protocol: interest accrual, liability
//! projection, epoch settlement, dynamic deposit-rate adjustment and rebase
//! rewards, over 18-decimal fixed-point numbers.

pub mod decimal;
pub mod error;
pub mod interest;
pub mod dynrate;
pub mod epoch;
pub mod rebase;
pub mod tax;
