//! A tiberius-style connection facade over SQL Server's TDS protocol.

use vstd::prelude::*;

pub mod arrow;
pub mod bulk;
pub mod bulk_arrow;
pub mod column;
pub mod config;
pub mod driver_value;
pub mod compat;
pub mod error;
pub mod health;
pub mod pool;
pub mod prepared;
pub mod query;
pub mod temporal;
pub mod text;
pub mod transcode;

verus! {
} // verus!
