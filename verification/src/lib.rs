//! Verified core of a quantitative trading engine: decimal arithmetic, account and
//! fund pools, risk checks, positions, order bookkeeping and engine state machines.
#![allow(unused_imports)]

pub mod decimal;
pub mod clock;
pub mod text;
pub mod keyed;
pub mod console;
pub mod f_engine;
pub mod engine;
