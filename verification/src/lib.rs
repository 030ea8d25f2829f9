//! Arbitrage between decentralised exchange venues: opportunity detection,
//! trade sizing and the execution state machine, with machine-checked
//! contracts.

pub mod adapter;
pub mod arbitrage;
pub mod config;
pub mod decimal;
pub mod dex;
pub mod execution;
pub mod monitor;
pub mod plan;
pub mod pricing;
pub mod ranking;
pub mod scan;
pub mod text;
pub mod wallet;
pub mod web;
