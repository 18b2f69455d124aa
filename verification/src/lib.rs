//! RoboTrade core logic: risk management, circuit breaking, position and
//! P&L accounting, ledgers, reconciliation, job scheduling and the
//! normalisation of exchange messages, with machine-checked contracts.
pub mod decimal;
pub mod clock;
pub mod circuit_breaker;
pub mod circuit_laws;
pub mod entities;
pub mod risk;
pub mod risk_laws;
pub mod job_queue;
pub mod job_queue_laws;
pub mod position_manager;
pub mod position_laws;
pub mod ws_manager;
pub mod pnl_calculator;
pub mod pnl_laws;
pub mod sync_engine;
pub mod ledger_service;
pub mod ledger_laws;
pub mod memory_ledger;
pub mod memory_lots;
pub mod reconciliation_service;
pub mod reconciliation_laws;
pub mod scheduler;
pub mod json;
pub mod text;
pub mod buckets;
pub mod binance;
pub mod kraken;
pub mod rows;
pub mod records;
pub mod history_records;
pub mod store_records;
pub mod paper;
pub mod paper_laws;
pub mod mock;
pub mod normalize;
pub mod config;
pub mod market_data;
