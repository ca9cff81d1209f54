//! The trading engine: account margin, risk, positions, orders, channels and the
//! simulated exchange.

pub mod margin_config;
pub mod account_pool;
pub mod minute_risk;
pub mod strategy_types;
pub mod position_manager;
pub mod pnl_manager;
pub mod strategy_pool;
pub mod order_check;
pub mod error;
pub mod risk;
pub mod risk_rechecker;
pub mod mock_binance_gateway;
pub mod round_guard;
pub mod symbol_rules;
pub mod check_table;
pub mod channel;
pub mod market_status;
pub mod checkpoint;
pub mod pipeline;
pub mod mode;
pub mod order;
pub mod telegram_notifier;
pub mod memory_backup;
pub mod trading_engine;
