//! The event-driven engine: business types, engine and symbol state, execution,
//! fund pools, risk management, rollback, triggers and monitoring.

pub mod types;
pub mod business_types;
pub mod state;
pub mod engine_state;
pub mod fund_pool;
pub mod risk_manager;
pub mod rollback;
pub mod execution;
pub mod monitoring;
pub mod triggers;
pub mod strategy_loop;
pub mod mode_switcher;
pub mod pipeline_form;
pub mod engine_v2;
pub mod driven_engine;
pub mod engine_manager;
pub mod event_engine;
pub mod interfaces;
