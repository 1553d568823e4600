//! A strategy score kept by a single administrator.
//!
//! The score is a fixed-point confidence value between 0 and 1000 (1000
//! stands for 10.00). Its administrator may refine it at most once per
//! cooldown period, moving it up or down by a performance metric.
//!
//! The library is a pure state machine: every operation takes the facts
//! that a host supplies (who calls, whether the call was authorized, what
//! time it is) as plain arguments and returns what the host has to persist
//! and announce.

pub mod address;
pub mod agent;
pub mod laws;
pub mod model;
pub mod score;
pub mod state;

pub use address::Address;
pub use agent::PortfolioAgent;
pub use model::COOLDOWN_PERIOD;
pub use state::{AgentError, Initialized, StrategyRefined, StrategyState};
