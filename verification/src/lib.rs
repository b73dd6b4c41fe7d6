//! Verified core of a Golem network node: request building for the market and
//! activity APIs, release bookkeeping, the provider's task manager decisions,
//! and the batch requestor's session description.

pub mod text;
pub mod time;
pub mod web;
pub mod market_provider;
pub mod activity_provider;
pub mod task_manager;
pub mod props_table;
pub mod task_flow;
pub mod version_db;
pub mod batch_requestor;
pub mod command_helpers;
