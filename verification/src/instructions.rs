//! The entry points of the engine, one module for each.

pub mod args;
pub mod common;
pub mod execute_transaction;
pub mod invoke_policy;
pub mod update_policy;
pub mod commit_cpi;
pub mod execute_committed;
pub mod admin;
pub mod create_smart_wallet;
pub mod execute;
