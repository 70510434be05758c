//! Policy evaluation for AI-model governance.
//!
//! A policy names conditions (remote content checks) and actions. The engine
//! decides, step by step, which remote call to make next, how each reply is
//! classified, how the condition outcomes combine into a verdict and which
//! actions fire. The host performs the calls and side effects and reports
//! what happened; every decision is made here.

pub mod text;
pub mod json;
pub mod yaml;
pub mod models;
pub mod policy;
pub mod config;
pub mod providers;
