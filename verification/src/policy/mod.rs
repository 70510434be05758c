pub mod registry;
pub mod client;
pub mod condition;
pub mod action;
pub mod progress;
pub mod runner;
pub mod guarantees;
pub mod termination;
