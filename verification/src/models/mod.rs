pub mod policy;
pub mod providers;
