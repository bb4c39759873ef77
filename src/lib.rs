pub mod compose;
pub mod config;
pub mod platform;
pub mod repo;
pub mod schedule;
pub mod store;
