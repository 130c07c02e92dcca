//! Birthday greetings, and the lifecycle of the disposable mail receiver that observes them.
pub mod address;
pub mod command;
pub mod date;
pub mod employ;
pub mod greetings;
pub mod lifecycle;
pub mod mail;
pub mod provision;
pub mod readiness;
pub mod repository;
pub mod text;

pub use date::Date;
pub use employ::Employ;
