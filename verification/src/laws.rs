//! What the operations of the library are for, stated of all their inputs.
//!
//! The laws speak of what the contracts of the operations speak of, and say of
//! it what has to hold, or how the results for two inputs go together.
pub mod client;
pub mod conversation;
pub mod dispatch;
pub mod members;
pub mod plugins;
pub mod scan;
pub mod server;
pub mod storage;
pub mod text;
pub mod upload;
pub mod views;
