//! Telega Checker: finds out whether a Telegram account is registered with the
//! call infrastructure of the Telega client, for a Telegram bot, an HTTP API and
//! a daily scan of group chats.
//!
//! The crate holds every decision of the program, and the texts of its messages,
//! answers and failures. What needs the network, the database or the file system
//! is left to the caller, which is told what to do next and reports what came of
//! it.
pub mod api_client;
pub mod api_server;
pub mod bot_handler;
pub mod config;
pub mod crypto;
pub mod db;
pub mod dispatch;
pub mod json;
pub mod laws;
pub mod lookup_laws;
pub mod messages;
pub mod scheduler;
pub mod text;
pub mod token_laws;
