pub mod accounts;
pub mod auth;
pub mod clock;
pub mod chat_core;
pub mod client;
pub mod collections;
pub mod database;
pub mod effects;
pub mod errors;
pub mod files;
pub mod messaging;
pub mod metrics;
pub mod model;
pub mod replies;
pub mod state;
pub mod text;
pub mod tui;
