//! Verified core of `tick`, a command-line client for a task-tracking
//! service.
//!
//! The library holds what the program decides: how a login attempt moves
//! from one step to the next, what the callback listener makes of each
//! request, how the provider's answers and the secure store's answers are
//! read, and how tasks and projects are shaped for the service and for the
//! screen. Sockets, the browser, the secure store and the terminal are the
//! caller's: each step here says what is to be done next, and takes what came
//! of it.

pub mod api;
pub mod auth;
pub mod client;
pub mod config;
pub mod json;
pub mod keychain;
pub mod local_server;
pub mod services;
pub mod text;
pub mod tick_tick_api;
pub mod ui;
