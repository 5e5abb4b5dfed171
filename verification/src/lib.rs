//! The logic of a command-line client for the Splitwise expense-sharing
//! service: text layout of the listings, the interpretation of amounts, the
//! requests that each command sends, and the state machine of the
//! interactive terminal view.

pub mod text;
pub mod amount;
pub mod models;
pub mod display;
pub mod cli;
pub mod api;
pub mod config;
pub mod tui;
pub mod panes;
