//! Event multiplexing and action-dispatch engine for an interactive
//! terminal front-end to a market-data feed.
//!
//! The crate merges asynchronous keyboard input and periodic timer ticks
//! into one ordered event stream, maps keys to a validated registry of
//! actions, and drives a dispatch state machine over application state.
//! Network, terminal and argument handling live outside this library;
//! the library states and proves what each of its steps computes.

pub mod actions;
pub mod app;
pub mod args;
pub mod binance;
pub mod cli_app;
pub mod events;
pub mod key;
pub mod state;
