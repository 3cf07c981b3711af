//! Core of a terminal multiplexer: the panel layout tree, the grid sizing
//! policy, the per-session size and scroll rules, the keys, and the
//! registry of tabs and sessions.
//!
//! The library decides and the application performs: what touches a
//! process, a thread or a widget comes back from these functions as a value
//! that says what to do. Every function is verified against its contract;
//! the few calls into the terminal engine and the standard library that are
//! taken on trust stand in `engine` and `text`, each with what is claimed
//! of it.

pub mod bridge;
pub mod commands;
pub mod display;
pub mod engine;
pub mod grid;
pub mod input;
pub mod keyboard;
pub mod keys;
pub mod layout;
pub mod navigation;
pub mod resize;
pub mod size;
pub mod state;
pub mod status;
pub mod teardown;
pub mod terminal;
pub mod text;
