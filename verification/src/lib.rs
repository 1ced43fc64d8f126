//! Core runtime of a terminal music application: the typed action model,
//! the focus-navigation stack, the layout manager, the UI component state
//! machines and the single-threaded dispatch orchestrator, together with an
//! in-memory music store. Terminal rendering, the event source and the
//! external search provider live outside this crate and talk to it through
//! plain values.

pub mod action;
pub mod app;
pub mod components;
pub mod database;
pub mod focus;
pub mod keybinds;
pub mod keys;
pub mod layouts;
pub mod mode;
pub mod text;
pub mod models;
