//! The UI modules. Each owns private state, reports a fixed scene and mode,
//! and reacts to key events and to actions; cross-component communication is
//! exclusively via actions.

pub mod download;
pub mod general;
pub mod home;
pub mod manager;
