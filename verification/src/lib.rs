//! Headless bridge between a remote-desktop session and a local front-end:
//! the relay frame codec, the input event translator, the relay transport and
//! session adapter state, and the headless display session manager.

pub mod adapter;
pub mod cli;
pub mod codec;
pub mod handler;
pub mod input;
pub mod json;
pub mod rdp_session;
pub mod relay;
pub mod text;
