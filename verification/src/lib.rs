//! Master/stack layout helper for the niri compositor.
//!
//! The library holds the decisions of the program: which windows form the
//! master and the stack, what is written to the per-workspace state file,
//! how a saved layout is restored, and how the master column is resized.
//! Talking to niri and to the file system is left to the caller, which
//! drives a [`session::Session`] and performs the requests it emits.

pub mod window;
pub mod cli;
pub mod sort;
pub mod state;
pub mod action;
pub mod stack;
pub mod restore;
pub mod resize;
pub mod session;
pub mod laws;
