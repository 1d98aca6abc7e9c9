//! A modal, keyboard-driven chat client core: the conversation store, the
//! interaction state machine, the key dispatcher and the decisions that
//! coordinate background fetches with the interactive loop.

pub mod accounts;
pub mod app;
pub mod input;
pub mod orchestrator;
pub mod text;
pub mod wrap;
pub mod laws;
