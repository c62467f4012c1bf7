//! Decision logic of the Rust-Eze planet: how the planet answers the
//! orchestrator and the explorers, proved against the state it keeps.
pub mod game;
pub mod messages;
pub mod rust_eze;
pub mod stateful;
