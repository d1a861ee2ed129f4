//! A tour of small Rust building blocks, each with a machine-checked contract.

pub mod closures;
pub mod control_flow;
pub mod crates;
pub mod enums;
pub mod error_handling;
pub mod ferris;
pub mod functions;
pub mod generics;
pub mod guessing_game;
pub mod hello_lib;
pub mod iterators;
pub mod lifetimes;
pub mod modules;
pub mod ownership;
pub mod penguins;
pub mod sequences;
pub mod structs;
pub mod text;
pub mod traits;
pub mod visibility;
