//! Decisions of the native build: target architecture, sources and compiler flags.

pub mod steps;
pub mod target;
pub mod words;
