//! Core of a chat bot that answers build/release questions about the Paper
//! software catalog: it parses a command line into a typed request, and turns
//! a catalog lookup result into a bounded, ordered reply.
pub mod catalog;
pub mod clock;
pub mod commands;
pub mod render;
pub mod router;
pub mod text;
