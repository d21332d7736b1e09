//! Random generation of structurally well-formed modules for a stack-based
//! virtual machine's container format.
//!
//! The generator builds modules table by table, keeping every cross-table
//! index valid at the moment it is written, and weaves a rooted, acyclic
//! call graph across a growing universe of previously finalized modules.
//! Generated function bodies are non-semantic filler unless a caller supplies
//! a body synthesizer of its own.

pub mod builder;
pub mod common;
pub mod dag;
pub mod file_format;
pub mod generator;
pub mod rng;
