//! Which names a CommonJS module exports, found without running it.
//!
//! A discovery starts from one specifier. The resolver finds the file it stands
//! for; the file is analysed for the names it exports itself and for the modules
//! it hands on; those are resolved and analysed in turn, until nothing is left.
//! The names come out once each, in the order in which they were first found.
//!
//! The library decides; its caller acts. Neither the engine nor the resolver
//! touches the disk: each is a chain of steps that say what is to be probed,
//! read or analysed, and take the answer.

pub mod analysis;
pub mod builtin;
pub mod discovery;
pub mod discovery_laws;
pub mod encoder;
pub mod engine;
pub mod export_set;
pub mod ident;
pub mod invocation;
pub mod json;
pub mod path;
pub mod report;
pub mod resolution;
pub mod resolution_laws;
pub mod resolver;
pub mod text;
