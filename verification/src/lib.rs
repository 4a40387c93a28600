//! Turns the structure of a source tree into diagrams and documents.
//!
//! Drivers produce one [`ir::Blueprint`] per source file; layouts turn a list
//! of blueprints into named documents.

pub mod config;
pub mod discovery;
pub mod drivers;
pub mod engine;
pub mod graph;
pub mod ir;
pub mod layouts;
pub mod names;
pub mod paths;
pub mod patterns;
pub mod text;
pub mod toml_source;
