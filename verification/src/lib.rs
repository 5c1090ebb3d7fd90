//! Stack usage analysis of WebAssembly modules.
//!
//! [`instrument::Module`] reads a module and computes, for each function in its code section, the
//! size of the largest stack frame that the function can build up while it executes.

pub mod config;
pub mod effects;
pub mod harness;
pub mod instrument;
pub mod laws;
pub mod model;
pub mod module_laws;
mod namer;
pub mod operands;
pub mod operator;
pub mod partial_sum;
pub mod reader;
pub mod types;
pub mod visitor;
