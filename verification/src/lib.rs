//! A version manager for the Sui toolchain, as a library: the record of what is
//! installed, the choice of what is the default, and the rules by which an installed
//! artifact becomes the default or is removed again.
//!
//! The library touches neither the disk nor the network. It is told what the caller
//! found (the text of a file, the paths at which files lie, what a step came to) and says
//! what follows: the next state, the next action, the new content of a store.

pub mod commands;
pub mod component;
pub mod config;
pub mod decimal;
pub mod defaults;
pub mod handlers;
pub mod json;
pub mod paths;
pub mod platform;
pub mod promotion;
pub mod registry;
pub mod removal;
pub mod sequences;
pub mod standalone;
pub mod store_format;
pub mod text;
pub mod types;
pub mod validation;
pub mod version;
