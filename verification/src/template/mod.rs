//! Templates with embedded terminal commands: `"{'yellow}hi{'_}"`.

pub mod chars;
pub mod commands;
pub mod error;
pub mod spec;
pub mod parse;
pub mod laws;
pub mod macro_arg;
pub mod tables;
