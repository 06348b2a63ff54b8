//! Instantiates project templates: looks up a language's template and commands in a
//! configuration document, replaces the name and output tokens, plans the copy of a template
//! tree, and decides the order in which configured commands run.

pub mod command;
pub mod config;
pub mod copy;
pub mod opts;
pub mod substitute;
