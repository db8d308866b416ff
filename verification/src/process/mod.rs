//! Child processes.
pub mod call;
pub mod child;
pub mod command;
pub mod env;
pub mod output;
pub mod quote;
pub mod script;
pub mod spawn;
pub mod status;
