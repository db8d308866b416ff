//! The platform layer that lets a standard library run on AROS, as plain decisions.
//!
//! Nothing in this crate talks to the system. Every operation says which call it
//! wants made, is told what the call answered, and then either wants another call or
//! has its result (see [`op`]). Whoever owns the real entry points performs the calls.
//!
//! Names that the system treats as raw bytes (paths, arguments, variables) are byte
//! vectors here. Handles that the system hands out are integers.
pub mod args;
pub mod env;
pub mod error;
pub mod fs;
pub mod io;
pub mod memory;
pub mod net;
pub mod op;
pub mod path;
pub mod paths;
pub mod pipe;
pub mod process;
pub mod random;
pub mod stdio;
pub mod sync;
pub mod text;
pub mod thread;
pub mod thread_local;
pub mod time;
