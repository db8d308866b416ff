//! Files and directories.
pub mod attr;
pub mod call;
pub mod dir;
pub mod file;
pub mod ops;
pub mod options;
pub mod translate;
