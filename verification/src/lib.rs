//! A small line-oriented text editor core: a document buffer with cursor
//! arithmetic and mutation operations, a command interpreter with a modal
//! yes/no confirmation gate, and a viewport/scroll engine with fixed-width
//! tab expansion.  All I/O (terminal surface, filesystem, clock) is left to
//! the surrounding program: the session logic hands back the filesystem
//! actions it wants performed and takes their results as plain values.

pub mod command;
pub mod filedata;
pub mod numfmt;
pub mod session;

pub use filedata::FileData;
pub use filedata::DocView;
