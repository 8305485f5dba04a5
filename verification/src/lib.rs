//! Keeps several server accounts for one game client and swaps between them.
//!
//! The client holds one live session in its configuration text. This library
//! reads that session, restores the credentials stored for the requested
//! server, archives the outgoing credentials in a vault keyed by server
//! address, and says which files the caller has to write and how the client
//! is to be launched afterwards. It touches no file and starts no process:
//! the caller reads and writes, the library decides.
//!
//! [`engine`] runs one switch step by step; [`swap`] is the exchange of
//! credentials at its heart, over [`config`] and [`vault`]. [`laws`] states
//! what holds of every switch. [`launcher`] and [`setup`] hold what the
//! launch of the client and the first-run setup have to compute, and
//! [`ini_file`] is the border to the crate that reads and writes the files'
//! format, with [`keyvalue`] as the checked way across it.

pub mod config;
pub mod engine;
pub mod error;
pub mod ini_file;
pub mod keyvalue;
pub mod launcher;
pub mod laws;
pub mod session;
pub mod setup;
pub mod swap;
pub mod text;
pub mod vault;
