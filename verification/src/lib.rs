//! Configuration of a relay server.
//!
//! The crate decides everything that a relay server's command line and
//! configuration file decide: which addresses are bound, which certificates are
//! used, which rate limits hold, and which nodes may relay. It performs no I/O
//! of its own; files, sockets and HTTP requests belong to the program around it.

pub mod access;
pub mod addr;
pub mod cfg_defaults;
pub mod config;
pub mod error;
pub mod laws;
pub mod node_id;
pub mod path;
pub mod pem;
pub mod server;
pub mod startup;
pub mod tls;
