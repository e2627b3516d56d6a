//! The decisions of an S3 server that speaks HTTP and HTTPS: how it starts, how
//! it opens its listener, which certificates it serves, whom it lets call its RPC
//! service, what becomes of each connection and how it shuts down. Sockets, files
//! and signals are left to the program around it, which performs what the library
//! decides and tells it what came of that.
pub mod auth;
pub mod backlog;
pub mod banner;
pub mod config;
pub mod connection;
pub mod host;
pub mod listener;
pub mod log;
pub mod query;
pub mod startup;
pub mod text;
pub mod tls;
pub mod trace;
pub mod worker;
