//! The logic of a background service that keeps a file with the host's
//! current IPv4 addresses: the filtering of adapter addresses into a
//! snapshot, the bounded history of snapshots and its text, the service's
//! settings with their defaults, the control requests and the polling loop's
//! decisions, and the choice of command from the program's options.
pub mod address;
pub mod cli;
pub mod config;
pub mod history;
pub mod service;
