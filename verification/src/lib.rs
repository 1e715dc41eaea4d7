//! Protocol logic behind a small wireless access point daemon: the offers of
//! its DHCP responder, the answers of its captive DNS responder, the replies of
//! its static web server, the interface lookup of its link manager, and the
//! run-loop protocol that lets every service be stopped and joined.
//!
//! Sockets, threads and signals are left to the program around this library.
//! It hands over plain values (bytes, addresses, the outcome of an operating
//! system call) and gets back what to send or do next.

pub mod wire;
pub mod server;
pub mod settings;
pub mod dhcp;
pub mod dns;
pub mod text;
pub mod web;
pub mod link;
pub mod conf;
pub mod log;
