//! Core of a one-shot serial exchanger: a hexdump trace renderer, the port
//! configuration parser, and the decision machines that drive one send and
//! one time-bounded receive over a serial line.
pub mod args;
pub mod config;
pub mod session;
pub mod trace;
pub mod transfer;
