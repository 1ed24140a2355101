//! Provisioning and teardown of a WireGuard interface driven by a
//! post-quantum key exchange: command-line parsing, the parameters pushed to
//! the kernel and to the exchange engine, and the interface lifecycle.

pub mod addr;
pub mod cli;
pub mod exchange;
pub mod error;
pub mod key;
pub mod lifecycle;
