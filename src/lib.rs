//! A small OpenPGP identity and single-recipient encryption toolkit.
//!
//! The cryptography itself is done by the `pgp` crate; this library decides
//! which key receives a message, which form a buffer is in, how key
//! generation is configured and how failures are classified, and proves
//! those decisions against their contracts.
pub mod cli;
pub mod codec;
pub mod engine;
pub mod error;
pub mod form;
pub mod generate;
pub mod openpgp;
pub mod select;
