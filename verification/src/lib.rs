//! Binary transport for exchanging commands with a TPM (or its simulator)
//! over a byte-stream connection.
//!
//! The crate holds the protocol logic itself: the error taxonomy and its
//! canonical mapping into the outer return-code space, the big-endian wire
//! codec, the platform-control bring-up sequence with its retry policy, and
//! the single request/response exchange of `transact`, each modelled as data
//! and decision functions so that the byte-stream driver around it only
//! performs the reads and writes it is told to.

pub mod control;
pub mod errors;
pub mod transact;
pub mod wire;
