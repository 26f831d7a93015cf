//! Xolotl: a ratchet variation on the Sphinx mix network packet format.
//!
//! The library is split into the hash-based ratchet (`ratchet`), the Sphinx
//! packet processing state machine (`sphinx`), and the trusted interfaces to
//! the outside cryptographic crates (`digest`, `consttime`).

pub mod bytes;
pub mod consttime;
pub mod digest;
pub mod ratchet;
pub mod sphinx;
pub mod text;
