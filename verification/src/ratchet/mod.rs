//! The Xolotl hash-iteration ratchet.

pub mod branch;
pub mod twig;

use vstd::prelude::*;

verus! {

/// Symmetric key that encrypts one message, derived from a berry.
#[derive(Debug, Default, Clone, Copy, PartialEq, Eq, Hash)]
pub struct MessageKey(pub [u8; 32]);

impl MessageKey {
    pub fn new(k: [u8; 32]) -> (r: MessageKey)
        ensures
            r.0 == k,
    {
        MessageKey(k)
    }
}

} // verus!
