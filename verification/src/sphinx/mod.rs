//! Sphinx mix network packet format adapted to the Xolotl ratchet.

pub mod node;

use vstd::prelude::*;

verus! {

/// Secret supplied by the Diffie-Hellman key exchange in Sphinx.
/// Also the secret symmetric key supplied by Xolotl, which must be
/// 256 bits for post-quantum security.
#[derive(Debug, Default, Clone, Copy, PartialEq, Eq, Hash)]
pub struct SphinxSecret(pub [u8; 32]);

impl SphinxSecret {
    pub fn new(ss: [u8; 32]) -> (r: SphinxSecret)
        ensures
            r.0 == ss,
    {
        SphinxSecret(ss)
    }
}

} // verus!
