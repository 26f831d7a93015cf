//! Twigs: the indices and the 128-bit keys of the hash-iteration ratchet.

use vstd::prelude::*;

verus! {

/// Index of a twig within a branch.
#[derive(Debug, Clone, Copy, PartialEq, Eq, Hash)]
pub struct TwigIdx(pub u16);

/// Index at which the chain of a freshly grown branch starts.
pub const TRAIN_START: u16 = 0;

/// The two bytes of a twig index, most significant first.
pub open spec fn twig_idx_bytes(i: u16) -> Seq<u8> {
    seq![(i / 256) as u8, (i % 256) as u8]
}

/// The two bytes of a twig index are two bytes, and read back as a
/// big-endian number they give the index again.
pub proof fn twig_idx_bytes_read_back(i: u16)
    ensures
        twig_idx_bytes(i).len() == 2,
        twig_idx_bytes(i)[0] as int * 256 + twig_idx_bytes(i)[1] as int == i as int,
{
}

impl TwigIdx {
    /// Big-endian encoding of the index, as fed to the key derivations.
    pub fn to_bytes(self) -> (r: [u8; 2])
        ensures
            r@ == twig_idx_bytes(self.0),
            r[0] as int * 256 + r[1] as int == self.0 as int,
    {
        let hi: u8 = (self.0 / 256) as u8;
        let lo: u8 = (self.0 % 256) as u8;
        let r = [hi, lo];
        assert(r@ =~= twig_idx_bytes(self.0));
        r
    }
}

/// Key of a train twig, which may advance along the train.
#[derive(Debug, Default, Clone, Copy, PartialEq, Eq, Hash)]
pub struct TrainKey(pub [u8; 16]);

/// Key of a chain twig.
#[derive(Debug, Default, Clone, Copy, PartialEq, Eq, Hash)]
pub struct ChainKey(pub [u8; 16]);

/// Key of a link twig, combined with a Sphinx secret into a berry.
#[derive(Debug, Default, Clone, Copy, PartialEq, Eq, Hash)]
pub struct LinkKey(pub [u8; 16]);

/// Key of a berry, from which a new branch may grow.
#[derive(Debug, Default, Clone, Copy, PartialEq, Eq, Hash)]
pub struct BerryKey(pub [u8; 16]);

impl TrainKey {
    pub fn new(k: [u8; 16]) -> (r: TrainKey)
        ensures
            r.0 == k,
    {
        TrainKey(k)
    }
}

impl ChainKey {
    pub fn new(k: [u8; 16]) -> (r: ChainKey)
        ensures
            r.0 == k,
    {
        ChainKey(k)
    }
}

impl LinkKey {
    pub fn new(k: [u8; 16]) -> (r: LinkKey)
        ensures
            r.0 == k,
    {
        LinkKey(k)
    }
}

impl BerryKey {
    pub fn new(k: [u8; 16]) -> (r: BerryKey)
        ensures
            r.0 == k,
    {
        BerryKey(k)
    }
}

} // verus!
