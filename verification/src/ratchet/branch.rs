//! Xolotl DH ratchet branches.

use vstd::prelude::*;
use vstd::std_specs::cmp::PartialEqSpecImpl;
use vstd::string::StringSliceAdditionalSpecFns;
use crate::bytes::{append_bytes, bytes16_at, bytes32_at};
use crate::consttime::ct_u8_slice_eq;
use crate::digest::{sha3_256, sha3_256_digest, sha3_384, sha3_384_digest, sha3_512, sha3_512_digest};
use crate::ratchet::MessageKey;
use crate::ratchet::twig::{
    twig_idx_bytes, BerryKey, ChainKey, LinkKey, TrainKey, TwigIdx, TRAIN_START,
};
use crate::sphinx::SphinxSecret;
use crate::text::{decimal_chars, hex_chars, push_decimal, push_hex, push_str};

verus! {

/// We keep an extra 256 bit secret symmetric key associated to any
/// hash iteration ratchet, which raises our longer term security
/// to above 256 bits.  We envision only the chaining of DH ratchets
/// to come into play against a quantum attacker, just like only the
/// root key defends an Axolotl ratchet against a quantum attacker.
/// We claim this gives us 128 bits against a quantum attacker.
///
/// In principle, we could employ only a 128 bit extra key here, as
/// an adversary probably cannot gain enough information to deploy
/// Grover's algorithm against any given hash iteration step.
#[derive(Debug, Default, Clone, Copy)]
pub struct ExtraKey(pub [u8; 32]);

/// Use constant time equality for `ExtraKey`.  Arguably, one should not
/// provide `==` and force users to do it manually, but this seems safer.
impl PartialEq for ExtraKey {
    fn eq(&self, other: &ExtraKey) -> (r: bool) {
        ct_u8_slice_eq(&self.0, &other.0)
    }
}

impl PartialEqSpecImpl for ExtraKey {
    open spec fn obeys_eq_spec() -> bool {
        true
    }

    open spec fn eq_spec(&self, other: &ExtraKey) -> bool {
        self.0@ == other.0@
    }
}

impl Eq for ExtraKey {}

/// Identifying name for a ratchet branch.
///
/// At 128 bits, there is a 2^64ish quantum attack to fake a ratchet
/// branch name, allowing an attacker to claim ratchet knowledge they
/// do not possess, but this should prove useless due to the MAC.
#[derive(Debug, Clone, Copy, PartialEq, Eq, Hash)]
pub struct BranchName(pub [u8; 16]);

/// In storage, branches are identified by their parent branch's name,
/// called their family, along with the berry that spawned them.
#[derive(Debug, Clone, Copy, PartialEq, Eq, Hash)]
pub struct BranchId {
    pub family: BranchName,
    pub berry: TwigIdx,
}

impl BranchId {
    /// The id as text: `BranchId(`, the hexadecimal of the family name, a
    /// comma, the decimal berry index and `)`.
    pub fn to_string(&self) -> (t: String)
        ensures
            t@ == "BranchId("@ + hex_chars(self.family.0@) + ","@ + decimal_chars(self.berry.0 as nat)
                + ")"@,
    {
        let mut t = String::new();
        push_str(&mut t, "BranchId(");
        push_hex(&mut t, &self.family.0);
        push_str(&mut t, ",");
        push_decimal(&mut t, self.berry.0);
        push_str(&mut t, ")");
        t
    }
}

/// Branches grow from leaves and DH key exchanges.  A branch's `BranchId`
/// used for storage must be tracked separately by transaction objects.
pub struct Branch {
    /// A branch stores an extra 256 bits of key material beyond
    /// the 128 bits stored in twigs to support post-quantum security.
    pub extra: ExtraKey,
    /// Index of next chainkey expected to be converted into a berry key.
    /// There can be train twigs larger than chain, but no twigs of other types.
    pub chain: TwigIdx,
}

/// The lines of a nice poem about cats, which separate the inputs of our KDFs.
pub open spec fn tiger(k: int) -> Seq<u8> {
    if k == 0 {
        "Little Tiger, burning bright".spec_bytes()
    } else if k == 1 {
        "With a subtle Blakeish light,".spec_bytes()
    } else if k == 2 {
        "Tell what visions have their home".spec_bytes()
    } else if k == 3 {
        "In those eyes of flame and chrome!".spec_bytes()
    } else if k == 4 {
        "Children vex thee - thoughtless, gay -".spec_bytes()
    } else if k == 5 {
        "Holding when thou wouldst away:".spec_bytes()
    } else if k == 6 {
        "What dark lore is that which thou,".spec_bytes()
    } else if k == 7 {
        "Spitting, mixest with thy meow?".spec_bytes()
    } else {
        "    - H.P. Lovecraft".spec_bytes()
    }
}

/// Line `k` of the poem, as text.
pub fn tiger_line(k: usize) -> (line: &'static str)
    requires
        k < 9,
    ensures
        line.spec_bytes() == tiger(k as int),
{
    if k == 0 {
        "Little Tiger, burning bright"
    } else if k == 1 {
        "With a subtle Blakeish light,"
    } else if k == 2 {
        "Tell what visions have their home"
    } else if k == 3 {
        "In those eyes of flame and chrome!"
    } else if k == 4 {
        "Children vex thee - thoughtless, gay -"
    } else if k == 5 {
        "Holding when thou wouldst away:"
    } else if k == 6 {
        "What dark lore is that which thou,"
    } else if k == 7 {
        "Spitting, mixest with thy meow?"
    } else {
        "    - H.P. Lovecraft"
    }
}

/// Appends line `k` of the poem to `v`.
fn append_tiger(v: &mut Vec<u8>, k: usize)
    requires
        k < 9,
    ensures
        final(v)@ == old(v)@ + tiger(k as int),
{
    append_bytes(v, tiger_line(k).as_bytes());
}

/// What is hashed (SHA3-256) to name the children of a branch.
pub open spec fn child_family_message(extra: Seq<u8>) -> Seq<u8> {
    tiger(3) + extra + tiger(5) + extra
}

/// The family name of the children of a branch with extra key `extra`:
/// the first 16 bytes of the SHA3-256 digest of `child_family_message`.
pub open spec fn child_family(extra: Seq<u8>) -> Seq<u8> {
    sha3_256_digest(child_family_message(extra)).take(16)
}

impl Branch {
    /// The message hashed by `child_family_name`.
    pub fn child_family_input(&self) -> (m: Vec<u8>)
        ensures
            m@ == child_family_message(self.extra.0@),
    {
        let mut m: Vec<u8> = Vec::new();
        append_tiger(&mut m, 3);
        append_bytes(&mut m, &self.extra.0);
        append_tiger(&mut m, 5);
        append_bytes(&mut m, &self.extra.0);
        assert(m@ =~= child_family_message(self.extra.0@));
        m
    }

    /// Family name for child branches spawned from our berries.
    pub fn child_family_name(&self) -> (r: BranchName)
        ensures
            r.0@ == child_family(self.extra.0@),
    {
        let m = self.child_family_input();
        let d = sha3_256(m.as_slice());
        BranchName::from_digest(&d)
    }
}

impl BranchName {
    /// The name as text: `BranchName(` and the lower-case hexadecimal of its
    /// bytes, then `)`.
    pub fn to_string(&self) -> (t: String)
        ensures
            t@ == "BranchName("@ + hex_chars(self.0@) + ")"@,
    {
        let mut t = String::new();
        push_str(&mut t, "BranchName(");
        push_hex(&mut t, &self.0);
        push_str(&mut t, ")");
        t
    }


    /// The branch name carried by a SHA3-256 digest: its first 16 bytes.
    pub fn from_digest(d: &[u8; 32]) -> (r: BranchName)
        ensures
            r.0@ == d@.take(16),
    {
        let a = bytes16_at(d, 0);
        assert(d@.subrange(0, 16) =~= d@.take(16));
        BranchName(a)
    }
}

/// What is hashed (SHA3-512) to advance train twig `i` with key `ck`.
pub open spec fn train_message(extra: Seq<u8>, i: u16, ck: Seq<u8>) -> Seq<u8> {
    tiger(0) + extra + ck + tiger(1) + extra + tiger(2) + twig_idx_bytes(i) + ck + tiger(3)
}

/// What is hashed (SHA3-256) to advance chain twig `i` with key `ck`.
pub open spec fn chain_message(extra: Seq<u8>, i: u16, ck: Seq<u8>) -> Seq<u8> {
    tiger(2) + extra + ck + tiger(3) + twig_idx_bytes(i) + extra + tiger(4) + ck + tiger(5)
}

/// What is hashed (SHA3-384) to turn a link key and a Sphinx secret into a berry.
pub open spec fn berry_message(extra: Seq<u8>, lk: Seq<u8>, s: Seq<u8>) -> Seq<u8> {
    tiger(4) + extra + lk + tiger(5) + s + extra + tiger(6) + s + lk + tiger(7)
}

/// What is hashed (SHA3-384) to grow a new branch from berry `i` with key `bk`.
pub open spec fn branch_message(extra: Seq<u8>, i: u16, bk: Seq<u8>) -> Seq<u8> {
    extra + tiger(0) + bk + tiger(2) + extra + tiger(4) + twig_idx_bytes(i) + bk + tiger(6)
}

/// What is hashed (SHA3-512) to grow a first branch from a seed.
pub open spec fn seed_message(seed: Seq<u8>) -> Seq<u8> {
    tiger(1) + seed + tiger(7)
}

/// The poem, line by line.
pub proof fn tiger_is_the_poem()
    ensures
        tiger(0) == "Little Tiger, burning bright".spec_bytes(),
        tiger(1) == "With a subtle Blakeish light,".spec_bytes(),
        tiger(2) == "Tell what visions have their home".spec_bytes(),
        tiger(3) == "In those eyes of flame and chrome!".spec_bytes(),
        tiger(4) == "Children vex thee - thoughtless, gay -".spec_bytes(),
        tiger(5) == "Holding when thou wouldst away:".spec_bytes(),
        tiger(6) == "What dark lore is that which thou,".spec_bytes(),
        tiger(7) == "Spitting, mixest with thy meow?".spec_bytes(),
        tiger(8) == "    - H.P. Lovecraft".spec_bytes(),
{
}

/// The message that names the children of a branch is the fourth poem line,
/// the extra key, the sixth line and the extra key again.
pub proof fn child_family_message_layout(extra: Seq<u8>)
    ensures
        child_family_message(extra) == "In those eyes of flame and chrome!".spec_bytes() + extra
            + "Holding when thou wouldst away:".spec_bytes() + extra,
{
}

/// The berry message is, in order: the fifth poem line, the extra key, the
/// link key, the sixth line, the Sphinx secret, the extra key, the seventh
/// line, the Sphinx secret, the link key and the eighth line.
pub proof fn berry_message_layout(extra: Seq<u8>, lk: Seq<u8>, s: Seq<u8>)
    ensures
        berry_message(extra, lk, s) == "Children vex thee - thoughtless, gay -".spec_bytes() + extra
            + lk + "Holding when thou wouldst away:".spec_bytes() + s + extra
            + "What dark lore is that which thou,".spec_bytes() + s + lk
            + "Spitting, mixest with thy meow?".spec_bytes(),
{
}

/// The 16-byte blocks of a digest cover it in order: two of them make up a
/// 32-byte digest and four a 64-byte one.
pub proof fn blocks_cover_the_digest(d: Seq<u8>)
    ensures
        d.len() == 32 ==> block16(d, 0) + block16(d, 1) == d,
        d.len() == 64 ==> block16(d, 0) + block16(d, 1) + block16(d, 2) + block16(d, 3) == d,
        d.len() >= 16 ==> block16(d, 0) == d.take(16),
{
    if d.len() == 32 {
        assert(block16(d, 0) + block16(d, 1) =~= d);
    }
    if d.len() == 64 {
        assert(block16(d, 0) + block16(d, 1) + block16(d, 2) + block16(d, 3) =~= d);
    }
    if d.len() >= 16 {
        assert(block16(d, 0) =~= d.take(16));
    }
}

/// Two messages that frame a big-endian index the same way are equal only
/// when the indices are.
proof fn framed_index_determines_index(pre: Seq<u8>, post: Seq<u8>, i: u16, j: u16)
    requires
        pre + seq![(i / 256) as u8, (i % 256) as u8] + post == pre + seq![
            (j / 256) as u8,
            (j % 256) as u8,
        ] + post,
    ensures
        i == j,
{
    let a = pre + seq![(i / 256) as u8, (i % 256) as u8] + post;
    let b = pre + seq![(j / 256) as u8, (j % 256) as u8] + post;
    let p = pre.len() as int;
    assert(a[p] == (i / 256) as u8);
    assert(b[p] == (j / 256) as u8);
    assert(a[p + 1] == (i % 256) as u8);
    assert(b[p + 1] == (j % 256) as u8);
    assert(i / 256 == j / 256);
    assert(i % 256 == j % 256);
}

/// The train message is, in order: the first poem line, the extra key, the
/// train key, the second line, the extra key, the third line, the full twig
/// index as two big-endian bytes, the train key and the fourth line.
pub proof fn train_message_layout(extra: Seq<u8>, i: u16, ck: Seq<u8>)
    ensures
        train_message(extra, i, ck) == "Little Tiger, burning bright".spec_bytes() + extra + ck
            + "With a subtle Blakeish light,".spec_bytes() + extra
            + "Tell what visions have their home".spec_bytes() + seq![
            (i / 256) as u8,
            (i % 256) as u8,
        ] + ck + "In those eyes of flame and chrome!".spec_bytes(),
{
}

/// Different train twigs hash different messages.
pub proof fn train_message_separates_indices(extra: Seq<u8>, ck: Seq<u8>, i: u16, j: u16)
    ensures
        i != j ==> train_message(extra, i, ck) != train_message(extra, j, ck),
        train_message(extra, i, ck).len() == train_message(extra, j, ck).len(),
{
    let pre = tiger(0) + extra + ck + tiger(1) + extra + tiger(2);
    let post = ck + tiger(3);
    assert(train_message(extra, i, ck) =~= pre + seq![(i / 256) as u8, (i % 256) as u8] + post);
    assert(train_message(extra, j, ck) =~= pre + seq![(j / 256) as u8, (j % 256) as u8] + post);
    if train_message(extra, i, ck) == train_message(extra, j, ck) {
        framed_index_determines_index(pre, post, i, j);
    }
}

/// The chain message is, in order: the third poem line, the extra key, the
/// chain key, the fourth line, the full twig index as two big-endian bytes,
/// the extra key, the fifth line, the chain key and the sixth line.
pub proof fn chain_message_layout(extra: Seq<u8>, i: u16, ck: Seq<u8>)
    ensures
        chain_message(extra, i, ck) == "Tell what visions have their home".spec_bytes() + extra + ck
            + "In those eyes of flame and chrome!".spec_bytes() + seq![
            (i / 256) as u8,
            (i % 256) as u8,
        ] + extra + "Children vex thee - thoughtless, gay -".spec_bytes() + ck
            + "Holding when thou wouldst away:".spec_bytes(),
{
}

/// Different chain twigs hash different messages.
pub proof fn chain_message_separates_indices(extra: Seq<u8>, ck: Seq<u8>, i: u16, j: u16)
    ensures
        i != j ==> chain_message(extra, i, ck) != chain_message(extra, j, ck),
        chain_message(extra, i, ck).len() == chain_message(extra, j, ck).len(),
{
    let pre = tiger(2) + extra + ck + tiger(3);
    let post = extra + tiger(4) + ck + tiger(5);
    assert(chain_message(extra, i, ck) =~= pre + seq![(i / 256) as u8, (i % 256) as u8] + post);
    assert(chain_message(extra, j, ck) =~= pre + seq![(j / 256) as u8, (j % 256) as u8] + post);
    if chain_message(extra, i, ck) == chain_message(extra, j, ck) {
        framed_index_determines_index(pre, post, i, j);
    }
}

/// The branch message is, in order: the extra key, the first poem line, the
/// berry key, the third line, the extra key, the fifth line, the full berry
/// index as two big-endian bytes, the berry key and the seventh line.
pub proof fn branch_message_layout(extra: Seq<u8>, i: u16, bk: Seq<u8>)
    ensures
        branch_message(extra, i, bk) == extra + "Little Tiger, burning bright".spec_bytes() + bk
            + "Tell what visions have their home".spec_bytes() + extra
            + "Children vex thee - thoughtless, gay -".spec_bytes() + seq![
            (i / 256) as u8,
            (i % 256) as u8,
        ] + bk + "What dark lore is that which thou,".spec_bytes(),
{
}

/// Different berries hash different branch messages.
pub proof fn branch_message_separates_indices(extra: Seq<u8>, bk: Seq<u8>, i: u16, j: u16)
    ensures
        i != j ==> branch_message(extra, i, bk) != branch_message(extra, j, bk),
        branch_message(extra, i, bk).len() == branch_message(extra, j, bk).len(),
{
    let pre = extra + tiger(0) + bk + tiger(2) + extra + tiger(4);
    let post = bk + tiger(6);
    assert(branch_message(extra, i, bk) =~= pre + seq![(i / 256) as u8, (i % 256) as u8] + post);
    assert(branch_message(extra, j, bk) =~= pre + seq![(j / 256) as u8, (j % 256) as u8] + post);
    if branch_message(extra, i, bk) == branch_message(extra, j, bk) {
        framed_index_determines_index(pre, post, i, j);
    }
}

/// The seed message is the second poem line, the whole seed and the eighth
/// line.
pub proof fn seed_message_layout(seed: Seq<u8>)
    ensures
        seed_message(seed) == "With a subtle Blakeish light,".spec_bytes() + seed
            + "Spitting, mixest with thy meow?".spec_bytes(),
{
}

/// Different seeds hash different messages: every byte of a seed, of any
/// length, reaches the hash.
pub proof fn seed_message_separates_seeds(a: Seq<u8>, b: Seq<u8>)
    ensures
        seed_message(a) == seed_message(b) ==> a == b,
        seed_message(a).len() == tiger(1).len() + a.len() + tiger(7).len(),
{
    let ma = seed_message(a);
    let mb = seed_message(b);
    let p = tiger(1).len() as int;
    assert(ma =~= tiger(1) + a + tiger(7));
    assert(mb =~= tiger(1) + b + tiger(7));
    if ma == mb {
        assert(ma.len() == mb.len());
        assert(a.len() == b.len());
        assert(ma.subrange(p, p + a.len()) =~= a);
        assert(mb.subrange(p, p + b.len()) =~= b);
    }
}

/// The `k`-th block of 16 bytes of `d`.
pub open spec fn block16(d: Seq<u8>, k: int) -> Seq<u8> {
    d.subrange(16 * k, 16 * k + 16)
}

impl Branch {
    /// The message hashed by `kdf_train`.
    pub fn train_input(&self, i: TwigIdx, ck: &TrainKey) -> (m: Vec<u8>)
        ensures
            m@ == train_message(self.extra.0@, i.0, ck.0@),
    {
        let ib = i.to_bytes();
        let mut m: Vec<u8> = Vec::new();
        append_tiger(&mut m, 0);
        append_bytes(&mut m, &self.extra.0);
        append_bytes(&mut m, &ck.0);
        append_tiger(&mut m, 1);
        append_bytes(&mut m, &self.extra.0);
        append_tiger(&mut m, 2);
        append_bytes(&mut m, &ib);
        append_bytes(&mut m, &ck.0);
        append_tiger(&mut m, 3);
        assert(m@ =~= train_message(self.extra.0@, i.0, ck.0@));
        m
    }

    /// The keys carried by a SHA3-512 digest of a train message, in order:
    /// the next two train keys, a chain key and a link key.
    pub fn train_keys(d: &[u8; 64]) -> (r: (TrainKey, TrainKey, ChainKey, LinkKey))
        ensures
            r.0.0@ == block16(d@, 0),
            r.1.0@ == block16(d@, 1),
            r.2.0@ == block16(d@, 2),
            r.3.0@ == block16(d@, 3),
    {
        (
            TrainKey::new(bytes16_at(d, 0)),
            TrainKey::new(bytes16_at(d, 16)),
            ChainKey::new(bytes16_at(d, 32)),
            LinkKey::new(bytes16_at(d, 48)),
        )
    }

    /// Advance a train twig.
    pub fn kdf_train(&self, i: TwigIdx, ck: &TrainKey) -> (r: (TrainKey, TrainKey, ChainKey, LinkKey))
        ensures
            ({
                let d = sha3_512_digest(train_message(self.extra.0@, i.0, ck.0@));
                &&& r.0.0@ == block16(d, 0)
                &&& r.1.0@ == block16(d, 1)
                &&& r.2.0@ == block16(d, 2)
                &&& r.3.0@ == block16(d, 3)
            }),
    {
        let m = self.train_input(i, ck);
        let d = sha3_512(m.as_slice());
        Branch::train_keys(&d)
    }

    /// The message hashed by `kdf_chain`.
    pub fn chain_input(&self, i: TwigIdx, ck: &ChainKey) -> (m: Vec<u8>)
        ensures
            m@ == chain_message(self.extra.0@, i.0, ck.0@),
    {
        let ib = i.to_bytes();
        let mut m: Vec<u8> = Vec::new();
        append_tiger(&mut m, 2);
        append_bytes(&mut m, &self.extra.0);
        append_bytes(&mut m, &ck.0);
        append_tiger(&mut m, 3);
        append_bytes(&mut m, &ib);
        append_bytes(&mut m, &self.extra.0);
        append_tiger(&mut m, 4);
        append_bytes(&mut m, &ck.0);
        append_tiger(&mut m, 5);
        assert(m@ =~= chain_message(self.extra.0@, i.0, ck.0@));
        m
    }

    /// The keys carried by a SHA3-256 digest of a chain message, in order:
    /// the next chain key and a link key.
    pub fn chain_keys(d: &[u8; 32]) -> (r: (ChainKey, LinkKey))
        ensures
            r.0.0@ == block16(d@, 0),
            r.1.0@ == block16(d@, 1),
    {
        (ChainKey::new(bytes16_at(d, 0)), LinkKey::new(bytes16_at(d, 16)))
    }

    /// Advance a chain twig.
    pub fn kdf_chain(&self, i: TwigIdx, ck: &ChainKey) -> (r: (ChainKey, LinkKey))
        ensures
            ({
                let d = sha3_256_digest(chain_message(self.extra.0@, i.0, ck.0@));
                &&& r.0.0@ == block16(d, 0)
                &&& r.1.0@ == block16(d, 1)
            }),
    {
        let m = self.chain_input(i, ck);
        let d = sha3_256(m.as_slice());
        Branch::chain_keys(&d)
    }

    /// The message hashed by `kdf_berry`.
    pub fn berry_input(&self, linkkey: &LinkKey, s: &SphinxSecret) -> (m: Vec<u8>)
        ensures
            m@ == berry_message(self.extra.0@, linkkey.0@, s.0@),
    {
        let mut m: Vec<u8> = Vec::new();
        append_tiger(&mut m, 4);
        append_bytes(&mut m, &self.extra.0);
        append_bytes(&mut m, &linkkey.0);
        append_tiger(&mut m, 5);
        append_bytes(&mut m, &s.0);
        append_bytes(&mut m, &self.extra.0);
        append_tiger(&mut m, 6);
        append_bytes(&mut m, &s.0);
        append_bytes(&mut m, &linkkey.0);
        append_tiger(&mut m, 7);
        assert(m@ =~= berry_message(self.extra.0@, linkkey.0@, s.0@));
        m
    }

    /// The keys carried by a SHA3-384 digest of a berry message: a 32-byte
    /// message key, then a berry key.
    pub fn berry_keys(d: &[u8; 48]) -> (r: (MessageKey, BerryKey))
        ensures
            r.0.0@ == d@.subrange(0, 32),
            r.1.0@ == d@.subrange(32, 48),
    {
        (MessageKey::new(bytes32_at(d, 0)), BerryKey::new(bytes16_at(d, 32)))
    }

    /// Sphinx berry KDF.
    pub fn kdf_berry(&self, linkkey: &LinkKey, s: &SphinxSecret) -> (r: (MessageKey, BerryKey))
        ensures
            ({
                let d = sha3_384_digest(berry_message(self.extra.0@, linkkey.0@, s.0@));
                &&& r.0.0@ == d.subrange(0, 32)
                &&& r.1.0@ == d.subrange(32, 48)
            }),
    {
        let m = self.berry_input(linkkey, s);
        let d = sha3_384(m.as_slice());
        Branch::berry_keys(&d)
    }

    /// The message hashed by `kdf_branch`.
    pub fn branch_input(&self, i: TwigIdx, bk: &BerryKey) -> (m: Vec<u8>)
        ensures
            m@ == branch_message(self.extra.0@, i.0, bk.0@),
    {
        let ib = i.to_bytes();
        let mut m: Vec<u8> = Vec::new();
        append_bytes(&mut m, &self.extra.0);
        append_tiger(&mut m, 0);
        append_bytes(&mut m, &bk.0);
        append_tiger(&mut m, 2);
        append_bytes(&mut m, &self.extra.0);
        append_tiger(&mut m, 4);
        append_bytes(&mut m, &ib);
        append_bytes(&mut m, &bk.0);
        append_tiger(&mut m, 6);
        assert(m@ =~= branch_message(self.extra.0@, i.0, bk.0@));
        m
    }

    /// The branch grown from berry `i` of a branch whose children are named
    /// `family`, given the SHA3-384 digest of the branch message: its extra
    /// key is the first 32 bytes, its train key the last 16, and its chain
    /// starts at `TRAIN_START`.
    pub fn grown_from(family: BranchName, i: TwigIdx, d: &[u8; 48]) -> (r: (BranchId, Branch, TrainKey))
        ensures
            r.0.family == family,
            r.0.berry == i,
            r.1.extra.0@ == d@.subrange(0, 32),
            r.1.chain.0 == TRAIN_START,
            r.2.0@ == d@.subrange(32, 48),
    {
        (
            BranchId { family, berry: i },
            Branch { extra: ExtraKey(bytes32_at(d, 0)), chain: TwigIdx(TRAIN_START) },
            TrainKey::new(bytes16_at(d, 32)),
        )
    }

    /// Produce a new branch from a berry.
    pub fn kdf_branch(&self, i: TwigIdx, bk: &BerryKey) -> (r: (BranchId, Branch, TrainKey))
        ensures
            ({
                let d = sha3_384_digest(branch_message(self.extra.0@, i.0, bk.0@));
                &&& r.0.family.0@ == child_family(self.extra.0@)
                &&& r.0.berry == i
                &&& r.1.extra.0@ == d.subrange(0, 32)
                &&& r.1.chain.0 == TRAIN_START
                &&& r.2.0@ == d.subrange(32, 48)
            }),
    {
        let m = self.branch_input(i, bk);
        let d = sha3_384(m.as_slice());
        Branch::grown_from(self.child_family_name(), i, &d)
    }

    /// The message hashed by `new_kdf`.
    pub fn seed_input(seed: &[u8]) -> (m: Vec<u8>)
        ensures
            m@ == seed_message(seed@),
    {
        let mut m: Vec<u8> = Vec::new();
        append_tiger(&mut m, 1);
        append_bytes(&mut m, seed);
        append_tiger(&mut m, 7);
        assert(m@ =~= seed_message(seed@));
        m
    }

    /// The first branch grown from the SHA3-512 digest of a seed message:
    /// the extra key is the first 32 bytes, the family name the next 16 and
    /// the train key the last 16; the berry index is the largest twig index
    /// and the chain starts at `TRAIN_START`.
    pub fn seeded(d: &[u8; 64]) -> (r: (BranchId, Branch, TrainKey))
        ensures
            r.0.family.0@ == d@.subrange(32, 48),
            r.0.berry.0 == u16::MAX,
            r.1.extra.0@ == d@.subrange(0, 32),
            r.1.chain.0 == TRAIN_START,
            r.2.0@ == d@.subrange(48, 64),
    {
        (
            BranchId { family: BranchName(bytes16_at(d, 32)), berry: TwigIdx(u16::MAX) },
            Branch { extra: ExtraKey(bytes32_at(d, 0)), chain: TwigIdx(TRAIN_START) },
            TrainKey::new(bytes16_at(d, 48)),
        )
    }

    /// Grow a first branch from a seed.
    pub fn new_kdf(seed: &[u8]) -> (r: (BranchId, Branch, TrainKey))
        ensures
            ({
                let d = sha3_512_digest(seed_message(seed@));
                &&& r.0.family.0@ == d.subrange(32, 48)
                &&& r.0.berry.0 == u16::MAX
                &&& r.1.extra.0@ == d.subrange(0, 32)
                &&& r.1.chain.0 == TRAIN_START
                &&& r.2.0@ == d.subrange(48, 64)
            }),
    {
        let m = Branch::seed_input(seed);
        let d = sha3_512(m.as_slice());
        Branch::seeded(&d)
    }
}

} // verus!
