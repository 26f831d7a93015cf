use sha3::{Digest, Sha3_256, Sha3_384, Sha3_512};
use xolotl::ratchet::branch::{tiger_line, Branch, BranchId, BranchName, ExtraKey};
use xolotl::ratchet::twig::{BerryKey, ChainKey, LinkKey, TrainKey, TwigIdx, TRAIN_START};
use xolotl::ratchet::MessageKey;
use xolotl::sphinx::SphinxSecret;

const TIGER: [&str; 9] = [
    "Little Tiger, burning bright",
    "With a subtle Blakeish light,",
    "Tell what visions have their home",
    "In those eyes of flame and chrome!",
    "Children vex thee - thoughtless, gay -",
    "Holding when thou wouldst away:",
    "What dark lore is that which thou,",
    "Spitting, mixest with thy meow?",
    "    - H.P. Lovecraft",
];

fn cat(parts: &[&[u8]]) -> Vec<u8> {
    let mut v = Vec::new();
    for p in parts {
        v.extend_from_slice(p);
    }
    v
}

fn t(k: usize) -> &'static [u8] {
    TIGER[k].as_bytes()
}

fn branch(extra: [u8; 32]) -> Branch {
    Branch { extra: ExtraKey(extra), chain: TwigIdx(TRAIN_START) }
}

#[test]
fn tiger_lines_are_the_poem() {
    for k in 0..9 {
        assert_eq!(tiger_line(k), TIGER[k]);
    }
}

#[test]
fn twig_idx_bytes_are_big_endian() {
    assert_eq!(TwigIdx(0x1234).to_bytes(), [0x12, 0x34]);
    assert_eq!(TwigIdx(0).to_bytes(), [0, 0]);
    assert_eq!(TwigIdx(u16::MAX).to_bytes(), [0xff, 0xff]);
}

#[test]
fn extra_key_equality_compares_bytes() {
    let mut b = [3u8; 32];
    assert!(ExtraKey([3u8; 32]) == ExtraKey(b));
    b[31] = 4;
    assert!(ExtraKey([3u8; 32]) != ExtraKey(b));
    b[31] = 3;
    b[0] = 0;
    assert!(!(ExtraKey([3u8; 32]) == ExtraKey(b)));
}

#[test]
fn child_family_name_hashes_the_poem_and_extra_key() {
    let extra = [5u8; 32];
    let b = branch(extra);
    let msg = cat(&[t(3), &extra, t(5), &extra]);
    assert_eq!(b.child_family_input(), msg);
    let d = Sha3_256::digest(&msg);
    let mut want = [0u8; 16];
    want.copy_from_slice(&d[..16]);
    assert_eq!(b.child_family_name(), BranchName(want));
}

#[test]
fn branch_name_from_digest_takes_first_half() {
    let mut d = [0u8; 32];
    for i in 0..32 {
        d[i] = i as u8;
    }
    let n = BranchName::from_digest(&d);
    assert_eq!(n.0, [0, 1, 2, 3, 4, 5, 6, 7, 8, 9, 10, 11, 12, 13, 14, 15]);
}

#[test]
fn kdf_train_splits_sha3_512() {
    let extra = [1u8; 32];
    let b = branch(extra);
    let ck = TrainKey::new([2u8; 16]);
    let i = TwigIdx(0x0102);
    let msg = cat(&[t(0), &extra, &[2u8; 16], t(1), &extra, t(2), &[1, 2], &[2u8; 16], t(3)]);
    assert_eq!(b.train_input(i, &ck), msg);
    let d = Sha3_512::digest(&msg);
    let (a, bb, c, l) = b.kdf_train(i, &ck);
    assert_eq!(&a.0[..], &d[0..16]);
    assert_eq!(&bb.0[..], &d[16..32]);
    assert_eq!(&c.0[..], &d[32..48]);
    assert_eq!(&l.0[..], &d[48..64]);
}

#[test]
fn train_keys_are_consecutive_blocks() {
    let mut d = [0u8; 64];
    for i in 0..64 {
        d[i] = i as u8;
    }
    let (a, b, c, l) = Branch::train_keys(&d);
    assert_eq!(a.0[0], 0);
    assert_eq!(b.0[0], 16);
    assert_eq!(c.0[0], 32);
    assert_eq!(l.0[15], 63);
}

#[test]
fn kdf_chain_splits_sha3_256() {
    let extra = [9u8; 32];
    let b = branch(extra);
    let ck = ChainKey::new([8u8; 16]);
    let i = TwigIdx(7);
    let msg = cat(&[t(2), &extra, &[8u8; 16], t(3), &[0, 7], &extra, t(4), &[8u8; 16], t(5)]);
    assert_eq!(b.chain_input(i, &ck), msg);
    let d = Sha3_256::digest(&msg);
    let (c, l) = b.kdf_chain(i, &ck);
    assert_eq!(&c.0[..], &d[0..16]);
    assert_eq!(&l.0[..], &d[16..32]);
    // Another index gives other keys.
    let (c2, _) = b.kdf_chain(TwigIdx(8), &ck);
    assert_ne!(c, c2);
}

#[test]
fn chain_keys_are_the_two_halves() {
    let mut d = [0u8; 32];
    d[16] = 1;
    let (c, l) = Branch::chain_keys(&d);
    assert_eq!(c, ChainKey([0u8; 16]));
    assert_eq!(l.0[0], 1);
}

#[test]
fn kdf_berry_splits_sha3_384() {
    let extra = [4u8; 32];
    let b = branch(extra);
    let lk = LinkKey::new([6u8; 16]);
    let s = SphinxSecret::new([7u8; 32]);
    let msg = cat(&[t(4), &extra, &[6u8; 16], t(5), &[7u8; 32], &extra, t(6), &[7u8; 32], &[6u8; 16], t(7)]);
    assert_eq!(b.berry_input(&lk, &s), msg);
    let d = Sha3_384::digest(&msg);
    let (mk, bk) = b.kdf_berry(&lk, &s);
    assert_eq!(&mk.0[..], &d[0..32]);
    assert_eq!(&bk.0[..], &d[32..48]);
}

#[test]
fn berry_keys_split_at_thirty_two() {
    let mut d = [0u8; 48];
    d[31] = 1;
    d[32] = 2;
    let (mk, bk) = Branch::berry_keys(&d);
    assert_eq!(mk.0[31], 1);
    assert_eq!(bk.0[0], 2);
    assert_eq!(MessageKey::new(mk.0), mk);
    assert_eq!(BerryKey::new(bk.0), bk);
}

#[test]
fn kdf_branch_grows_a_child_of_the_family() {
    let extra = [2u8; 32];
    let b = branch(extra);
    let bk = BerryKey::new([3u8; 16]);
    let i = TwigIdx(0x0a0b);
    let msg = cat(&[&extra, t(0), &[3u8; 16], t(2), &extra, t(4), &[0x0a, 0x0b], &[3u8; 16], t(6)]);
    assert_eq!(b.branch_input(i, &bk), msg);
    let d = Sha3_384::digest(&msg);
    let (id, child, tk) = b.kdf_branch(i, &bk);
    assert_eq!(id, BranchId { family: b.child_family_name(), berry: i });
    assert_eq!(&child.extra.0[..], &d[0..32]);
    assert_eq!(child.chain, TwigIdx(TRAIN_START));
    assert_eq!(&tk.0[..], &d[32..48]);
}

#[test]
fn grown_from_uses_the_digest_halves() {
    let mut d = [0u8; 48];
    d[0] = 1;
    d[47] = 2;
    let fam = BranchName([9u8; 16]);
    let (id, child, tk) = Branch::grown_from(fam, TwigIdx(3), &d);
    assert_eq!(id.family, fam);
    assert_eq!(id.berry, TwigIdx(3));
    assert_eq!(child.extra.0[0], 1);
    assert_eq!(tk.0[15], 2);
    assert_eq!(child.chain.0, TRAIN_START);
}

#[test]
fn new_kdf_seeds_a_first_branch() {
    let seed = b"some seed material";
    let msg = cat(&[t(1), seed, t(7)]);
    assert_eq!(Branch::seed_input(seed), msg);
    let d = Sha3_512::digest(&msg);
    let (id, br, tk) = Branch::new_kdf(seed);
    assert_eq!(&br.extra.0[..], &d[0..32]);
    assert_eq!(&id.family.0[..], &d[32..48]);
    assert_eq!(&tk.0[..], &d[48..64]);
    assert_eq!(id.berry, TwigIdx(u16::MAX));
    assert_eq!(br.chain, TwigIdx(TRAIN_START));
}

#[test]
fn new_kdf_of_empty_seed() {
    let msg = cat(&[t(1), t(7)]);
    let d = Sha3_512::digest(&msg);
    let (id, _, _) = Branch::new_kdf(&[]);
    assert_eq!(&id.family.0[..], &d[32..48]);
}

#[test]
fn seeded_lays_out_extra_family_train() {
    let mut d = [0u8; 64];
    for i in 0..64 {
        d[i] = i as u8;
    }
    let (id, br, tk) = Branch::seeded(&d);
    assert_eq!(br.extra.0[0], 0);
    assert_eq!(id.family.0[0], 32);
    assert_eq!(tk.0[0], 48);
}

#[test]
fn branch_name_text_is_hex() {
    let mut n = [0u8; 16];
    n[0] = 0xab;
    n[15] = 0x01;
    let name = BranchName(n);
    assert_eq!(name.to_string(), "BranchName(ab000000000000000000000000000001)");
}

#[test]
fn branch_id_text() {
    let id = BranchId { family: BranchName([0x0f; 16]), berry: TwigIdx(65535) };
    assert_eq!(id.to_string(), "BranchId(0f0f0f0f0f0f0f0f0f0f0f0f0f0f0f0f,65535)");
    let id0 = BranchId { family: BranchName([0; 16]), berry: TwigIdx(0) };
    assert_eq!(id0.to_string(), "BranchId(00000000000000000000000000000000,0)");
}
