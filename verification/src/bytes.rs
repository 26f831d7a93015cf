//! Byte-buffer helpers shared by the key derivations.

use vstd::prelude::*;

verus! {

/// Appends the bytes of `s` to `v`.
pub fn append_bytes(v: &mut Vec<u8>, s: &[u8])
    ensures
        final(v)@ == old(v)@ + s@,
{
    let n: usize = s.len();
    let mut i: usize = 0;
    while i < n
        invariant
            n == s@.len(),
            i <= n,
            v@ == old(v)@ + s@.take(i as int),
        decreases n - i,
    {
        v.push(s[i]);
        i = i + 1;
        assert(s@.take(i as int) =~= s@.take((i - 1) as int).push(s@[i - 1]));
    }
    assert(s@.take(n as int) =~= s@);
}

/// The 16 bytes of `r` that start at `start`.
pub fn bytes16_at(r: &[u8], start: usize) -> (a: [u8; 16])
    requires
        start + 16 <= r@.len(),
    ensures
        a@ == r@.subrange(start as int, start + 16),
{
    let mut a = [0u8; 16];
    let n: usize = r.len();
    let mut i: usize = 0;
    while i < 16
        invariant
            n == r@.len(),
            start + 16 <= r@.len(),
            i <= 16,
            forall|j: int| 0 <= j < i ==> a@[j] == r@[start + j],
        decreases 16 - i,
    {
        a[i] = r[start + i];
        i = i + 1;
    }
    assert(a@ =~= r@.subrange(start as int, start + 16));
    a
}

/// The 32 bytes of `r` that start at `start`.
pub fn bytes32_at(r: &[u8], start: usize) -> (a: [u8; 32])
    requires
        start + 32 <= r@.len(),
    ensures
        a@ == r@.subrange(start as int, start + 32),
{
    let mut a = [0u8; 32];
    let n: usize = r.len();
    let mut i: usize = 0;
    while i < 32
        invariant
            n == r@.len(),
            start + 32 <= r@.len(),
            i <= 32,
            forall|j: int| 0 <= j < i ==> a@[j] == r@[start + j],
        decreases 32 - i,
    {
        a[i] = r[start + i];
        i = i + 1;
    }
    assert(a@ =~= r@.subrange(start as int, start + 32));
    a
}

/// Whether every byte of `s` is zero.
pub open spec fn all_zero(s: Seq<u8>) -> bool {
    forall|i: int| 0 <= i < s.len() ==> s[i] == 0
}

/// The empty sequence is all zero, and a sequence with one more byte is all
/// zero exactly when the shorter one is and the byte is zero.
pub proof fn all_zero_grows(s: Seq<u8>, b: u8)
    ensures
        all_zero(Seq::<u8>::empty()),
        all_zero(s.push(b)) == (all_zero(s) && b == 0),
{
    if all_zero(s.push(b)) {
        assert(s.push(b)[s.len() as int] == b);
        assert forall|i: int| 0 <= i < s.len() implies s[i] == 0 by {
            assert(s.push(b)[i] == s[i]);
        }
    }
    if all_zero(s) && b == 0 {
        assert forall|i: int| 0 <= i < s.push(b).len() implies s.push(b)[i] == 0 by {
            if i < s.len() {
                assert(s.push(b)[i] == s[i]);
            }
        }
    }
}

/// A fresh vector holding the bytes of `s`.
pub fn copy_bytes(s: &[u8]) -> (v: Vec<u8>)
    ensures
        v@ == s@,
{
    let mut v: Vec<u8> = Vec::new();
    append_bytes(&mut v, s);
    assert(v@ =~= s@);
    v
}

/// Overwrites every byte of `v` with zero, keeping its length.
pub fn zero_bytes(v: &mut Vec<u8>)
    ensures
        final(v)@.len() == old(v)@.len(),
        all_zero(final(v)@),
{
    let n: usize = v.len();
    let mut i: usize = 0;
    while i < n
        invariant
            n == v@.len(),
            n == old(v)@.len(),
            i <= n,
            forall|j: int| 0 <= j < i ==> v@[j] == 0,
        decreases n - i,
    {
        v.set(i, 0);
        i = i + 1;
    }
}

} // verus!
