//! Text renderings of names: lower-case hexadecimal and decimal.

use vstd::prelude::*;
use vstd::string::StringExecFns;

verus! {

/// The character of a digit below 16, lower case.
pub open spec fn digit_char(n: u8) -> char {
    if n < 10 {
        (48 + n) as char
    } else {
        (87 + n) as char
    }
}

/// Lower-case hexadecimal of some bytes, two digits per byte.
pub open spec fn hex_chars(s: Seq<u8>) -> Seq<char>
    decreases s.len(),
{
    if s.len() == 0 {
        Seq::empty()
    } else {
        hex_chars(s.drop_last()) + seq![digit_char(s.last() / 16), digit_char(s.last() % 16)]
    }
}

/// Decimal digits of a number, without leading zeros.
pub open spec fn decimal_chars(n: nat) -> Seq<char>
    decreases n,
{
    if n < 10 {
        seq![digit_char(n as u8)]
    } else {
        decimal_chars(n / 10) + seq![digit_char((n % 10) as u8)]
    }
}

/// The number that a string of decimal digits spells, most significant
/// digit first.
pub open spec fn decimal_value(s: Seq<char>) -> int
    decreases s.len(),
{
    if s.len() == 0 {
        0
    } else {
        decimal_value(s.drop_last()) * 10 + (s.last() as int - 48)
    }
}

/// The decimal rendering of a number consists of digits, has no leading
/// zero, and reads back as the number.
pub proof fn decimal_chars_read_back(n: nat)
    ensures
        decimal_value(decimal_chars(n)) == n,
        decimal_chars(n).len() >= 1,
        forall|k: int|
            0 <= k < decimal_chars(n).len() ==> 48 <= #[trigger] decimal_chars(n)[k] as int <= 57,
        n >= 10 ==> decimal_chars(n)[0] != '0',
    decreases n,
{
    if n < 10 {
        let d: u8 = n as u8;
        assert(decimal_chars(n) =~= seq![digit_char(d)]);
        assert(digit_char(d) as int == 48 + d);
        assert(decimal_chars(n).drop_last() =~= Seq::<char>::empty());
        assert(decimal_value(Seq::<char>::empty()) == 0);
        assert(decimal_value(decimal_chars(n)) == 0 * 10 + d);
    } else {
        decimal_chars_read_back(n / 10);
        let d: u8 = (n % 10) as u8;
        let head = decimal_chars(n / 10);
        assert(decimal_chars(n) =~= head + seq![digit_char(d)]);
        assert(digit_char(d) as int == 48 + d);
        assert(decimal_chars(n).drop_last() =~= head);
        assert(decimal_chars(n).last() == digit_char(d));
        assert(decimal_value(decimal_chars(n)) == decimal_value(head) * 10 + d);
        assert((n / 10) * 10 + n % 10 == n);
        assert(decimal_chars(n)[0] == head[0]);
        if n / 10 < 10 {
            assert(head =~= seq![digit_char((n / 10) as u8)]);
            assert(digit_char((n / 10) as u8) as int == 48 + n / 10);
        }
    }
}

/// The value of a lower-case hexadecimal digit.
pub open spec fn hex_value(c: char) -> int {
    if (c as int) < 58 {
        c as int - 48
    } else {
        c as int - 87
    }
}

/// The hexadecimal rendering of some bytes has two lower-case digits per
/// byte, the high nibble first, and each pair reads back as its byte.
pub proof fn hex_chars_read_back(s: Seq<u8>)
    ensures
        hex_chars(s).len() == 2 * s.len(),
        forall|k: int|
            0 <= k < s.len() ==> hex_value(#[trigger] hex_chars(s)[2 * k]) * 16 + hex_value(
                hex_chars(s)[2 * k + 1],
            ) == s[k] as int,
        forall|k: int|
            0 <= k < hex_chars(s).len() ==> (48 <= #[trigger] hex_chars(s)[k] as int <= 57) || (97
                <= hex_chars(s)[k] as int <= 102),
    decreases s.len(),
{
    if s.len() > 0 {
        hex_chars_read_back(s.drop_last());
        let b: u8 = s.last();
        let hi: u8 = b / 16;
        let lo: u8 = b % 16;
        let head = hex_chars(s.drop_last());
        assert(hex_chars(s) =~= head + seq![digit_char(hi), digit_char(lo)]);
        assert(hi < 16 && lo < 16);
        assert(hi < 10 ==> digit_char(hi) as int == 48 + hi);
        assert(hi >= 10 ==> digit_char(hi) as int == 87 + hi);
        assert(lo < 10 ==> digit_char(lo) as int == 48 + lo);
        assert(lo >= 10 ==> digit_char(lo) as int == 87 + lo);
        assert(hex_value(digit_char(hi)) == hi);
        assert(hex_value(digit_char(lo)) == lo);
        assert(hi * 16 + lo == b);
        assert forall|k: int| 0 <= k < s.len() implies hex_value(#[trigger] hex_chars(s)[2 * k])
            * 16 + hex_value(hex_chars(s)[2 * k + 1]) == s[k] as int by {
            if k < s.len() - 1 {
                assert(hex_chars(s)[2 * k] == head[2 * k]);
                assert(hex_chars(s)[2 * k + 1] == head[2 * k + 1]);
                assert(s[k] == s.drop_last()[k]);
            }
        }
        assert forall|k: int| 0 <= k < hex_chars(s).len() implies (48 <= #[trigger] hex_chars(
            s,
        )[k] as int <= 57) || (97 <= hex_chars(s)[k] as int <= 102) by {
            if k < head.len() {
                assert(hex_chars(s)[k] == head[k]);
            }
        }
    }
}

/// Calls `String::push`, which appends one character to a string.
#[verifier::external_body]
pub(crate) fn push_char(s: &mut String, c: char)
    ensures
        final(s)@ == old(s)@.push(c),
{
    s.push(c)
}

/// The character of a digit below 16.
pub fn digit(n: u8) -> (c: char)
    requires
        n < 16,
    ensures
        c == digit_char(n),
{
    if n < 10 {
        (48 + n) as char
    } else {
        (87 + n) as char
    }
}

/// Appends the hexadecimal of `bytes` to `s`.
pub fn push_hex(s: &mut String, bytes: &[u8])
    ensures
        final(s)@ == old(s)@ + hex_chars(bytes@),
{
    let n: usize = bytes.len();
    let mut i: usize = 0;
    while i < n
        invariant
            n == bytes@.len(),
            i <= n,
            s@ == old(s)@ + hex_chars(bytes@.take(i as int)),
        decreases n - i,
    {
        let b: u8 = bytes[i];
        push_char(s, digit(b / 16));
        push_char(s, digit(b % 16));
        proof {
            let t = bytes@.take(i + 1);
            assert(t.drop_last() =~= bytes@.take(i as int));
            assert(t.last() == b);
        }
        i = i + 1;
    }
    assert(bytes@.take(n as int) =~= bytes@);
}

/// Appends the decimal digits of `n` to `s`.
pub fn push_decimal(s: &mut String, n: u16)
    ensures
        final(s)@ == old(s)@ + decimal_chars(n as nat),
    decreases n,
{
    if n >= 10 {
        push_decimal(s, n / 10);
    }
    push_char(s, digit((n % 10) as u8));
}

/// Appends a string literal to `s`.
pub fn push_str(s: &mut String, t: &str)
    ensures
        final(s)@ == old(s)@ + t@,
{
    s.append(t);
}

} // verus!
