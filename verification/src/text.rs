//! Rendering of numbers and padded fields into text.
//!
//! Every diagnostic the kernel produces is plain text: decimal counters,
//! upper-case hexadecimal addresses padded with zeros, and left-aligned
//! columns padded with spaces. The spec functions below say what each of
//! those renderings is; the executable functions build it into a `String`.
use vstd::prelude::*;
use vstd::string::*;
use vstd::arithmetic::power2::{pow2, lemma2_to64, lemma_pow2_unfold};

verus! {

/// The character of a digit in base 16 (upper case), also used for base 10.
pub open spec fn digit_char(d: nat) -> char {
    if d == 0 { '0' }
    else if d == 1 { '1' }
    else if d == 2 { '2' }
    else if d == 3 { '3' }
    else if d == 4 { '4' }
    else if d == 5 { '5' }
    else if d == 6 { '6' }
    else if d == 7 { '7' }
    else if d == 8 { '8' }
    else if d == 9 { '9' }
    else if d == 10 { 'A' }
    else if d == 11 { 'B' }
    else if d == 12 { 'C' }
    else if d == 13 { 'D' }
    else if d == 14 { 'E' }
    else { 'F' }
}

/// The digits of `n` in base `b`, most significant first, without leading zeros
/// (zero is the single digit `0`).
pub open spec fn digits(n: nat, b: nat) -> Seq<char>
    recommends 2 <= b <= 16,
    decreases n,
{
    if n < b || b < 2 {
        seq![digit_char(n)]
    } else {
        proof {
            assert(n / b < n) by (nonlinear_arith) requires n >= b, b >= 2;
        }
        digits(n / b, b).push(digit_char(n % b))
    }
}

/// Decimal rendering of a natural number.
pub open spec fn dec(n: nat) -> Seq<char> {
    digits(n, 10)
}

/// Decimal rendering of an integer, with a leading `-` when negative.
pub open spec fn dec_signed(n: int) -> Seq<char> {
    if n < 0 { seq!['-'] + dec((-n) as nat) } else { dec(n as nat) }
}

/// Upper-case hexadecimal rendering of a natural number.
pub open spec fn hex(n: nat) -> Seq<char> {
    digits(n, 16)
}

/// `s` preceded by as many `0` as it takes to reach `width` characters.
pub open spec fn zero_pad(s: Seq<char>, width: nat) -> Seq<char> {
    if s.len() >= width { s } else { Seq::new((width - s.len()) as nat, |i: int| '0') + s }
}

/// Upper-case hexadecimal rendering padded with zeros to `width` characters.
pub open spec fn hex_width(n: nat, width: nat) -> Seq<char> {
    zero_pad(hex(n), width)
}

/// `s` followed by as many spaces as it takes to reach `width` characters.
pub open spec fn pad_right(s: Seq<char>, width: nat) -> Seq<char> {
    if s.len() >= width { s } else { s + Seq::new((width - s.len()) as nat, |i: int| ' ') }
}

/// The rendering of a boolean.
pub open spec fn bool_text(b: bool) -> Seq<char> {
    if b { "true"@ } else { "false"@ }
}

proof fn lemma_digits_len(n: nat, b: nat)
    requires 2 <= b <= 16,
    ensures
        digits(n, b).len() >= 1,
        n < b ==> digits(n, b).len() == 1,
        n >= b ==> digits(n, b).len() == digits(n / b, b).len() + 1,
    decreases n,
{
    if n >= b {
        assert(n / b < n) by (nonlinear_arith) requires n >= b, b >= 2;
        lemma_digits_len(n / b, b);
    }
}

/// The one-character string of a digit below 16.
fn digit_str(d: u64) -> (s: &'static str)
    requires d < 16,
    ensures s@ == seq![digit_char(d as nat)],
{
    proof {
        reveal_strlit("0"); reveal_strlit("1"); reveal_strlit("2"); reveal_strlit("3");
        reveal_strlit("4"); reveal_strlit("5"); reveal_strlit("6"); reveal_strlit("7");
        reveal_strlit("8"); reveal_strlit("9"); reveal_strlit("A"); reveal_strlit("B");
        reveal_strlit("C"); reveal_strlit("D"); reveal_strlit("E"); reveal_strlit("F");
    }
    if d == 0 { "0" }
    else if d == 1 { "1" }
    else if d == 2 { "2" }
    else if d == 3 { "3" }
    else if d == 4 { "4" }
    else if d == 5 { "5" }
    else if d == 6 { "6" }
    else if d == 7 { "7" }
    else if d == 8 { "8" }
    else if d == 9 { "9" }
    else if d == 10 { "A" }
    else if d == 11 { "B" }
    else if d == 12 { "C" }
    else if d == 13 { "D" }
    else if d == 14 { "E" }
    else { "F" }
}

/// Appends the digits of `n` in base `b` to `out`.
pub(crate) fn push_digits(out: &mut String, n: u64, b: u64)
    requires 2 <= b <= 16,
    ensures final(out)@ == old(out)@ + digits(n as nat, b as nat),
    decreases n,
{
    if n >= b {
        assert(n / b < n) by (nonlinear_arith) requires n >= b, b >= 2;
        push_digits(out, n / b, b);
    }
    let d = digit_str(n % b);
    out.append(d);
    proof {
        if n >= b {
            assert(digits(n as nat, b as nat) == digits((n / b) as nat, b as nat).push(digit_char((n % b) as nat)));
        }
        if n < b {
            assert(n % b == n) by (nonlinear_arith) requires n < b;
        }
        assert(out@ =~= old(out)@ + digits(n as nat, b as nat));
    }
}

/// Appends the decimal rendering of `n` to `out`.
pub(crate) fn push_dec(out: &mut String, n: u64)
    ensures final(out)@ == old(out)@ + dec(n as nat),
{
    push_digits(out, n, 10);
}

/// Appends the decimal rendering of a signed `n` to `out`.
pub(crate) fn push_dec_signed(out: &mut String, n: i64)
    ensures final(out)@ == old(out)@ + dec_signed(n as int),
{
    if n < 0 {
        proof { reveal_strlit("-"); }
        out.append("-");
        let m: u64 = if n == i64::MIN { 9223372036854775808u64 } else { (-n) as u64 };
        push_dec(out, m);
        assert(out@ == old(out)@ + (seq!['-'] + dec((-(n as int)) as nat)));
    } else {
        push_dec(out, n as u64);
    }
}

/// The number of digits of `n` in base `b`.
fn digit_count(n: u64, b: u64) -> (c: usize)
    requires 2 <= b <= 16,
    ensures c as nat == digits(n as nat, b as nat).len(), 1 <= c <= 64,
    decreases n,
{
    proof { lemma_digits_len(n as nat, b as nat); }
    if n < b {
        1
    } else {
        let c = digit_count(n / b, b);
        proof { lemma_digits_len((n / b) as nat, b as nat); }
        assert(c < 64) by {
            assert(digits((n / b) as nat, b as nat).len() < 64) by {
                lemma_digits_short(n as nat, b as nat);
            }
        }
        c + 1
    }
}

proof fn lemma_digits_short(n: nat, b: nat)
    requires 2 <= b <= 16, n < 0x1_0000_0000_0000_0000,
    ensures n >= b ==> digits(n / b, b).len() < 64,
{
    lemma2_to64();
    lemma_digits_bound(n, b, 64);
}

/// A number below two to the power `k` has fewer than `k` digits above the last one.
proof fn lemma_digits_bound(n: nat, b: nat, k: nat)
    requires 2 <= b <= 16, n < pow2(k),
    ensures n >= b ==> digits(n / b, b).len() < k,
    decreases k,
{
    lemma_digits_len(n, b);
    if n >= b {
        if k == 0 {
            lemma2_to64();
        } else {
            lemma_pow2_unfold(k);
            assert(n / b <= n / 2) by (nonlinear_arith) requires 2 <= b;
            assert(n / b < pow2((k - 1) as nat));
            lemma_digits_bound(n / b, b, (k - 1) as nat);
            lemma_digits_len(n / b, b);
            if n / b < b {
            } else {
                assert(digits(n / b / b, b).len() < k - 1);
            }
            if k == 1 {
                lemma2_to64();
            }
        }
    }
}

/// Appends the upper-case hexadecimal rendering of `n`, padded with zeros to
/// `width` characters, to `out`.
pub(crate) fn push_hex(out: &mut String, n: u64, width: usize)
    ensures final(out)@ == old(out)@ + hex_width(n as nat, width as nat),
{
    let c = digit_count(n, 16);
    let mut i: usize = c;
    proof { reveal_strlit("0"); }
    while i < width
        invariant
            c <= i <= width || (i == c && c >= width),
            out@ == old(out)@ + Seq::new((i - c) as nat, |j: int| '0'),
        decreases width - i,
    {
        proof { reveal_strlit("0"); }
        out.append("0");
        i = i + 1;
        assert(Seq::new((i - c) as nat, |j: int| '0') =~= Seq::new((i - 1 - c) as nat, |j: int| '0').push('0'));
    }
    let ghost before = out@;
    push_digits(out, n, 16);
    proof {
        let h = hex(n as nat);
        if h.len() >= width {
            assert(i == c);
            assert(Seq::new(0nat, |j: int| '0') =~= Seq::<char>::empty());
            assert(before =~= old(out)@);
        } else {
            assert(i == width);
        }
        assert(out@ =~= old(out)@ + hex_width(n as nat, width as nat));
    }
}

/// Appends `s` followed by spaces up to `width` characters to `out`.
pub(crate) fn push_padded(out: &mut String, s: &str, width: usize)
    ensures final(out)@ == old(out)@ + pad_right(s@, width as nat),
{
    out.append(s);
    let len = s.unicode_len();
    let mut i: usize = len;
    proof { reveal_strlit(" "); }
    while i < width
        invariant
            len == s@.len(),
            len <= i,
            i <= width || i == len,
            out@ == old(out)@ + s@ + Seq::new((i - len) as nat, |j: int| ' '),
        decreases width - i,
    {
        proof { reveal_strlit(" "); }
        out.append(" ");
        i = i + 1;
        assert(Seq::new((i - len) as nat, |j: int| ' ') =~= Seq::new((i - 1 - len) as nat, |j: int| ' ').push(' '));
    }
    proof {
        if s@.len() >= width {
            assert(Seq::new(0nat, |j: int| ' ') =~= Seq::<char>::empty());
        }
        assert(out@ =~= old(out)@ + pad_right(s@, width as nat));
    }
}

/// Whether two strings hold the same characters.
pub(crate) fn str_equals(a: &str, b: &str) -> (r: bool)
    ensures r == (a@ == b@),
{
    let n = a.unicode_len();
    let m = b.unicode_len();
    if n != m {
        return false;
    }
    let mut i: usize = 0;
    while i < n
        invariant
            n == a@.len(),
            n == b@.len(),
            i <= n,
            forall|j: int| 0 <= j < i ==> a@[j] == b@[j],
        decreases n - i,
    {
        if a.get_char(i) != b.get_char(i) {
            return false;
        }
        i = i + 1;
    }
    assert(a@ =~= b@);
    true
}

} // verus!
