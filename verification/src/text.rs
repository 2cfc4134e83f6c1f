//! Textual renderings of numbers and small string utilities shared by the
//! domain types: decimal and fixed-width hexadecimal digits.
use vstd::prelude::*;

verus! {

/// The ASCII digit of a value below ten.
pub open spec fn spec_digit(d: nat) -> char {
    if d == 0 { '0' } else if d == 1 { '1' } else if d == 2 { '2' } else if d == 3 { '3' }
    else if d == 4 { '4' } else if d == 5 { '5' } else if d == 6 { '6' } else if d == 7 { '7' }
    else if d == 8 { '8' } else { '9' }
}

/// The hexadecimal digit of a value below sixteen, upper case when `upper`.
pub open spec fn spec_hex_digit(d: nat, upper: bool) -> char {
    if d < 10 {
        spec_digit(d)
    } else if d == 10 { if upper { 'A' } else { 'a' } }
    else if d == 11 { if upper { 'B' } else { 'b' } }
    else if d == 12 { if upper { 'C' } else { 'c' } }
    else if d == 13 { if upper { 'D' } else { 'd' } }
    else if d == 14 { if upper { 'E' } else { 'e' } }
    else { if upper { 'F' } else { 'f' } }
}

/// The decimal rendering of a natural number, without leading zeros.
pub open spec fn spec_decimal(n: nat) -> Seq<char>
    decreases n,
{
    if n < 10 {
        seq![spec_digit(n)]
    } else {
        spec_decimal(n / 10).push(spec_digit(n % 10))
    }
}

/// The decimal rendering of an integer, with a leading `-` when negative.
pub open spec fn spec_int_decimal(i: int) -> Seq<char> {
    if i < 0 {
        seq!['-'] + spec_decimal((-i) as nat)
    } else {
        spec_decimal(i as nat)
    }
}

/// The last `width` hexadecimal digits of `n`, most significant first,
/// padded with zeros on the left.
pub open spec fn spec_hex_fixed(n: nat, width: nat, upper: bool) -> Seq<char>
    decreases width,
{
    if width == 0 {
        Seq::empty()
    } else {
        spec_hex_fixed(n / 16, (width - 1) as nat, upper).push(spec_hex_digit(n % 16, upper))
    }
}

/// Sixteen to the power `w`: the number of values `w` hexadecimal digits
/// can write.
pub open spec fn pow16(w: nat) -> nat
    decreases w,
{
    if w == 0 { 1 } else { 16 * pow16((w - 1) as nat) }
}

proof fn lemma_hex_digit_injective(a: nat, b: nat, upper: bool)
    requires
        a < 16,
        b < 16,
        spec_hex_digit(a, upper) == spec_hex_digit(b, upper),
    ensures
        a == b,
{
}

/// A fixed-width hexadecimal rendering of a value that fits in its width
/// gives that value back: different values have different renderings.
pub proof fn lemma_hex_fixed_injective(n: nat, m: nat, width: nat, upper: bool)
    requires
        n < pow16(width),
        m < pow16(width),
        spec_hex_fixed(n, width, upper) == spec_hex_fixed(m, width, upper),
    ensures
        n == m,
    decreases width,
{
    if width > 0 {
        let w1 = (width - 1) as nat;
        let hn = spec_hex_fixed(n, width, upper);
        let hm = spec_hex_fixed(m, width, upper);
        assert(hn.last() == spec_hex_digit(n % 16, upper));
        assert(hm.last() == spec_hex_digit(m % 16, upper));
        lemma_hex_digit_injective(n % 16, m % 16, upper);
        assert(hn.drop_last() =~= spec_hex_fixed(n / 16, w1, upper));
        assert(hm.drop_last() =~= spec_hex_fixed(m / 16, w1, upper));
        let p = pow16(w1);
        assert(n / 16 < p) by (nonlinear_arith)
            requires n < 16 * p;
        assert(m / 16 < p) by (nonlinear_arith)
            requires m < 16 * p;
        lemma_hex_fixed_injective(n / 16, m / 16, w1, upper);
        assert(n == 16 * (n / 16) + n % 16);
        assert(m == 16 * (m / 16) + m % 16);
    }
}

pub proof fn lemma_hex_fixed_len(n: nat, width: nat, upper: bool)
    ensures
        spec_hex_fixed(n, width, upper).len() == width,
    decreases width,
{
    if width > 0 {
        lemma_hex_fixed_len(n / 16, (width - 1) as nat, upper);
    }
}

/// The characters of a text, in order.
pub(crate) fn chars_of(s: &str) -> (v: Vec<char>)
    ensures
        v@ == s@,
{
    broadcast use vstd::string::axiom_spec_iter;
    let mut v: Vec<char> = Vec::new();
    for c in it: s.chars()
        invariant
            v@ == it.seq().take(it.index()),
            it.seq() == s@,
    {
        v.push(c);
    }
    v
}

/// Appends a character to a string.
#[verifier::external_body]
pub(crate) fn push_char(s: &mut String, c: char)
    ensures
        final(s)@ == old(s)@.push(c),
{
    s.push(c);
}

/// Equality of two string slices.
#[verifier::external_body]
pub(crate) fn str_equal(a: &str, b: &str) -> (r: bool)
    ensures
        r == (a@ == b@),
{
    a == b
}

pub fn digit_char(d: u64) -> (c: char)
    requires
        d < 10,
    ensures
        c == spec_digit(d as nat),
{
    match d {
        0 => '0',
        1 => '1',
        2 => '2',
        3 => '3',
        4 => '4',
        5 => '5',
        6 => '6',
        7 => '7',
        8 => '8',
        _ => '9',
    }
}

pub fn hex_digit_char(d: u64, upper: bool) -> (c: char)
    requires
        d < 16,
    ensures
        c == spec_hex_digit(d as nat, upper),
{
    if d < 10 {
        digit_char(d)
    } else if d == 10 {
        if upper { 'A' } else { 'a' }
    } else if d == 11 {
        if upper { 'B' } else { 'b' }
    } else if d == 12 {
        if upper { 'C' } else { 'c' }
    } else if d == 13 {
        if upper { 'D' } else { 'd' }
    } else if d == 14 {
        if upper { 'E' } else { 'e' }
    } else {
        if upper { 'F' } else { 'f' }
    }
}

/// Appends the decimal rendering of `n`.
pub fn push_decimal(out: &mut String, n: u64)
    ensures
        final(out)@ == old(out)@ + spec_decimal(n as nat),
    decreases n,
{
    if n >= 10 {
        push_decimal(out, n / 10);
    }
    push_char(out, digit_char(n % 10));
}

/// Appends the decimal rendering of a signed integer.
pub fn push_int_decimal(out: &mut String, i: i64)
    ensures
        final(out)@ == old(out)@ + spec_int_decimal(i as int),
{
    if i < 0 {
        push_char(out, '-');
        let m: u64 = (-(i as i128)) as u64;
        push_decimal(out, m);
        assert(final(out)@ =~= old(out)@ + spec_int_decimal(i as int));
    } else {
        push_decimal(out, i as u64);
    }
}

/// Appends the last `width` hexadecimal digits of `n`, zero padded.
pub fn push_hex_fixed(out: &mut String, n: u128, width: u32, upper: bool)
    ensures
        final(out)@ == old(out)@ + spec_hex_fixed(n as nat, width as nat, upper),
    decreases width,
{
    if width > 0 {
        push_hex_fixed(out, n / 16, width - 1, upper);
        push_char(out, hex_digit_char((n % 16) as u64, upper));
        assert(final(out)@ =~= old(out)@ + spec_hex_fixed(n as nat, width as nat, upper));
    }
}

} // verus!
