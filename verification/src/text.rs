//! Building the text shown on the display.
use vstd::prelude::*;

verus! {

/// The decimal digit character of `d` (0 to 9).
pub open spec fn digit_char(d: int) -> char {
    if d == 0 {
        '0'
    } else if d == 1 {
        '1'
    } else if d == 2 {
        '2'
    } else if d == 3 {
        '3'
    } else if d == 4 {
        '4'
    } else if d == 5 {
        '5'
    } else if d == 6 {
        '6'
    } else if d == 7 {
        '7'
    } else if d == 8 {
        '8'
    } else {
        '9'
    }
}

/// The character of decimal digit `d` (0 to 9).
pub fn digit(d: u8) -> (r: char)
    requires
        d < 10,
    ensures
        r == digit_char(d as int),
{
    if d == 0 {
        '0'
    } else if d == 1 {
        '1'
    } else if d == 2 {
        '2'
    } else if d == 3 {
        '3'
    } else if d == 4 {
        '4'
    } else if d == 5 {
        '5'
    } else if d == 6 {
        '6'
    } else if d == 7 {
        '7'
    } else if d == 8 {
        '8'
    } else {
        '9'
    }
}

/// Decimal notation of a natural number, without leading zeros.
pub open spec fn spec_decimal(n: nat) -> Seq<char>
    decreases n,
{
    if n < 10 {
        seq![digit_char(n as int)]
    } else {
        spec_decimal(n / 10).push(digit_char((n % 10) as int))
    }
}

/// Decimal notation of an integer, with a leading '-' when negative.
pub open spec fn spec_int(i: int) -> Seq<char> {
    if i < 0 {
        seq!['-'] + spec_decimal((-i) as nat)
    } else {
        spec_decimal(i as nat)
    }
}

/// Appends one character by `String::push`, which vstd gives no
/// specification: trusted to leave the string's characters followed by
/// `c`, as std documents it.
#[verifier::external_body]
pub(crate) fn push_char(s: &mut String, c: char)
    ensures
        final(s)@ == old(s)@.push(c),
{
    s.push(c);
}

/// Appends the decimal notation of `n`.
pub fn push_decimal(s: &mut String, n: u128)
    ensures
        final(s)@ == old(s)@ + spec_decimal(n as nat),
    decreases n,
{
    if n >= 10 {
        push_decimal(s, n / 10);
    }
    let d = (n % 10) as u8;
    push_char(s, digit(d));
    assert(s@ =~= old(s)@ + spec_decimal(n as nat));
}

/// Appends the decimal notation of `v`, with a '-' when negative.
pub fn push_int(s: &mut String, v: i64)
    ensures
        final(s)@ == old(s)@ + spec_int(v as int),
{
    if v < 0 {
        push_char(s, '-');
        let m: u64 = if v == i64::MIN {
            9223372036854775808u64
        } else {
            (-v) as u64
        };
        push_decimal(s, m as u128);
        assert(s@ =~= old(s)@ + spec_int(v as int));
    } else {
        push_decimal(s, v as u128);
    }
}

/// The decimal notation of `v`.
pub fn int_to_string(v: i64) -> (r: String)
    ensures
        r@ == spec_int(v as int),
{
    let mut s = String::new();
    push_int(&mut s, v);
    assert(s@ =~= spec_int(v as int));
    s
}

/// Whether the two texts are the same.
pub fn same_text(a: &str, b: &str) -> (r: bool)
    ensures
        r == (a@ == b@),
{
    String::from_str(a) == String::from_str(b)
}

/// Appends a string.
pub fn push_str(s: &mut String, t: &str)
    ensures
        final(s)@ == old(s)@ + t@,
{
    s.append(t);
}

/// `s` padded with spaces to at least `width` characters, then cut to at
/// most `width` characters.
pub open spec fn fit_width(s: Seq<char>, width: nat) -> Seq<char> {
    if s.len() >= width {
        s.take(width as int)
    } else {
        s + Seq::new((width - s.len()) as nat, |_i: int| ' ')
    }
}

/// `s` laid out in exactly `width` characters: padded with spaces on the
/// right, or cut.
pub fn fit(s: &str, width: usize) -> (r: String)
    ensures
        r@ == fit_width(s@, width as nat),
{
    let n = s.unicode_len();
    let mut r = String::new();
    let mut i: usize = 0;
    while i < width && i < n
        invariant
            n == s@.len(),
            i <= width,
            i <= n,
            r@ == s@.take(i as int),
        decreases width - i,
    {
        push_char(&mut r, s.get_char(i));
        assert(r@ =~= s@.take(i + 1));
        i = i + 1;
    }
    while i < width
        invariant
            i <= width,
            n == s@.len(),
            n <= i ==> r@ == s@ + Seq::new((i - n) as nat, |_i: int| ' '),
            n > i ==> i == width && r@ == s@.take(i as int),
        decreases width - i,
    {
        push_char(&mut r, ' ');
        assert(r@ =~= s@ + Seq::new((i + 1 - n) as nat, |_i: int| ' '));
        i = i + 1;
    }
    assert(r@ =~= fit_width(s@, width as nat)) by {
        if n >= width {
            assert(s@.take(width as int) =~= fit_width(s@, width as nat));
        } else {
            assert(s@ + Seq::new((width - n) as nat, |_i: int| ' ') =~= fit_width(s@, width as nat));
        }
    }
    r
}

/// Decimal notation has at least one digit, and exactly one below ten.
pub proof fn lemma_decimal_len(n: nat)
    ensures
        spec_decimal(n).len() >= 1,
        n < 10 <==> spec_decimal(n).len() == 1,
    decreases n,
{
    if n >= 10 {
        lemma_decimal_len(n / 10);
    }
}

/// Different numbers have different decimal notations.
pub proof fn lemma_decimal_injective(a: nat, b: nat)
    requires
        spec_decimal(a) == spec_decimal(b),
    ensures
        a == b,
    decreases a,
{
    lemma_decimal_len(a);
    lemma_decimal_len(b);
    if a >= 10 && b >= 10 {
        let da = spec_decimal(a);
        assert(da.last() == digit_char((a % 10) as int));
        assert(spec_decimal(b).last() == digit_char((b % 10) as int));
        assert(da.drop_last() =~= spec_decimal(a / 10));
        assert(spec_decimal(b).drop_last() =~= spec_decimal(b / 10));
        lemma_decimal_injective(a / 10, b / 10);
    } else if a < 10 && b < 10 {
        assert(spec_decimal(a)[0] == digit_char(a as int));
        assert(spec_decimal(b)[0] == digit_char(b as int));
    }
}

} // verus!
