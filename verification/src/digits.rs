//! Decimal numerals: the mathematical reading of digit strings, the
//! canonical numeral of a number, and executable conversions between
//! machine integers and digit characters.
//!
//! Counter values carried through the sampler are arbitrary-precision
//! non-negative integers, so they are kept as canonical digit strings
//! and their meaning is pinned down by the spec functions here.

use vstd::arithmetic::div_mod::lemma_fundamental_div_mod;
use vstd::prelude::*;

verus! {

/// True exactly for the ten ASCII decimal digit characters.
pub open spec fn is_dec_digit(c: char) -> bool {
    c == '0' || c == '1' || c == '2' || c == '3' || c == '4' || c == '5' || c == '6' || c == '7'
        || c == '8' || c == '9'
}

/// Numeric value of one decimal digit character.
pub open spec fn digit_value(c: char) -> nat
    recommends
        is_dec_digit(c),
{
    if c == '0' {
        0
    } else if c == '1' {
        1
    } else if c == '2' {
        2
    } else if c == '3' {
        3
    } else if c == '4' {
        4
    } else if c == '5' {
        5
    } else if c == '6' {
        6
    } else if c == '7' {
        7
    } else if c == '8' {
        8
    } else {
        9
    }
}

/// Digit character of one value below ten.
pub open spec fn digit_char(d: nat) -> char
    recommends
        d < 10,
{
    if d == 0 {
        '0'
    } else if d == 1 {
        '1'
    } else if d == 2 {
        '2'
    } else if d == 3 {
        '3'
    } else if d == 4 {
        '4'
    } else if d == 5 {
        '5'
    } else if d == 6 {
        '6'
    } else if d == 7 {
        '7'
    } else if d == 8 {
        '8'
    } else {
        '9'
    }
}

/// The decimal numeral of `n`, most significant digit first.
pub open spec fn dec_digits(n: nat) -> Seq<char>
    decreases n,
{
    if n < 10 {
        seq![digit_char(n)]
    } else {
        dec_digits(n / 10).push(digit_char(n % 10))
    }
}

/// The number a digit string denotes.
pub open spec fn digits_value(s: Seq<char>) -> nat
    decreases s.len(),
{
    if s.len() == 0 {
        0
    } else {
        digits_value(s.drop_last()) * 10 + digit_value(s.last())
    }
}

/// Every character of `s` is a decimal digit.
pub open spec fn all_digits(s: Seq<char>) -> bool {
    forall|i: int| 0 <= i < s.len() ==> is_dec_digit(#[trigger] s[i])
}

/// A canonical numeral: nonempty, digits only, and no leading zero
/// unless the numeral is exactly "0".
pub open spec fn canonical_digits(s: Seq<char>) -> bool {
    s.len() > 0 && all_digits(s) && (s.len() > 1 ==> s[0] != '0')
}

/// The numeral of any number is canonical, and of a positive number
/// never starts with '0'.
pub proof fn lemma_dec_digits_canonical(n: nat)
    ensures
        canonical_digits(dec_digits(n)),
        n > 0 ==> dec_digits(n)[0] != '0',
    decreases n,
{
    if n < 10 {
        assert(dec_digits(n) =~= seq![digit_char(n)]);
    } else {
        lemma_dec_digits_canonical(n / 10);
        let prefix = dec_digits(n / 10);
        let s = dec_digits(n);
        assert(s =~= prefix.push(digit_char(n % 10)));
        assert(n / 10 > 0);
        assert(forall|i: int| 0 <= i < s.len() ==> is_dec_digit(#[trigger] s[i])) by {
            assert(forall|i: int|
                0 <= i < prefix.len() ==> #[trigger] s[i] == prefix[i]);
        }
    }
}

/// Reading back the numeral of `n` yields `n`.
pub proof fn lemma_dec_digits_value(n: nat)
    ensures
        digits_value(dec_digits(n)) == n,
    decreases n,
{
    if n < 10 {
        let s = seq![digit_char(n)];
        assert(dec_digits(n) == s);
        assert(s.drop_last() =~= Seq::<char>::empty());
        assert(s.last() == digit_char(n));
        assert(digits_value(s) == digits_value(s.drop_last()) * 10 + digit_value(s.last()));
        assert(digits_value(s.drop_last()) == 0);
        assert(digit_value(digit_char(n)) == n);
    } else {
        lemma_dec_digits_value(n / 10);
        let prefix = dec_digits(n / 10);
        let s = prefix.push(digit_char(n % 10));
        assert(dec_digits(n) == s);
        assert(s.len() == prefix.len() + 1);
        assert(s.drop_last() =~= prefix);
        assert(s.last() == digit_char(n % 10));
        assert(digits_value(s) == digits_value(prefix) * 10 + digit_value(s.last()));
        assert(digit_value(digit_char(n % 10)) == n % 10);
        lemma_fundamental_div_mod(n as int, 10);
        assert(n == 10 * (n / 10) + n % 10);
    }
}

/// A digit string that does not start with '0' denotes a positive number.
pub proof fn lemma_leading_nonzero_positive(s: Seq<char>)
    requires
        s.len() > 0,
        all_digits(s),
        s[0] != '0',
    ensures
        digits_value(s) >= 1,
    decreases s.len(),
{
    if s.len() == 1 {
        assert(s.last() == s[0]);
        assert(digit_value(s[0]) >= 1);
    } else {
        assert(s.drop_last()[0] == s[0]);
        lemma_leading_nonzero_positive(s.drop_last());
    }
}

/// A canonical numeral is the numeral of its own value: canonical
/// digit strings and numbers correspond one to one.
pub proof fn lemma_canonical_roundtrip(s: Seq<char>)
    requires
        canonical_digits(s),
    ensures
        dec_digits(digits_value(s)) == s,
    decreases s.len(),
{
    let v = digits_value(s);
    if s.len() == 1 {
        assert(s.last() == s[0]);
        assert(s.drop_last() =~= Seq::<char>::empty());
        assert(v == digit_value(s[0]));
        assert(v < 10);
        assert(digit_char(digit_value(s[0])) == s[0]);
        assert(dec_digits(v) =~= seq![s[0]]);
        assert(dec_digits(v) =~= s);
    } else {
        let front = s.drop_last();
        let d = digit_value(s.last());
        assert(front[0] == s[0]);
        assert(forall|i: int| 0 <= i < front.len() ==> front[i] == s[i]);
        assert(canonical_digits(front));
        lemma_canonical_roundtrip(front);
        lemma_leading_nonzero_positive(front);
        let fv = digits_value(front);
        assert(v == fv * 10 + d);
        assert(d < 10) by {
            assert(is_dec_digit(s.last()));
        }
        assert(fv >= 1);
        assert(v >= 10);
        assert(v / 10 == fv && v % 10 == d) by {
            lemma_fundamental_div_mod(v as int, 10);
            assert(v == 10 * (v / 10) + v % 10);
        }
        assert(digit_char(d) == s.last());
        assert(dec_digits(v) =~= dec_digits(fv).push(digit_char(d)));
        assert(dec_digits(v) =~= s);
    }
}

/// Digit character of a value below ten.
pub fn digit_to_char(d: u64) -> (c: char)
    requires
        d < 10,
    ensures
        c == digit_char(d as nat),
{
    if d == 0 {
        '0'
    } else if d == 1 {
        '1'
    } else if d == 2 {
        '2'
    } else if d == 3 {
        '3'
    } else if d == 4 {
        '4'
    } else if d == 5 {
        '5'
    } else if d == 6 {
        '6'
    } else if d == 7 {
        '7'
    } else if d == 8 {
        '8'
    } else {
        '9'
    }
}

/// Value of a character if it is a decimal digit.
pub fn char_to_digit(c: char) -> (r: Option<u64>)
    ensures
        r is Some <==> is_dec_digit(c),
        r is Some ==> r->0 == digit_value(c) && r->0 < 10,
{
    if c == '0' {
        Some(0)
    } else if c == '1' {
        Some(1)
    } else if c == '2' {
        Some(2)
    } else if c == '3' {
        Some(3)
    } else if c == '4' {
        Some(4)
    } else if c == '5' {
        Some(5)
    } else if c == '6' {
        Some(6)
    } else if c == '7' {
        Some(7)
    } else if c == '8' {
        Some(8)
    } else if c == '9' {
        Some(9)
    } else {
        None
    }
}

/// The decimal numeral of a machine integer, most significant digit first.
pub fn u64_to_digits(n: u64) -> (v: Vec<char>)
    ensures
        v@ == dec_digits(n as nat),
    decreases n,
{
    if n < 10 {
        let mut v: Vec<char> = Vec::new();
        v.push(digit_to_char(n));
        proof {
            assert(v@ =~= dec_digits(n as nat));
        }
        v
    } else {
        let mut v = u64_to_digits(n / 10);
        v.push(digit_to_char(n % 10));
        v
    }
}

} // verus!
