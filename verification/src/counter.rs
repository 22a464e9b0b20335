//! Counter values read from the two counter source files.
//!
//! A counter is a monotonically non-decreasing byte count exposed by the
//! kernel as a text file holding one decimal number.  Counts are kept as
//! canonical digit strings rather than machine integers, so values that
//! exceed 64 bits are carried through untouched.

use crate::digits::{
    all_digits, canonical_digits, char_to_digit, dec_digits, digit_value, digits_value, is_dec_digit,
    lemma_canonical_roundtrip, lemma_dec_digits_canonical, lemma_dec_digits_value, u64_to_digits,
};
use vstd::prelude::*;
use vstd::string::StrSliceExecFns;

verus! {

/// ASCII whitespace ignored around a counter number.
pub open spec fn is_space(c: char) -> bool {
    c == ' ' || c == '\t' || c == '\n' || c == '\r'
}

/// `s` without leading whitespace.
pub open spec fn trim_front(s: Seq<char>) -> Seq<char>
    decreases s.len(),
{
    if s.len() > 0 && is_space(s[0]) {
        trim_front(s.skip(1))
    } else {
        s
    }
}

/// `s` without trailing whitespace.
pub open spec fn trim_back(s: Seq<char>) -> Seq<char>
    decreases s.len(),
{
    if s.len() > 0 && is_space(s.last()) {
        trim_back(s.drop_last())
    } else {
        s
    }
}

/// `s` without leading and trailing whitespace.
pub open spec fn trimmed(s: Seq<char>) -> Seq<char> {
    trim_back(trim_front(s))
}

proof fn lemma_trim_front_skip(s: Seq<char>, i: int)
    requires
        0 <= i <= s.len(),
        forall|j: int| 0 <= j < i ==> is_space(#[trigger] s[j]),
        i == s.len() || !is_space(s[i]),
    ensures
        trim_front(s) == s.subrange(i, s.len() as int),
    decreases i,
{
    if i == 0 {
        assert(s.subrange(0, s.len() as int) =~= s);
    } else {
        assert(is_space(s[0]));
        let rest = s.skip(1);
        assert(rest =~= s.subrange(1, s.len() as int));
        lemma_trim_front_skip(rest, i - 1);
        assert(rest.subrange(i - 1, rest.len() as int) =~= s.subrange(i, s.len() as int));
    }
}

proof fn lemma_trim_back_take(s: Seq<char>, h: int)
    requires
        0 <= h <= s.len(),
        forall|j: int| h <= j < s.len() ==> is_space(#[trigger] s[j]),
        h == 0 || !is_space(s[h - 1]),
    ensures
        trim_back(s) == s.subrange(0, h),
    decreases s.len(),
{
    if h == s.len() {
        if s.len() > 0 && is_space(s.last()) {
            assert(!is_space(s[h - 1]));
            assert(false);
        }
        assert(s.subrange(0, h) =~= s);
    } else {
        assert(is_space(s.last()));
        let front = s.drop_last();
        lemma_trim_back_take(front, h);
        assert(front.subrange(0, h) =~= s.subrange(0, h));
    }
}

proof fn lemma_drop_leading_zero(s: Seq<char>)
    requires
        s.len() >= 1,
        s[0] == '0',
    ensures
        digits_value(s.skip(1)) == digits_value(s),
    decreases s.len(),
{
    if s.len() == 1 {
        assert(s.drop_last() =~= Seq::<char>::empty());
        assert(s.last() == s[0]);
        assert(s.skip(1) =~= Seq::<char>::empty());
    } else {
        let front = s.drop_last();
        assert(front[0] == s[0]);
        lemma_drop_leading_zero(front);
        let tail = s.skip(1);
        assert(tail.drop_last() =~= front.skip(1));
        assert(tail.last() == s.last());
        assert(digits_value(tail) == digits_value(front.skip(1)) * 10 + digit_value(s.last()));
        assert(digits_value(s) == digits_value(front) * 10 + digit_value(s.last()));
    }
}

proof fn lemma_strip_zeros(s: Seq<char>, k: int)
    requires
        0 <= k <= s.len(),
        forall|j: int| 0 <= j < k ==> #[trigger] s[j] == '0',
    ensures
        digits_value(s.subrange(k, s.len() as int)) == digits_value(s),
    decreases k,
{
    if k == 0 {
        assert(s.subrange(0, s.len() as int) =~= s);
    } else {
        lemma_drop_leading_zero(s);
        let rest = s.skip(1);
        assert(rest =~= s.subrange(1, s.len() as int));
        lemma_strip_zeros(rest, k - 1);
        assert(rest.subrange(k - 1, rest.len() as int) =~= s.subrange(k, s.len() as int));
    }
}

proof fn lemma_digits_value_snoc(s: Seq<char>, i: int)
    requires
        0 <= i < s.len(),
    ensures
        digits_value(s.subrange(0, i + 1)) == digits_value(s.subrange(0, i)) * 10 + digit_value(
            s[i],
        ),
{
    let ext = s.subrange(0, i + 1);
    assert(ext.drop_last() =~= s.subrange(0, i));
    assert(ext.last() == s[i]);
}

proof fn lemma_prefix_value_le(s: Seq<char>, i: int)
    requires
        0 <= i <= s.len(),
    ensures
        digits_value(s.subrange(0, i)) <= digits_value(s),
    decreases s.len() - i,
{
    if i == s.len() {
        assert(s.subrange(0, i) =~= s);
    } else {
        lemma_digits_value_snoc(s, i);
        lemma_prefix_value_le(s, i + 1);
        let v = digits_value(s.subrange(0, i));
        assert(v <= v * 10 + digit_value(s[i]));
    }
}

/// Why a counter text failed to parse.
#[derive(Clone, Copy, Debug, PartialEq, Eq, Structural)]
pub enum CounterError {
    /// Nothing but whitespace was present.
    Empty,
    /// A character other than a decimal digit was present.
    InvalidDigit,
}

/// An arbitrary-precision non-negative counter value, kept as its
/// canonical decimal numeral.
#[derive(Clone, Debug)]
pub struct Counter {
    digits: Vec<char>,
}

impl View for Counter {
    type V = Seq<char>;

    closed spec fn view(&self) -> Seq<char> {
        self.digits@
    }
}

impl Counter {
    /// The digit string is a canonical numeral.
    pub open spec fn wf(&self) -> bool {
        canonical_digits(self@)
    }

    /// The number this counter holds.
    pub open spec fn value(&self) -> nat {
        digits_value(self@)
    }

    /// The counter's digit characters, most significant first.
    pub fn digits(&self) -> (r: &Vec<char>)
        ensures
            r@ == self@,
    {
        &self.digits
    }

    /// The counter holding the value of a machine integer.
    pub fn from_u64(n: u64) -> (c: Counter)
        ensures
            c.wf(),
            c.value() == n,
            c@ == dec_digits(n as nat),
    {
        let digits = u64_to_digits(n);
        proof {
            lemma_dec_digits_canonical(n as nat);
            lemma_dec_digits_value(n as nat);
        }
        Counter { digits }
    }

    /// The counter's value as a machine integer, if it fits.
    pub fn to_u64(&self) -> (r: Option<u64>)
        requires
            self.wf(),
        ensures
            r is Some <==> self.value() <= u64::MAX,
            r is Some ==> r->0 == self.value(),
    {
        let n = self.digits.len();
        let mut acc: u64 = 0;
        let mut i: usize = 0;
        while i < n
            invariant
                self.wf(),
                n == self@.len(),
                i <= n,
                acc == digits_value(self@.subrange(0, i as int)),
            decreases n - i,
        {
            let d = match char_to_digit(self.digits[i]) {
                Some(d) => d,
                None => {
                    proof {
                        assert(is_dec_digit(self@[i as int]));
                    }
                    proof {
                        assert(false);
                    }
                    0
                },
            };
            proof {
                lemma_digits_value_snoc(self@, i as int);
            }
            if acc < 1844674407370955161 || (acc == 1844674407370955161 && d <= 5) {
                acc = acc * 10 + d;
            } else {
                proof {
                    assert(digits_value(self@.subrange(0, i + 1)) > u64::MAX);
                    lemma_prefix_value_le(self@, i + 1);
                }
                return None;
            }
            i += 1;
        }
        proof {
            assert(self@.subrange(0, n as int) =~= self@);
        }
        Some(acc)
    }
}

/// Parse the text of one counter source file.
///
/// Whitespace around the number is ignored; the remaining characters
/// must be one or more decimal digits.  The result is the canonical
/// numeral of the number they denote.
pub fn parse_counter(text: &str) -> (r: Result<Counter, CounterError>)
    ensures
        match r {
            Ok(c) => trimmed(text@).len() > 0 && all_digits(trimmed(text@)) && c.wf() && c.value()
                == digits_value(trimmed(text@)) && c@ == dec_digits(digits_value(trimmed(text@))),
            Err(CounterError::Empty) => trimmed(text@).len() == 0,
            Err(CounterError::InvalidDigit) => trimmed(text@).len() > 0 && !all_digits(
                trimmed(text@),
            ),
        },
{
    let n = text.unicode_len();
    let ghost s = text@;

    // Skip leading whitespace.
    let mut lo: usize = 0;
    while lo < n && is_space_exec(text.get_char(lo))
        invariant
            s == text@,
            n == s.len(),
            lo <= n,
            forall|j: int| 0 <= j < lo ==> is_space(#[trigger] s[j]),
        decreases n - lo,
    {
        lo += 1;
    }

    // Skip trailing whitespace.
    let mut hi: usize = n;
    while hi > lo && is_space_exec(text.get_char(hi - 1))
        invariant
            s == text@,
            n == s.len(),
            lo <= hi <= n,
            forall|j: int| hi <= j < n ==> is_space(#[trigger] s[j]),
        decreases hi,
    {
        hi -= 1;
    }

    proof {
        lemma_trim_front_skip(s, lo as int);
        let t1 = s.subrange(lo as int, n as int);
        lemma_trim_back_take(t1, hi - lo);
        assert(t1.subrange(0, hi - lo) =~= s.subrange(lo as int, hi as int));
        assert(trimmed(s) == s.subrange(lo as int, hi as int));
    }
    let ghost t = s.subrange(lo as int, hi as int);

    if lo == hi {
        proof {
            assert(t.len() == 0);
        }
        return Err(CounterError::Empty);
    }

    // Every remaining character must be a decimal digit.
    let mut i: usize = lo;
    while i < hi
        invariant
            s == text@,
            n == s.len(),
            lo < hi <= n,
            lo <= i <= hi,
            t == s.subrange(lo as int, hi as int),
            t == trimmed(text@),
            forall|j: int| lo <= j < i ==> is_dec_digit(#[trigger] s[j]),
        decreases hi - i,
    {
        if char_to_digit(text.get_char(i)).is_none() {
            proof {
                assert(!is_dec_digit(s[i as int]));
                assert(t[i - lo] == s[i as int]);
                assert(!all_digits(t));
            }
            return Err(CounterError::InvalidDigit);
        }
        i += 1;
    }
    proof {
        assert(forall|j: int| 0 <= j < t.len() ==> #[trigger] t[j] == s[lo + j]);
        assert(all_digits(t));
    }

    // Strip leading zeros, keeping at least the last digit.
    let mut start: usize = lo;
    while start < hi - 1 && text.get_char(start) == '0'
        invariant
            s == text@,
            n == s.len(),
            lo <= start < hi <= n,
            forall|j: int| lo <= j < start ==> #[trigger] s[j] == '0',
        decreases hi - start,
    {
        start += 1;
    }

    // Copy the canonical digits out.
    let mut digits: Vec<char> = Vec::new();
    let mut k: usize = start;
    while k < hi
        invariant
            s == text@,
            n == s.len(),
            start <= k <= hi <= n,
            digits@ == s.subrange(start as int, k as int),
        decreases hi - k,
    {
        digits.push(text.get_char(k));
        proof {
            assert(s.subrange(start as int, k + 1) =~= s.subrange(start as int, k as int).push(
                s[k as int],
            ));
        }
        k += 1;
    }

    let ghost c = s.subrange(start as int, hi as int);
    proof {
        assert(digits@ == c);
        // The copied digits are canonical.
        assert(forall|j: int| 0 <= j < c.len() ==> #[trigger] c[j] == s[start + j]);
        assert(all_digits(c));
        if c.len() > 1 {
            assert(start < hi - 1);
            assert(c[0] == s[start as int]);
            assert(c[0] != '0');
        }
        assert(canonical_digits(c));
        // Stripping the zeros kept the value.
        lemma_strip_zeros(t, start - lo);
        assert(t.subrange(start - lo, t.len() as int) =~= c);
        assert(digits_value(c) == digits_value(t));
        lemma_canonical_roundtrip(c);
    }
    Ok(Counter { digits })
}

/// Executable test for the whitespace characters of [`is_space`].
pub fn is_space_exec(c: char) -> (r: bool)
    ensures
        r == is_space(c),
{
    c == ' ' || c == '\t' || c == '\n' || c == '\r'
}

} // verus!
