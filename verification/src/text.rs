//! Verified text utilities shared by the version arithmetic, the unit-file
//! format and the log interpreter: decimal digits, rendering and scanning of
//! `u64` values, and matching of fixed substrings inside `&str` values.

use vstd::prelude::*;
use vstd::string::*;

verus! {

/// The ten decimal digit characters.
pub open spec fn is_digit(c: char) -> bool {
    c == '0' || c == '1' || c == '2' || c == '3' || c == '4' || c == '5' || c == '6' || c == '7'
        || c == '8' || c == '9'
}

/// Numeric value of a decimal digit character.
pub open spec fn digit_val(c: char) -> int {
    if c == '0' {
        0
    } else if c == '1' {
        1
    } else if c == '2' {
        2
    } else if c == '3' {
        3
    } else if c == '4' {
        4
    } else if c == '5' {
        5
    } else if c == '6' {
        6
    } else if c == '7' {
        7
    } else if c == '8' {
        8
    } else {
        9
    }
}

/// The digit character for a value in `0..10`.
pub open spec fn digit_char(d: int) -> char {
    if d == 0 {
        '0'
    } else if d == 1 {
        '1'
    } else if d == 2 {
        '2'
    } else if d == 3 {
        '3'
    } else if d == 4 {
        '4'
    } else if d == 5 {
        '5'
    } else if d == 6 {
        '6'
    } else if d == 7 {
        '7'
    } else if d == 8 {
        '8'
    } else {
        '9'
    }
}

/// Every character of `s` is a decimal digit.
pub open spec fn all_digits(s: Seq<char>) -> bool {
    forall|i: int| 0 <= i < s.len() ==> is_digit(#[trigger] s[i])
}

/// Value of a digit string read in base ten (Horner form over the last digit).
pub open spec fn digits_val(s: Seq<char>) -> int
    decreases s.len(),
{
    if s.len() == 0 {
        0
    } else {
        digits_val(s.drop_last()) * 10 + digit_val(s.last())
    }
}

pub proof fn lemma_digits_val_nonneg(s: Seq<char>)
    ensures
        digits_val(s) >= 0,
    decreases s.len(),
{
    if s.len() > 0 {
        lemma_digits_val_nonneg(s.drop_last());
    }
}

/// The canonical decimal rendering of a non-negative number.
pub open spec fn spec_u64_string(n: int) -> Seq<char>
    decreases n,
{
    if n < 10 {
        seq![digit_char(n)]
    } else {
        spec_u64_string(n / 10).push(digit_char(n % 10))
    }
}

pub proof fn lemma_u64_string_digits(n: int)
    requires
        n >= 0,
    ensures
        spec_u64_string(n).len() >= 1,
        all_digits(spec_u64_string(n)),
        digits_val(spec_u64_string(n)) == n,
    decreases n,
{
    if n < 10 {
        let s = spec_u64_string(n);
        assert(s =~= seq![digit_char(n)]);
        assert(s.drop_last() =~= Seq::<char>::empty());
        assert(digits_val(s) == digits_val(s.drop_last()) * 10 + digit_val(s.last()));
        assert(digits_val(Seq::<char>::empty()) == 0);
    } else {
        lemma_u64_string_digits(n / 10);
        let s = spec_u64_string(n);
        assert(s.drop_last() =~= spec_u64_string(n / 10));
        assert(s.last() == digit_char(n % 10));
        assert(digits_val(s) == digits_val(s.drop_last()) * 10 + digit_val(s.last()));
        assert forall|i: int| 0 <= i < s.len() implies is_digit(#[trigger] s[i]) by {
            if i < s.len() - 1 {
                assert(s[i] == spec_u64_string(n / 10)[i]);
            }
        }
    }
}

/// Digit character of a value below ten, as a string slice.
fn digit_str(d: u64) -> (s: &'static str)
    requires
        d < 10,
    ensures
        s@ =~= seq![digit_char(d as int)],
{
    proof {
        reveal_strlit("0");
        reveal_strlit("1");
        reveal_strlit("2");
        reveal_strlit("3");
        reveal_strlit("4");
        reveal_strlit("5");
        reveal_strlit("6");
        reveal_strlit("7");
        reveal_strlit("8");
        reveal_strlit("9");
    }
    if d == 0 {
        "0"
    } else if d == 1 {
        "1"
    } else if d == 2 {
        "2"
    } else if d == 3 {
        "3"
    } else if d == 4 {
        "4"
    } else if d == 5 {
        "5"
    } else if d == 6 {
        "6"
    } else if d == 7 {
        "7"
    } else if d == 8 {
        "8"
    } else {
        "9"
    }
}

/// Renders a number in decimal.
pub fn u64_string(n: u64) -> (s: String)
    ensures
        s@ == spec_u64_string(n as int),
    decreases n,
{
    if n < 10 {
        String::from_str(digit_str(n))
    } else {
        let mut s = u64_string(n / 10);
        s.append(digit_str(n % 10));
        proof {
            assert(s@ =~= spec_u64_string(n as int / 10).push(digit_char(n as int % 10)));
        }
        s
    }
}

/// First position at or after `i` whose character is not a digit (or the end).
pub open spec fn digits_end(s: Seq<char>, i: int) -> int
    decreases s.len() - i,
{
    if i < 0 || i >= s.len() {
        i
    } else if is_digit(s[i]) {
        digits_end(s, i + 1)
    } else {
        i
    }
}

pub proof fn lemma_digits_end_bounds(s: Seq<char>, i: int)
    requires
        0 <= i <= s.len(),
    ensures
        i <= digits_end(s, i) <= s.len(),
        all_digits(s.subrange(i, digits_end(s, i))),
        digits_end(s, i) < s.len() ==> !is_digit(s[digits_end(s, i)]),
    decreases s.len() - i,
{
    if i < s.len() && is_digit(s[i]) {
        lemma_digits_end_bounds(s, i + 1);
        let e = digits_end(s, i);
        assert forall|k: int| 0 <= k < e - i implies is_digit(
            #[trigger] s.subrange(i, e)[k],
        ) by {
            if k > 0 {
                assert(s.subrange(i + 1, e)[k - 1] == s.subrange(i, e)[k]);
            }
        }
    }
}

/// A digit run ends exactly where the digits stop.
pub proof fn lemma_digits_end_concat(s: Seq<char>, i: int, d: Seq<char>)
    requires
        0 <= i,
        i + d.len() <= s.len(),
        all_digits(d),
        s.subrange(i, i + d.len() as int) == d,
        i + d.len() < s.len() ==> !is_digit(s[i + d.len()]),
    ensures
        digits_end(s, i) == i + d.len(),
    decreases d.len(),
{
    if d.len() == 0 {
    } else {
        assert(s[i] == d[0]);
        assert(is_digit(s[i]));
        assert(s.subrange(i + 1, i + d.len() as int) =~= d.subrange(1, d.len() as int));
        assert(all_digits(d.subrange(1, d.len() as int)));
        lemma_digits_end_concat(s, i + 1, d.subrange(1, d.len() as int));
    }
}

/// The parsed value of the digit run starting at `i`: `None` when there is no
/// digit there or the run's value does not fit in a `u64`.
pub open spec fn spec_scan_u64(s: Seq<char>, i: int) -> Option<u64> {
    let e = digits_end(s, i);
    if e == i {
        None
    } else if digits_val(s.subrange(i, e)) > u64::MAX {
        None
    } else {
        Some(digits_val(s.subrange(i, e)) as u64)
    }
}

/// A longer digit run never has a smaller value.
proof fn lemma_digits_val_prefix(s: Seq<char>, n: int)
    requires
        0 <= n <= s.len(),
    ensures
        digits_val(s) >= digits_val(s.subrange(0, n)),
    decreases s.len() - n,
{
    lemma_digits_val_nonneg(s.subrange(0, n));
    if n == s.len() {
        assert(s.subrange(0, n) =~= s);
    }
    if n < s.len() {
        lemma_digits_val_prefix(s, n + 1);
        let t = s.subrange(0, n + 1);
        assert(t.drop_last() =~= s.subrange(0, n));
        lemma_digits_val_nonneg(t.drop_last());
        assert(digits_val(t) == digits_val(s.subrange(0, n)) * 10 + digit_val(t.last()));
    }
}

/// Reads the digit run starting at byte-character index `i`.  Returns the
/// value (when a run is present and fits) and the index just past the run.
pub fn scan_u64(s: &str, i: usize) -> (r: (Option<u64>, usize))
    requires
        i <= s@.len(),
    ensures
        r.1 == digits_end(s@, i as int),
        r.0 == spec_scan_u64(s@, i as int),
{
    let len = s.unicode_len();
    let mut j = i;
    let mut acc: u64 = 0;
    let mut overflowed = false;
    while j < len && is_digit_exec(s.get_char(j))
        invariant
            i <= j <= len,
            len == s@.len(),
            digits_end(s@, i as int) == digits_end(s@, j as int),
            all_digits(s@.subrange(i as int, j as int)),
            !overflowed ==> acc == digits_val(s@.subrange(i as int, j as int)),
            overflowed ==> digits_val(s@.subrange(i as int, j as int)) > u64::MAX,
        decreases len - j,
    {
        let c = s.get_char(j);
        let d = digit_val_exec(c);
        proof {
            assert(s@.subrange(i as int, j + 1 as int).drop_last() =~= s@.subrange(
                i as int,
                j as int,
            ));
            lemma_digits_val_nonneg(s@.subrange(i as int, j as int));
        }
        if !overflowed {
            if acc > (u64::MAX - d) / 10 {
                overflowed = true;
            } else {
                acc = acc * 10 + d;
            }
        }
        j = j + 1;
    }
    proof {
        let e = digits_end(s@, i as int);
        assert(e == j) by {
            if j < len {
                assert(!is_digit(s@[j as int]));
            }
        }
        if overflowed {
            lemma_digits_val_prefix(
                s@.subrange(i as int, e),
                0,
            );
        }
    }
    if j == i {
        (None, j)
    } else if overflowed {
        (None, j)
    } else {
        (Some(acc), j)
    }
}

/// Executable digit test.
pub fn is_digit_exec(c: char) -> (r: bool)
    ensures
        r == is_digit(c),
{
    c == '0' || c == '1' || c == '2' || c == '3' || c == '4' || c == '5' || c == '6' || c == '7'
        || c == '8' || c == '9'
}

/// Executable digit value.
pub fn digit_val_exec(c: char) -> (r: u64)
    requires
        is_digit(c),
    ensures
        r == digit_val(c),
        r < 10,
{
    if c == '0' {
        0
    } else if c == '1' {
        1
    } else if c == '2' {
        2
    } else if c == '3' {
        3
    } else if c == '4' {
        4
    } else if c == '5' {
        5
    } else if c == '6' {
        6
    } else if c == '7' {
        7
    } else if c == '8' {
        8
    } else {
        9
    }
}

/// `lit` occurs in `s` at position `i`.
pub open spec fn lit_at(s: Seq<char>, i: int, lit: Seq<char>) -> bool {
    0 <= i && i + lit.len() <= s.len() && s.subrange(i, i + lit.len() as int) == lit
}

/// Tests whether `lit` occurs in `s` at character position `i`.
pub fn expect_at(s: &str, i: usize, lit: &str) -> (r: bool)
    requires
        i <= s@.len(),
    ensures
        r == lit_at(s@, i as int, lit@),
{
    let n = lit.unicode_len();
    let len = s.unicode_len();
    if n > len - i {
        proof {
            assert(!lit_at(s@, i as int, lit@));
        }
        return false;
    }
    let mut k: usize = 0;
    while k < n
        invariant
            0 <= k <= n,
            i + n <= len,
            len == s@.len(),
            n == lit@.len(),
            forall|m: int| 0 <= m < k ==> s@[i + m] == lit@[m],
        decreases n - k,
    {
        if s.get_char(i + k) != lit.get_char(k) {
            proof {
                assert(s@.subrange(i as int, i + lit@.len() as int)[k as int] != lit@[k as int]);
            }
            return false;
        }
        k = k + 1;
    }
    proof {
        assert(s@.subrange(i as int, i + lit@.len() as int) =~= lit@);
    }
    true
}

/// Whole-string equality of two string slices.
pub fn str_eq(a: &str, b: &str) -> (r: bool)
    ensures
        r == (a@ == b@),
{
    let la = a.unicode_len();
    let lb = b.unicode_len();
    if la != lb {
        return false;
    }
    let r = expect_at(a, 0, b);
    proof {
        if r {
            assert(a@.subrange(0, b@.len() as int) =~= a@);
        } else if a@ == b@ {
            assert(a@.subrange(0, b@.len() as int) =~= b@);
        }
    }
    r
}

/// First position at or after `i` holding character `c` (or the end).
pub open spec fn find_from(s: Seq<char>, i: int, c: char) -> int
    decreases s.len() - i,
{
    if i < 0 || i >= s.len() {
        i
    } else if s[i] == c {
        i
    } else {
        find_from(s, i + 1, c)
    }
}

pub proof fn lemma_find_from_bounds(s: Seq<char>, i: int, c: char)
    requires
        0 <= i <= s.len(),
    ensures
        i <= find_from(s, i, c) <= s.len(),
        find_from(s, i, c) < s.len() ==> s[find_from(s, i, c)] == c,
        forall|k: int| i <= k < find_from(s, i, c) ==> s[k] != c,
    decreases s.len() - i,
{
    if i < s.len() && s[i] != c {
        lemma_find_from_bounds(s, i + 1, c);
    }
}

/// The first occurrence of `c` after a stretch that does not contain it.
pub proof fn lemma_find_from_concat(s: Seq<char>, i: int, v: Seq<char>, c: char)
    requires
        0 <= i,
        i + v.len() < s.len(),
        !v.contains(c),
        s.subrange(i, i + v.len() as int) == v,
        s[i + v.len()] == c,
    ensures
        find_from(s, i, c) == i + v.len(),
    decreases v.len(),
{
    if v.len() == 0 {
    } else {
        assert(s[i] == v[0]);
        assert(v.contains(v[0]));
        assert(s.subrange(i + 1, i + v.len() as int) =~= v.subrange(1, v.len() as int));
        assert forall|k: int| 0 <= k < v.len() - 1 implies v.subrange(1, v.len() as int)[k]
            != c by {
            assert(v[k + 1] == v.subrange(1, v.len() as int)[k]);
        }
        assert(!v.subrange(1, v.len() as int).contains(c));
        lemma_find_from_concat(s, i + 1, v.subrange(1, v.len() as int), c);
    }
}

/// Finds the first occurrence of `c` at or after `i`.
pub fn find_char(s: &str, i: usize, c: char) -> (r: usize)
    requires
        i <= s@.len(),
    ensures
        r == find_from(s@, i as int, c),
{
    let len = s.unicode_len();
    let mut j = i;
    while j < len && s.get_char(j) != c
        invariant
            i <= j <= len,
            len == s@.len(),
            find_from(s@, i as int, c) == find_from(s@, j as int, c),
        decreases len - j,
    {
        j = j + 1;
    }
    j
}


/// `sub` occurs somewhere in `s`.
pub open spec fn contains_seq(s: Seq<char>, sub: Seq<char>) -> bool {
    exists|i: int| lit_at(s, i, sub)
}

/// Tests whether `sub` occurs anywhere in `s`.
pub fn str_contains(s: &str, sub: &str) -> (r: bool)
    ensures
        r == contains_seq(s@, sub@),
{
    let n = s.unicode_len();
    let m = sub.unicode_len();
    if m > n {
        proof {
            assert forall|i: int| !lit_at(s@, i, sub@) by {}
        }
        return false;
    }
    if m == 0 {
        proof {
            assert(s@.subrange(0, 0) =~= sub@);
            assert(lit_at(s@, 0, sub@));
        }
        return true;
    }
    let mut i: usize = 0;
    while i <= n - m
        invariant
            0 <= i <= n - m + 1,
            1 <= m <= n,
            n == s@.len(),
            m == sub@.len(),
            forall|j: int| 0 <= j < i ==> !lit_at(s@, j, sub@),
        decreases n - i,
    {
        if expect_at(s, i, sub) {
            proof {
                assert(lit_at(s@, i as int, sub@));
            }
            return true;
        }
        i = i + 1;
    }
    proof {
        assert forall|j: int| !lit_at(s@, j, sub@) by {
            if 0 <= j < i {
            } else {
            }
        }
    }
    false
}

} // verus!
