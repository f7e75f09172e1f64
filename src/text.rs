//! Small string helpers with exact contracts.

use vstd::prelude::*;

verus! {

/// Decimal digits of a natural number, most significant first.
pub open spec fn decimal(n: nat) -> Seq<char>
    decreases n,
{
    if n < 10 {
        seq![digit_char(n)]
    } else {
        decimal(n / 10).push(digit_char(n % 10))
    }
}

/// The ASCII character of a digit below ten.
pub open spec fn digit_char(d: nat) -> char {
    if d == 0 { '0' }
    else if d == 1 { '1' }
    else if d == 2 { '2' }
    else if d == 3 { '3' }
    else if d == 4 { '4' }
    else if d == 5 { '5' }
    else if d == 6 { '6' }
    else if d == 7 { '7' }
    else if d == 8 { '8' }
    else { '9' }
}

/// Relies on `u64::to_string` (through `Display`): the decimal form of the
/// number, without sign or padding.
#[verifier::external_body]
pub(crate) fn u64_to_decimal(n: u64) -> (r: String)
    ensures
        r@ == decimal(n as nat),
{
    n.to_string()
}

/// Whether two string slices hold the same characters.
pub fn str_eq(a: &str, b: &str) -> (r: bool)
    ensures
        r == (a@ == b@),
{
    let x = a.to_owned();
    let y = b.to_owned();
    x == y
}

/// What `str::to_lowercase` makes of a string.
pub uninterp spec fn lower_of(s: Seq<char>) -> Seq<char>;

/// What `str::to_uppercase` makes of a string.
pub uninterp spec fn upper_of(s: Seq<char>) -> Seq<char>;

/// Relies on `str::to_lowercase`: the result depends on the characters alone,
/// and the empty string stays empty.
#[verifier::external_body]
pub(crate) fn lowercase(s: &str) -> (r: String)
    ensures
        r@ == lower_of(s@),
        s@.len() == 0 ==> r@.len() == 0,
{
    s.to_lowercase()
}

/// Relies on `str::to_uppercase`: the result depends on the characters alone,
/// and the empty string stays empty.
#[verifier::external_body]
pub(crate) fn uppercase(s: &str) -> (r: String)
    ensures
        r@ == upper_of(s@),
        s@.len() == 0 ==> r@.len() == 0,
{
    s.to_uppercase()
}

/// Whether `pat` occurs in `s` as a contiguous run.
pub open spec fn has_substring(s: Seq<char>, pat: Seq<char>) -> bool {
    exists|i: int| 0 <= i && i + pat.len() <= s.len() && #[trigger] s.subrange(i, i + pat.len()) == pat
}

/// Whether `pat` occurs in `s` at position `i`.
fn matches_at(s: &str, pat: &str, i: usize, n: usize, m: usize) -> (r: bool)
    requires
        n == s@.len(),
        m == pat@.len(),
        i + m <= n,
    ensures
        r == (s@.subrange(i as int, i + m) == pat@),
{
    let mut k: usize = 0;
    while k < m
        invariant
            n == s@.len(),
            m == pat@.len(),
            i + m <= n,
            k <= m,
            forall|j: int| 0 <= j < k ==> s@[i + j] == pat@[j],
        decreases m - k,
    {
        if s.get_char(i + k) != pat.get_char(k) {
            assert(s@.subrange(i as int, i + m)[k as int] != pat@[k as int]);
            return false;
        }
        k += 1;
    }
    assert(s@.subrange(i as int, i + m) =~= pat@);
    true
}

/// Whether `pat` occurs in `s`.
pub(crate) fn contains_str(s: &str, pat: &str) -> (r: bool)
    ensures
        r == has_substring(s@, pat@),
{
    let n = s.unicode_len();
    let m = pat.unicode_len();
    if m > n {
        return false;
    }
    if m == 0 {
        assert(s@.subrange(0, 0 + pat@.len() as int) =~= pat@);
        return true;
    }
    let last = n - m;
    let mut i: usize = 0;
    while i <= last
        invariant
            n == s@.len(),
            m == pat@.len(),
            0 < m <= n,
            last == n - m,
            i <= last + 1,
            forall|j: int| 0 <= j < i ==> #[trigger] s@.subrange(j, j + m) != pat@,
        decreases last + 1 - i,
    {
        if matches_at(s, pat, i, n, m) {
            return true;
        }
        i += 1;
    }
    false
}

/// What `str::replace` makes of `s` with every `from` turned into `to`.
pub uninterp spec fn replaced(s: Seq<char>, from: Seq<char>, to: Seq<char>) -> Seq<char>;

/// Relies on `str::replace` with string patterns: the result depends on
/// the three strings alone.
#[verifier::external_body]
pub(crate) fn replace_all(s: &str, from: &str, to: &str) -> (r: String)
    ensures
        r@ == replaced(s@, from@, to@),
{
    s.replace(from, to)
}

/// Whether `s` begins with `p`.
pub open spec fn starts_with_spec(s: Seq<char>, p: Seq<char>) -> bool {
    p.len() <= s.len() && s.subrange(0, p.len() as int) == p
}

/// Whether `s` begins with `p`.
pub(crate) fn starts_with(s: &str, p: &str) -> (r: bool)
    ensures
        r == starts_with_spec(s@, p@),
{
    let n = s.unicode_len();
    let m = p.unicode_len();
    if m > n {
        return false;
    }
    matches_at(s, p, 0, n, m)
}

} // verus!
