//! Character-level text helpers: whitespace, trimming, decimal numbers.
use vstd::prelude::*;

verus! {

broadcast use vstd::string::group_string_axioms;

/// The characters that `char::is_whitespace` accepts (Unicode `White_Space`).
pub open spec fn is_whitespace_char(c: char) -> bool {
    ||| ('\u{9}' <= c && c <= '\u{d}')
    ||| c == ' '
    ||| c == '\u{85}'
    ||| c == '\u{a0}'
    ||| c == '\u{1680}'
    ||| ('\u{2000}' <= c && c <= '\u{200a}')
    ||| c == '\u{2028}'
    ||| c == '\u{2029}'
    ||| c == '\u{202f}'
    ||| c == '\u{205f}'
    ||| c == '\u{3000}'
}

pub fn is_whitespace(c: char) -> (b: bool)
    ensures
        b == is_whitespace_char(c),
{
    ('\u{9}' <= c && c <= '\u{d}') || c == ' ' || c == '\u{85}' || c == '\u{a0}' || c == '\u{1680}'
        || ('\u{2000}' <= c && c <= '\u{200a}') || c == '\u{2028}' || c == '\u{2029}' || c
        == '\u{202f}' || c == '\u{205f}' || c == '\u{3000}'
}

/// The characters of `s`, in order.
pub fn chars_of(s: &str) -> (v: Vec<char>)
    ensures
        v@ == s@,
{
    let mut v: Vec<char> = Vec::new();
    for c in it: s.chars()
        invariant
            v@ == it.seq().take(it.index()),
    {
        v.push(c);
    }
    v
}

/// Index of the first character at or after `i` that is not whitespace, or `s.len()`.
pub open spec fn first_non_ws(s: Seq<char>, i: int) -> int
    decreases s.len() - i,
{
    if i < 0 || i >= s.len() {
        s.len() as int
    } else if is_whitespace_char(s[i]) {
        first_non_ws(s, i + 1)
    } else {
        i
    }
}

/// End (exclusive) of the text before `j` once trailing whitespace is dropped.
pub open spec fn end_non_ws(s: Seq<char>, j: int) -> int
    decreases j,
{
    if j <= 0 || j > s.len() {
        0
    } else if is_whitespace_char(s[j - 1]) {
        end_non_ws(s, j - 1)
    } else {
        j
    }
}

/// `s` without leading and trailing whitespace, as `str::trim` gives it.
pub open spec fn trimmed(s: Seq<char>) -> Seq<char> {
    let a = first_non_ws(s, 0);
    let b = end_non_ws(s, s.len() as int);
    if a < b {
        s.subrange(a, b)
    } else {
        Seq::empty()
    }
}

proof fn lemma_first_non_ws_bounds(s: Seq<char>, i: int)
    requires
        0 <= i <= s.len(),
    ensures
        i <= first_non_ws(s, i) <= s.len(),
        first_non_ws(s, i) < s.len() ==> !is_whitespace_char(s[first_non_ws(s, i)]),
        forall|k: int| i <= k < first_non_ws(s, i) ==> is_whitespace_char(#[trigger] s[k]),
    decreases s.len() - i,
{
    if i < s.len() && is_whitespace_char(s[i]) {
        lemma_first_non_ws_bounds(s, i + 1);
    }
}

proof fn lemma_end_non_ws_bounds(s: Seq<char>, j: int)
    requires
        0 <= j <= s.len(),
    ensures
        0 <= end_non_ws(s, j) <= j,
        end_non_ws(s, j) > 0 ==> !is_whitespace_char(s[end_non_ws(s, j) - 1]),
        forall|k: int| end_non_ws(s, j) <= k < j ==> is_whitespace_char(#[trigger] s[k]),
    decreases j,
{
    if j > 0 && is_whitespace_char(s[j - 1]) {
        lemma_end_non_ws_bounds(s, j - 1);
    }
}

/// Trimming twice gives what trimming once gives.
pub proof fn lemma_trimmed_idempotent(s: Seq<char>)
    ensures
        trimmed(trimmed(s)) == trimmed(s),
{
    let t = trimmed(s);
    lemma_first_non_ws_bounds(s, 0);
    lemma_end_non_ws_bounds(s, s.len() as int);
    if t.len() == 0 {
        assert(trimmed(t) =~= t);
    } else {
        let a = first_non_ws(s, 0);
        let b = end_non_ws(s, s.len() as int);
        assert(t[0] == s[a]);
        assert(t[t.len() - 1] == s[b - 1]);
        assert(first_non_ws(t, 0) == 0);
        assert(end_non_ws(t, t.len() as int) == t.len());
        assert(trimmed(t) =~= t);
    }
}

/// The bounds `(a, b)` of the trimmed text inside `v`: `trimmed(v@) == v@.subrange(a, b)`.
pub fn trim_bounds(v: &Vec<char>) -> (r: (usize, usize))
    ensures
        r.0 <= r.1 <= v@.len(),
        trimmed(v@) == v@.subrange(r.0 as int, r.1 as int),
{
    let n = v.len();
    let mut a: usize = 0;
    while a < n && is_whitespace(v[a])
        invariant
            a <= n == v@.len(),
            first_non_ws(v@, 0) == first_non_ws(v@, a as int),
        decreases n - a,
    {
        a = a + 1;
    }
    let mut b: usize = n;
    while b > 0 && is_whitespace(v[b - 1])
        invariant
            b <= n == v@.len(),
            end_non_ws(v@, n as int) == end_non_ws(v@, b as int),
        decreases b,
    {
        b = b - 1;
    }
    proof {
        lemma_first_non_ws_bounds(v@, 0);
        lemma_end_non_ws_bounds(v@, n as int);
        assert(first_non_ws(v@, 0) == a);
        assert(end_non_ws(v@, n as int) == b);
    }
    if a < b {
        (a, b)
    } else {
        assert(v@.subrange(a as int, a as int) =~= Seq::<char>::empty());
        (a, a)
    }
}

/// `s` with leading and trailing whitespace removed (`str::trim`).
pub fn trim(s: &str) -> (r: &str)
    ensures
        r@ == trimmed(s@),
{
    let v = chars_of(s);
    let (a, b) = trim_bounds(&v);
    s.substring_char(a, b)
}

/// Whether `s` holds nothing but whitespace (`s.trim().is_empty()`).
pub fn is_blank(s: &str) -> (b: bool)
    ensures
        b == (trimmed(s@).len() == 0),
{
    let v = chars_of(s);
    let (a, b) = trim_bounds(&v);
    a == b
}

/// Whether two texts hold the same characters.
pub fn str_eq(a: &str, b: &str) -> (r: bool)
    ensures
        r == (a@ == b@),
{
    let x = chars_of(a);
    let y = chars_of(b);
    if x.len() != y.len() {
        return false;
    }
    let mut i: usize = 0;
    while i < x.len()
        invariant
            i <= x@.len() == y@.len(),
            x@ == a@,
            y@ == b@,
            forall|k: int| 0 <= k < i ==> x@[k] == y@[k],
        decreases x.len() - i,
    {
        if x[i] != y[i] {
            return false;
        }
        i = i + 1;
    }
    assert(x@ =~= y@);
    true
}

/// Index of the first `c` in `s` at or after `i`, or `s.len()` when there is none.
pub open spec fn first_index_of(s: Seq<char>, c: char, i: int) -> int
    decreases s.len() - i,
{
    if i < 0 || i >= s.len() {
        s.len() as int
    } else if s[i] == c {
        i
    } else {
        first_index_of(s, c, i + 1)
    }
}

pub proof fn lemma_first_index_of_bounds(s: Seq<char>, c: char, i: int)
    requires
        0 <= i <= s.len(),
    ensures
        i <= first_index_of(s, c, i) <= s.len(),
        first_index_of(s, c, i) < s.len() ==> s[first_index_of(s, c, i)] == c,
        forall|k: int| i <= k < first_index_of(s, c, i) ==> #[trigger] s[k] != c,
    decreases s.len() - i,
{
    if i < s.len() && s[i] != c {
        lemma_first_index_of_bounds(s, c, i + 1);
    }
}

/// Position of the first `c` in `v`, or `v.len()`.
pub fn find_char(v: &Vec<char>, c: char) -> (r: usize)
    ensures
        r == first_index_of(v@, c, 0),
{
    let mut i: usize = 0;
    while i < v.len() && v[i] != c
        invariant
            i <= v@.len(),
            first_index_of(v@, c, 0) == first_index_of(v@, c, i as int),
        decreases v.len() - i,
    {
        i = i + 1;
    }
    i
}

/// Appends one character (`String::push`).
#[verifier::external_body]
pub(crate) fn push_char(s: &mut String, c: char)
    ensures
        final(s)@ == old(s)@.push(c),
{
    s.push(c);
}

/// The decimal digit for `d < 10`.
pub open spec fn digit_char(d: int) -> char {
    ('0' as int + d) as char
}

/// Decimal representation of `n`, as `usize`'s `Display` writes it.
pub open spec fn decimal(n: nat) -> Seq<char>
    decreases n,
{
    if n < 10 {
        seq![digit_char(n as int)]
    } else {
        decimal(n / 10).push(digit_char((n % 10) as int))
    }
}

/// Appends the decimal representation of `n` to `s`.
pub fn push_decimal(s: &mut String, n: u128)
    ensures
        final(s)@ == old(s)@ + decimal(n as nat),
    decreases n,
{
    if n >= 10 {
        push_decimal(s, n / 10);
    }
    let d = (n % 10) as u32;
    let c = char_from_digit(d);
    push_char(s, c);
    proof {
        if n >= 10 {
            assert(decimal(n as nat) == decimal((n / 10) as nat).push(digit_char((n % 10) as int)));
        } else {
            assert(decimal(n as nat) =~= seq![digit_char(n as int)]);
        }
    }
}

fn char_from_digit(d: u32) -> (c: char)
    requires
        d < 10,
    ensures
        c == digit_char(d as int),
{
    if d == 0 { '0' } else if d == 1 { '1' } else if d == 2 { '2' } else if d == 3 { '3' }
    else if d == 4 { '4' } else if d == 5 { '5' } else if d == 6 { '6' } else if d == 7 { '7' }
    else if d == 8 { '8' } else { '9' }
}

/// A new text holding `s`.
pub fn owned(s: &str) -> (r: String)
    ensures
        r@ == s@,
{
    String::from_str(s)
}

/// Whether `p` is a prefix of `s`.
pub open spec fn has_prefix(s: Seq<char>, p: Seq<char>) -> bool {
    p.len() <= s.len() && s.subrange(0, p.len() as int) == p
}

/// Whether `s` starts with `p` (`str::starts_with` with a text pattern).
pub fn starts_with(s: &str, p: &str) -> (r: bool)
    ensures
        r == has_prefix(s@, p@),
{
    let x = chars_of(s);
    let y = chars_of(p);
    if y.len() > x.len() {
        return false;
    }
    let mut i: usize = 0;
    while i < y.len()
        invariant
            i <= y@.len() <= x@.len(),
            x@ == s@,
            y@ == p@,
            forall|k: int| 0 <= k < i ==> x@[k] == y@[k],
        decreases y.len() - i,
    {
        if x[i] != y[i] {
            assert(s@.subrange(0, p@.len() as int)[i as int] != p@[i as int]);
            return false;
        }
        i = i + 1;
    }
    assert(s@.subrange(0, p@.len() as int) =~= p@);
    true
}

} // verus!
