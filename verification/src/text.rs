//! Character-level text model shared by the rest of the library: Unicode
//! whitespace and trimming, prefix/infix search, literal replacement, decimal
//! rendering and parsing, ASCII case mapping, and the conversions between
//! `&str`/`String` and character vectors.
use vstd::prelude::*;

verus! {

broadcast use vstd::string::group_string_axioms;

// ---------------------------------------------------------------------------
// Specifications
// ---------------------------------------------------------------------------

/// `char::is_whitespace`: the Unicode `White_Space` property.
pub open spec fn is_ws(c: char) -> bool {
    ||| ('\u{9}' <= c && c <= '\u{d}')
    ||| c == ' '
    ||| c == '\u{85}'
    ||| c == '\u{a0}'
    ||| c == '\u{1680}'
    ||| ('\u{2000}' <= c && c <= '\u{200a}')
    ||| c == '\u{2028}'
    ||| c == '\u{2029}'
    ||| c == '\u{202f}'
    ||| c == '\u{205f}'
    ||| c == '\u{3000}'
}

/// `str::trim_start`.
pub open spec fn trim_start(s: Seq<char>) -> Seq<char>
    decreases s.len(),
{
    if s.len() > 0 && is_ws(s[0]) {
        trim_start(s.drop_first())
    } else {
        s
    }
}

/// `str::trim_end`.
pub open spec fn trim_end(s: Seq<char>) -> Seq<char>
    decreases s.len(),
{
    if s.len() > 0 && is_ws(s.last()) {
        trim_end(s.drop_last())
    } else {
        s
    }
}

/// `str::trim`.
pub open spec fn trim(s: Seq<char>) -> Seq<char> {
    trim_end(trim_start(s))
}

/// `s` starts with `p`.
pub open spec fn has_prefix(s: Seq<char>, p: Seq<char>) -> bool {
    p.len() <= s.len() && s.take(p.len() as int) == p
}

/// `needle` occurs in `s` starting at index `i`.
pub open spec fn occurs_at(s: Seq<char>, needle: Seq<char>, i: int) -> bool {
    0 <= i && i + needle.len() <= s.len() && s.subrange(i, i + needle.len()) == needle
}

/// `str::contains` with a string pattern.
pub open spec fn contains(s: Seq<char>, needle: Seq<char>) -> bool {
    exists|i: int| occurs_at(s, needle, i)
}

/// `str::replace` with a non-empty pattern: every non-overlapping
/// occurrence of `pat`, scanning from the left, becomes `rep`.
pub open spec fn replace_all(s: Seq<char>, pat: Seq<char>, rep: Seq<char>) -> Seq<char>
    recommends
        pat.len() > 0,
    decreases s.len(),
{
    if pat.len() == 0 || s.len() < pat.len() {
        s
    } else if s.take(pat.len() as int) == pat {
        rep + replace_all(s.skip(pat.len() as int), pat, rep)
    } else {
        seq![s[0]] + replace_all(s.drop_first(), pat, rep)
    }
}

/// Replacing in `a + b` replaces in each part when `b` does not begin with
/// a character of the pattern: no occurrence can straddle the seam.
pub proof fn lemma_replace_all_concat(a: Seq<char>, b: Seq<char>, pat: Seq<char>, rep: Seq<char>)
    requires
        pat.len() > 0,
        b.len() > 0 ==> !pat.contains(b[0]),
    ensures
        replace_all(a + b, pat, rep) == replace_all(a, pat, rep) + replace_all(b, pat, rep),
    decreases a.len(),
{
    let m = pat.len() as int;
    let s = a + b;
    if a.len() == 0 {
        assert(s =~= b);
        assert(replace_all(a, pat, rep) + replace_all(b, pat, rep) =~= replace_all(b, pat, rep));
    } else if s.len() < m {
    } else if s.take(m) == pat {
        if a.len() < m {
            assert(pat[a.len() as int] == s.take(m)[a.len() as int]);
            assert(pat[a.len() as int] == b[0]);
            assert(pat.contains(b[0]));
        } else {
            assert(a.take(m) =~= s.take(m));
            assert(s.skip(m) =~= a.skip(m) + b);
            lemma_replace_all_concat(a.skip(m), b, pat, rep);
            assert(rep + (replace_all(a.skip(m), pat, rep) + replace_all(b, pat, rep))
                =~= (rep + replace_all(a.skip(m), pat, rep)) + replace_all(b, pat, rep));
        }
    } else {
        assert(s.drop_first() =~= a.drop_first() + b);
        lemma_replace_all_concat(a.drop_first(), b, pat, rep);
        assert(s[0] == a[0]);
        if a.len() >= m {
            assert(a.take(m) =~= s.take(m));
        } else {
            assert(seq![a[0]] + a.drop_first() =~= a);
        }
        assert(seq![a[0]] + (replace_all(a.drop_first(), pat, rep) + replace_all(b, pat, rep))
            =~= (seq![a[0]] + replace_all(a.drop_first(), pat, rep)) + replace_all(b, pat, rep));
    }
}

/// A text that does not begin with a character of the pattern keeps its
/// first character through the replacement.
pub proof fn lemma_replace_all_keeps_first(s: Seq<char>, pat: Seq<char>, rep: Seq<char>)
    requires
        pat.len() > 0,
        s.len() > 0,
        !pat.contains(s[0]),
    ensures
        replace_all(s, pat, rep).len() > 0,
        replace_all(s, pat, rep)[0] == s[0],
{
    let m = pat.len() as int;
    if s.len() >= m {
        assert(s.take(m)[0] == s[0]);
        if s.take(m) == pat {
            assert(pat[0] == s[0]);
        }
    }
}

/// A text in which the pattern's first character never appears is left as
/// it is.
pub proof fn lemma_replace_all_absent(s: Seq<char>, pat: Seq<char>, rep: Seq<char>)
    requires
        pat.len() > 0,
        forall|i: int| 0 <= i < s.len() ==> s[i] != pat[0],
    ensures
        replace_all(s, pat, rep) == s,
    decreases s.len(),
{
    let m = pat.len() as int;
    if s.len() >= m {
        assert(s.take(m)[0] == s[0]);
        assert(s.take(m) != pat);
        lemma_replace_all_absent(s.drop_first(), pat, rep);
        assert(seq![s[0]] + s.drop_first() =~= s);
    }
}

/// ASCII decimal digit.
pub open spec fn is_digit(c: char) -> bool {
    '0' <= c && c <= '9'
}

/// `u8::is_ascii_hexdigit` on a character.
pub open spec fn is_hex_digit(c: char) -> bool {
    ||| ('0' <= c && c <= '9')
    ||| ('a' <= c && c <= 'f')
    ||| ('A' <= c && c <= 'F')
}

/// The digit character for `d < 10`.
pub open spec fn digit_char(d: nat) -> char {
    ((d + 48) as u32) as char
}

/// Decimal rendering of a natural number (as `Display` writes integers).
pub open spec fn dec(n: nat) -> Seq<char>
    decreases n,
{
    if n < 10 {
        seq![digit_char(n)]
    } else {
        dec(n / 10).push(digit_char(n % 10))
    }
}

/// Value of a non-empty run of ASCII digits.
pub open spec fn digits_value(s: Seq<char>) -> nat
    decreases s.len(),
{
    if s.len() == 0 {
        0
    } else {
        digits_value(s.drop_last()) * 10 + ((s.last() as u32) - 48) as nat
    }
}

/// Every character of `s` is an ASCII digit.
pub open spec fn all_digits(s: Seq<char>) -> bool {
    forall|i: int| 0 <= i < s.len() ==> is_digit(#[trigger] s[i])
}

/// The digits an unsigned `FromStr` reads: an optional leading `+`, then the rest.
pub open spec fn unsigned_body(s: Seq<char>) -> Seq<char> {
    if s.len() > 0 && s[0] == '+' {
        s.drop_first()
    } else {
        s
    }
}

/// Unsigned `str::parse` (`u16`/`u32`/`u64`) with upper bound `max`: an
/// optional `+`, then one or more ASCII digits whose value is at most `max`.
pub open spec fn parse_unsigned(s: Seq<char>, max: nat) -> Option<nat> {
    let b = unsigned_body(s);
    if b.len() > 0 && all_digits(b) && digits_value(b) <= max {
        Some(digits_value(b))
    } else {
        None
    }
}

/// `char::to_ascii_lowercase`.
pub open spec fn ascii_lower(c: char) -> char {
    if 'A' <= c && c <= 'Z' {
        ((c as u32) + 32) as char
    } else {
        c
    }
}

/// `str::to_ascii_lowercase`.
pub open spec fn ascii_lower_seq(s: Seq<char>) -> Seq<char> {
    s.map_values(|c: char| ascii_lower(c))
}

/// The part of `s` after its last `c` (all of `s` when it holds none).
pub open spec fn after_last(s: Seq<char>, c: char) -> Seq<char>
    decreases s.len(),
{
    if s.len() == 0 {
        s
    } else if s.last() == c {
        Seq::empty()
    } else {
        after_last(s.drop_last(), c).push(s.last())
    }
}

/// The part of `s` before its first `c` (all of `s` when it holds none).
pub open spec fn before_first(s: Seq<char>, c: char) -> Seq<char>
    decreases s.len(),
{
    if s.len() == 0 {
        s
    } else if s[0] == c {
        Seq::empty()
    } else {
        seq![s[0]] + before_first(s.drop_first(), c)
    }
}

/// Drop every leading copy of `p` (`str::trim_start_matches` with a string).
pub open spec fn strip_all_prefixes(s: Seq<char>, p: Seq<char>) -> Seq<char>
    recommends
        p.len() > 0,
    decreases s.len(),
{
    if p.len() > 0 && has_prefix(s, p) {
        strip_all_prefixes(s.skip(p.len() as int), p)
    } else {
        s
    }
}

/// Drop every trailing `c` (`str::trim_end_matches` with a char).
pub open spec fn strip_trailing(s: Seq<char>, c: char) -> Seq<char>
    decreases s.len(),
{
    if s.len() > 0 && s.last() == c {
        strip_trailing(s.drop_last(), c)
    } else {
        s
    }
}

/// Drop every leading `c` (`str::trim_start_matches` with a char).
pub open spec fn strip_leading(s: Seq<char>, c: char) -> Seq<char>
    decreases s.len(),
{
    if s.len() > 0 && s[0] == c {
        strip_leading(s.drop_first(), c)
    } else {
        s
    }
}

/// Name for what `str::to_lowercase` returns: the Unicode lowercase mapping
/// of the whole string (which may change its length).
pub uninterp spec fn unicode_lowercase(s: Seq<char>) -> Seq<char>;

// ---------------------------------------------------------------------------
// Lemmas
// ---------------------------------------------------------------------------

proof fn lemma_trim_start_skip(s: Seq<char>, i: int)
    requires
        0 <= i < s.len(),
        is_ws(s[i]),
    ensures
        trim_start(s.skip(i)) == trim_start(s.skip(i + 1)),
{
    assert(s.skip(i).drop_first() =~= s.skip(i + 1));
}

proof fn lemma_trim_end_take(s: Seq<char>, j: int)
    requires
        0 < j <= s.len(),
        is_ws(s[j - 1]),
    ensures
        trim_end(s.take(j)) == trim_end(s.take(j - 1)),
{
    assert(s.take(j).drop_last() =~= s.take(j - 1));
}

proof fn lemma_trim_start_first(s: Seq<char>)
    ensures
        trim_start(s).len() > 0 ==> !is_ws(trim_start(s)[0]),
        trim_start(s).len() <= s.len(),
    decreases s.len(),
{
    if s.len() > 0 && is_ws(s[0]) {
        lemma_trim_start_first(s.drop_first());
    }
}

proof fn lemma_trim_end_shape(s: Seq<char>)
    ensures
        trim_end(s).len() > 0 ==> !is_ws(trim_end(s).last()),
        trim_end(s).len() <= s.len(),
        trim_end(s) == s.take(trim_end(s).len() as int),
    decreases s.len(),
{
    if s.len() > 0 && is_ws(s.last()) {
        lemma_trim_end_shape(s.drop_last());
        assert(s.drop_last().take(trim_end(s).len() as int) =~= s.take(trim_end(s).len() as int));
    } else {
        assert(s.take(s.len() as int) =~= s);
    }
}

/// Trimming twice trims once.
pub proof fn lemma_trim_idempotent(s: Seq<char>)
    ensures
        trim(trim(s)) == trim(s),
{
    let a = trim_start(s);
    let t = trim_end(a);
    lemma_trim_start_first(s);
    lemma_trim_end_shape(a);
    if t.len() > 0 {
        assert(t[0] == a[0]);
        assert(trim_start(t) == t);
        lemma_trim_end_shape(t);
        assert(!is_ws(t.last()));
        assert(trim_end(t) == t);
    } else {
        assert(trim_start(t) == t);
        assert(trim_end(t) == t);
    }
}

/// No four consecutive characters of `s` read `w0 w1 w2 w3`.
pub open spec fn lacks4(s: Seq<char>, w0: char, w1: char, w2: char, w3: char) -> bool {
    forall|i: int|
        0 <= i && i + 3 < s.len() ==> !(#[trigger] s[i] == w0 && s[i + 1] == w1 && s[i + 2] == w2 && s[i + 3] == w3)
}

/// Replacing in `a + x` leaves `a` as it is when no occurrence of the
/// pattern's first four characters starts inside `a`.
pub proof fn lemma_replace_all_skip(a: Seq<char>, x: Seq<char>, pat: Seq<char>, rep: Seq<char>)
    requires
        pat.len() >= 4,
        forall|i: int|
            0 <= i < a.len() && i + 3 < (a + x).len() ==> !(#[trigger] (a + x)[i] == pat[0] && (a + x)[i + 1] == pat[1]
                && (a + x)[i + 2] == pat[2] && (a + x)[i + 3] == pat[3]),
    ensures
        replace_all(a + x, pat, rep) == a + replace_all(x, pat, rep),
    decreases a.len(),
{
    let m = pat.len() as int;
    let s = a + x;
    if a.len() == 0 {
        assert(s =~= x);
        assert(a + replace_all(x, pat, rep) =~= replace_all(x, pat, rep));
    } else if s.len() < m {
    } else {
        assert(s[0] == s.take(m)[0] && s[1] == s.take(m)[1] && s[2] == s.take(m)[2] && s[3] == s.take(m)[3]);
        assert(s.take(m) != pat);
        let a1 = a.drop_first();
        assert(s.drop_first() =~= a1 + x);
        assert forall|i: int|
            0 <= i < a1.len() && i + 3 < (a1 + x).len() implies !(#[trigger] (a1 + x)[i] == pat[0] && (a1 + x)[i + 1] == pat[1]
                && (a1 + x)[i + 2] == pat[2] && (a1 + x)[i + 3] == pat[3]) by {
            assert((a1 + x)[i] == s[i + 1]);
            assert((a1 + x)[i + 1] == s[i + 2]);
            assert((a1 + x)[i + 2] == s[i + 3]);
            assert((a1 + x)[i + 3] == s[i + 4]);
        }
        lemma_replace_all_skip(a1, x, pat, rep);
        assert(seq![s[0]] + (a1 + replace_all(x, pat, rep)) =~= a + replace_all(x, pat, rep));
    }
}

/// A text that never holds the pattern is left as it is.
pub proof fn lemma_replace_all_not_contained(s: Seq<char>, pat: Seq<char>, rep: Seq<char>)
    requires
        pat.len() > 0,
        !contains(s, pat),
    ensures
        replace_all(s, pat, rep) == s,
    decreases s.len(),
{
    let m = pat.len() as int;
    if s.len() >= m {
        if s.take(m) == pat {
            assert(s.subrange(0, m) =~= s.take(m));
            assert(occurs_at(s, pat, 0));
        }
        let s1 = s.drop_first();
        if contains(s1, pat) {
            let j = choose|j: int| occurs_at(s1, pat, j);
            assert(s.subrange(j + 1, j + 1 + m) =~= s1.subrange(j, j + m));
            assert(occurs_at(s, pat, j + 1));
        }
        lemma_replace_all_not_contained(s1, pat, rep);
        assert(seq![s[0]] + s1 =~= s);
    }
}

/// A text lacking four consecutive characters of `t` does not hold `t`.
pub proof fn lemma_lacks4_not_contained(s: Seq<char>, t: Seq<char>, o: int)
    requires
        0 <= o,
        o + 4 <= t.len(),
        lacks4(s, t[o], t[o + 1], t[o + 2], t[o + 3]),
    ensures
        !contains(s, t),
{
    if contains(s, t) {
        let i = choose|i: int| occurs_at(s, t, i);
        let w = s.subrange(i, i + t.len());
        assert(w[o] == s[i + o] && w[o + 1] == s[i + o + 1] && w[o + 2] == s[i + o + 2] && w[o + 3] == s[i + o + 3]);
        assert(!(s[i + o] == t[o] && s[i + o + 1] == t[o + 1] && s[i + o + 2] == t[o + 2] && s[i + o + 3] == t[o + 3]));
    }
}

/// Joining two texts that do not hold `t` gives one that does not, when a
/// character of `t` is not at the seam (the last of `a` or the first of `b`).
pub proof fn lemma_not_contained_concat(a: Seq<char>, b: Seq<char>, t: Seq<char>)
    requires
        t.len() > 0,
        !contains(a, t),
        !contains(b, t),
        (a.len() > 0 && !t.contains(a.last())) || (b.len() > 0 && !t.contains(b[0])),
    ensures
        !contains(a + b, t),
{
    let s = a + b;
    let n = t.len() as int;
    if contains(s, t) {
        let i = choose|i: int| occurs_at(s, t, i);
        if i + n <= a.len() {
            assert(a.subrange(i, i + n) =~= s.subrange(i, i + n));
            assert(occurs_at(a, t, i));
        } else if i >= a.len() {
            assert(b.subrange(i - a.len(), i - a.len() + n) =~= s.subrange(i, i + n));
            assert(occurs_at(b, t, i - a.len()));
        } else {
            let w = s.subrange(i, i + n);
            if a.len() > 0 {
                assert(w[a.len() - 1 - i] == a.last());
                assert(t[a.len() - 1 - i] == a.last());
            }
            if b.len() > 0 {
                assert(w[a.len() - i] == b[0]);
                assert(t[a.len() - i] == b[0]);
            }
        }
    }
}

/// A trimmed text does not begin with whitespace.
pub proof fn lemma_trimmed_first(t: Seq<char>)
    requires
        trim(t) == t,
        t.len() > 0,
    ensures
        !is_ws(t[0]),
{
    lemma_trim_start_first(t);
    lemma_trim_end_shape(trim_start(t));
    if is_ws(t[0]) {
        lemma_trim_start_first(t.drop_first());
        assert(trim_start(t) == trim_start(t.drop_first()));
    }
}

/// Trimming a leading part of a trimmed text gives a leading part of it.
pub proof fn lemma_trim_prefix_of_trimmed(t: Seq<char>, p: Seq<char>)
    requires
        trim(t) == t,
        has_prefix(t, p),
    ensures
        has_prefix(t, trim(p)),
{
    if p.len() == 0 {
        assert(trim(p) =~= Seq::<char>::empty());
        assert(t.take(0) =~= Seq::<char>::empty());
    } else {
        lemma_trimmed_first(t);
        assert(p[0] == t.take(p.len() as int)[0]);
        assert(trim_start(p) == p);
        lemma_trim_end_shape(p);
        let k = trim(p).len() as int;
        assert(t.take(k) =~= p.take(k));
    }
}

/// A decimal rendering has one digit below ten and at least two from ten on.
pub proof fn lemma_dec_len(n: nat)
    ensures
        1 <= dec(n).len(),
        n < 10 <==> dec(n).len() == 1,
    decreases n,
{
    if n >= 10 {
        lemma_dec_len(n / 10);
    }
}

/// Distinct numbers have distinct decimal renderings.
pub proof fn lemma_dec_injective(n: nat, m: nat)
    requires
        dec(n) == dec(m),
    ensures
        n == m,
    decreases n,
{
    lemma_dec_len(n);
    lemma_dec_len(m);
    if n < 10 && m < 10 {
        assert(dec(n)[0] == digit_char(n));
        assert(dec(m)[0] == digit_char(m));
        assert((((n + 48) as u32) as char) as u32 == (n + 48) as u32);
        assert((((m + 48) as u32) as char) as u32 == (m + 48) as u32);
    } else if n >= 10 && m >= 10 {
        assert(dec(n).last() == digit_char(n % 10));
        assert(dec(m).last() == digit_char(m % 10));
        assert((((n % 10 + 48) as u32) as char) as u32 == (n % 10 + 48) as u32);
        assert((((m % 10 + 48) as u32) as char) as u32 == (m % 10 + 48) as u32);
        assert(dec(n).drop_last() =~= dec(n / 10));
        assert(dec(m).drop_last() =~= dec(m / 10));
        lemma_dec_injective(n / 10, m / 10);
    }
}

/// A decimal rendering is a run of digits whose value is the number.
pub proof fn lemma_dec_digits(n: nat)
    ensures
        all_digits(dec(n)),
        digits_value(dec(n)) == n,
    decreases n,
{
    let d = n % 10;
    assert((((d + 48) as u32) as char) as u32 == (d + 48) as u32);
    assert(dec(n).last() == digit_char(d));
    assert((dec(n).last() as u32) - 48 == d);
    assert(digits_value(dec(n)) == digits_value(dec(n).drop_last()) * 10 + ((dec(n).last() as u32) - 48) as nat);
    if n < 10 {
        assert(dec(n).drop_last() =~= Seq::<char>::empty());
        assert(digits_value(Seq::<char>::empty()) == 0);
    } else {
        lemma_dec_digits(n / 10);
        assert(dec(n).drop_last() =~= dec(n / 10));
        assert(n == (n / 10) * 10 + d);
        assert forall|i: int| 0 <= i < dec(n).len() implies is_digit(#[trigger] dec(n)[i]) by {
            if i < dec(n).len() - 1 {
                assert(dec(n)[i] == dec(n / 10)[i]);
            }
        }
    }
}

/// What comes before the first `c` of `x + y`, when `x` holds no `c`.
pub proof fn lemma_before_first_concat(x: Seq<char>, y: Seq<char>, c: char)
    requires
        forall|i: int| 0 <= i < x.len() ==> x[i] != c,
    ensures
        before_first(x + y, c) == x + before_first(y, c),
    decreases x.len(),
{
    if x.len() == 0 {
        assert(x + y =~= y);
        assert(x + before_first(y, c) =~= before_first(y, c));
    } else {
        assert((x + y)[0] == x[0]);
        assert((x + y).drop_first() =~= x.drop_first() + y);
        lemma_before_first_concat(x.drop_first(), y, c);
        assert(seq![x[0]] + (x.drop_first() + before_first(y, c)) =~= x + before_first(y, c));
    }
}

/// What comes after the last `c` of `x + y`, when `y` holds no `c`.
pub proof fn lemma_after_last_concat(x: Seq<char>, y: Seq<char>, c: char)
    requires
        forall|i: int| 0 <= i < y.len() ==> y[i] != c,
    ensures
        after_last(x + y, c) == after_last(x, c) + y,
    decreases y.len(),
{
    if y.len() == 0 {
        assert(x + y =~= x);
        assert(after_last(x, c) + y =~= after_last(x, c));
    } else {
        assert((x + y).last() == y.last());
        assert((x + y).drop_last() =~= x + y.drop_last());
        lemma_after_last_concat(x, y.drop_last(), c);
        assert((after_last(x, c) + y.drop_last()).push(y.last()) =~= after_last(x, c) + y);
    }
}

/// The value of a digit run never decreases as it grows.
pub proof fn lemma_digits_value_prefix(s: Seq<char>, j: int, k: int)
    requires
        0 <= j <= k <= s.len(),
    ensures
        digits_value(s.take(j)) <= digits_value(s.take(k)),
    decreases k - j,
{
    if j < k {
        lemma_digits_value_prefix(s, j, k - 1);
        assert(s.take(k).drop_last() =~= s.take(k - 1));
    }
}

// ---------------------------------------------------------------------------
// Conversions
// ---------------------------------------------------------------------------

/// Copy the characters of a string slice into a vector.
pub fn chars_of(s: &str) -> (v: Vec<char>)
    ensures
        v@ == s@,
{
    let mut v: Vec<char> = Vec::new();
    for c in it: s.chars()
        invariant
            it.seq() == s@,
            v@ == it.seq().take(it.index()),
    {
        v.push(c);
        assert(v@ == it.seq().take(it.index() + 1));
    }
    v
}

/// Appends one character to a `String` (`String::push`).
#[verifier::external_body]
pub(crate) fn push_char(s: &mut String, c: char)
    ensures
        final(s)@ == old(s)@.push(c),
{
    s.push(c);
}

/// Appends `v[from..to]` to a `String`.
pub fn push_chars(out: &mut String, v: &Vec<char>, from: usize, to: usize)
    requires
        from <= to <= v.len(),
    ensures
        final(out)@ == old(out)@ + v@.subrange(from as int, to as int),
{
    let mut i = from;
    while i < to
        invariant
            from <= i <= to <= v.len(),
            out@ == old(out)@ + v@.subrange(from as int, i as int),
        decreases to - i,
    {
        push_char(out, v[i]);
        assert(v@.subrange(from as int, i + 1) =~= v@.subrange(from as int, i as int).push(v@[i as int]));
        i += 1;
    }
}

/// A `String` holding `v[from..to]`.
pub fn string_of(v: &Vec<char>, from: usize, to: usize) -> (s: String)
    requires
        from <= to <= v.len(),
    ensures
        s@ == v@.subrange(from as int, to as int),
{
    let mut s = String::new();
    push_chars(&mut s, v, from, to);
    assert(s@ =~= v@.subrange(from as int, to as int));
    s
}

/// A `String` holding all of `v`.
pub fn string_of_all(v: &Vec<char>) -> (s: String)
    ensures
        s@ == v@,
{
    let s = string_of(v, 0, v.len());
    assert(v@.subrange(0, v@.len() as int) =~= v@);
    s
}

/// Appends a string slice to a `String`.
pub fn push_str(out: &mut String, s: &str)
    ensures
        final(out)@ == old(out)@ + s@,
{
    out.append(s);
}

/// A `String` copy of a string slice.
pub fn owned(s: &str) -> (r: String)
    ensures
        r@ == s@,
{
    String::from_str(s)
}

/// All characters of `s` are ASCII.
pub open spec fn all_ascii(s: Seq<char>) -> bool {
    forall|i: int| 0 <= i < s.len() ==> (#[trigger] s[i] as u32) < 128
}

/// `str::to_lowercase` (std): the Unicode lowercase mapping of the whole
/// string. The result is named, not described, except on ASCII text, where
/// Unicode's mapping lowers `A`–`Z` and keeps every other character.
#[verifier::external_body]
pub(crate) fn lowercase(s: &str) -> (r: String)
    ensures
        r@ == unicode_lowercase(s@),
        all_ascii(s@) ==> r@ == ascii_lower_seq(s@),
{
    s.to_lowercase()
}

// ---------------------------------------------------------------------------
// Whitespace and trimming
// ---------------------------------------------------------------------------

/// `char::is_whitespace`.
pub fn char_is_ws(c: char) -> (b: bool)
    ensures
        b == is_ws(c),
{
    ('\u{9}' <= c && c <= '\u{d}') || c == ' ' || c == '\u{85}' || c == '\u{a0}' || c == '\u{1680}'
        || ('\u{2000}' <= c && c <= '\u{200a}') || c == '\u{2028}' || c == '\u{2029}' || c
        == '\u{202f}' || c == '\u{205f}' || c == '\u{3000}'
}

/// Index of the first non-whitespace character at or after `from`
/// (`trim_start` of `v[from..]` is `v[i..]`).
pub fn skip_ws(v: &Vec<char>, from: usize) -> (i: usize)
    requires
        from <= v.len(),
    ensures
        from <= i <= v.len(),
        trim_start(v@.skip(from as int)) == v@.skip(i as int),
        forall|k: int| from <= k < i ==> is_ws(#[trigger] v@[k]),
{
    let mut i = from;
    while i < v.len() && char_is_ws(v[i])
        invariant
            from <= i <= v.len(),
            trim_start(v@.skip(from as int)) == trim_start(v@.skip(i as int)),
            forall|k: int| from <= k < i ==> is_ws(#[trigger] v@[k]),
        decreases v.len() - i,
    {
        proof {
            lemma_trim_start_skip(v@, i as int);
        }
        i += 1;
    }
    assert(trim_start(v@.skip(i as int)) == v@.skip(i as int));
    i
}



/// Bounds `[a, b)` of `trim(v)` within `v`.
pub fn trim_bounds(v: &Vec<char>) -> (r: (usize, usize))
    ensures
        r.0 <= r.1 <= v.len(),
        trim(v@) == v@.subrange(r.0 as int, r.1 as int),
{
    let a = skip_ws(v, 0);
    assert(v@.skip(0) =~= v@);
    let ghost t = v@.skip(a as int);
    let mut j = v.len();
    while j > a && char_is_ws(v[j - 1])
        invariant
            a <= j <= v.len(),
            t == v@.skip(a as int),
            trim_end(t) == trim_end(v@.subrange(a as int, j as int)),
        decreases j,
    {
        proof {
            assert(v@.subrange(a as int, j as int).drop_last() =~= v@.subrange(a as int, j - 1));
        }
        j -= 1;
    }
    proof {
        assert(v@.skip(a as int) =~= v@.subrange(a as int, v@.len() as int));
        if j > a {
            assert(v@.subrange(a as int, j as int).last() == v@[j - 1]);
        }
        assert(trim_end(v@.subrange(a as int, j as int)) == v@.subrange(a as int, j as int));
    }
    (a, j)
}

/// `str::trim` as a new `String`.
pub fn trimmed(s: &str) -> (r: String)
    ensures
        r@ == trim(s@),
{
    let v = chars_of(s);
    let (a, b) = trim_bounds(&v);
    string_of(&v, a, b)
}

// ---------------------------------------------------------------------------
// Search
// ---------------------------------------------------------------------------

/// Whether `needle` occurs in `v` at index `i`.
pub fn matches_at(v: &Vec<char>, i: usize, needle: &Vec<char>) -> (b: bool)
    ensures
        b == occurs_at(v@, needle@, i as int),
{
    if i > v.len() || needle.len() > v.len() - i {
        return false;
    }
    let mut k: usize = 0;
    while k < needle.len()
        invariant
            i + needle.len() <= v.len(),
            k <= needle.len(),
            forall|m: int| 0 <= m < k ==> v@[i + m] == needle@[m],
        decreases needle.len() - k,
    {
        if v[i + k] != needle[k] {
            assert(v@.subrange(i as int, i + needle.len())[k as int] != needle@[k as int]);
            return false;
        }
        k += 1;
    }
    assert(v@.subrange(i as int, i + needle.len()) =~= needle@);
    true
}

/// `v` starts with `p`.
pub fn starts_with(v: &Vec<char>, p: &Vec<char>) -> (b: bool)
    ensures
        b == has_prefix(v@, p@),
{
    let b = matches_at(v, 0, p);
    assert(p@.len() <= v@.len() ==> v@.subrange(0, p@.len() as int) =~= v@.take(p@.len() as int));
    b
}



/// String equality on slices.
pub fn str_eq(a: &str, b: &str) -> (r: bool)
    ensures
        r == (a@ == b@),
{
    let av = chars_of(a);
    let bv = chars_of(b);
    if av.len() != bv.len() {
        return false;
    }
    let r = starts_with(&av, &bv);
    assert(av@.take(bv@.len() as int) =~= av@);
    r
}

/// `str::contains` with a string pattern.
pub fn contains_chars(v: &Vec<char>, needle: &Vec<char>) -> (b: bool)
    ensures
        b == contains(v@, needle@),
{
    if needle.len() > v.len() {
        return false;
    }
    let limit = v.len() - needle.len();
    let mut i: usize = 0;
    while i < limit
        invariant
            i <= limit,
            limit == v.len() - needle.len(),
            forall|k: int| 0 <= k < i ==> !occurs_at(v@, needle@, k),
        decreases limit - i,
    {
        if matches_at(v, i, needle) {
            return true;
        }
        i += 1;
    }
    if matches_at(v, limit, needle) {
        return true;
    }
    assert forall|k: int| !occurs_at(v@, needle@, k) by {
        if 0 <= k && k < i {
        }
    }
    false
}



/// `str::replace` with a non-empty literal pattern.
pub fn replace_chars(v: &Vec<char>, pat: &Vec<char>, rep: &Vec<char>) -> (r: Vec<char>)
    requires
        pat.len() > 0,
    ensures
        r@ == replace_all(v@, pat@, rep@),
{
    let mut out: Vec<char> = Vec::new();
    let mut i: usize = 0;
    assert(v@.skip(0) =~= v@);
    assert(out@ + replace_all(v@, pat@, rep@) =~= replace_all(v@, pat@, rep@));
    while i < v.len()
        invariant
            pat@.len() > 0,
            i <= v.len(),
            out@ + replace_all(v@.skip(i as int), pat@, rep@) == replace_all(v@, pat@, rep@),
        decreases v.len() - i,
    {
        let ghost rest = v@.skip(i as int);
        if matches_at(v, i, pat) {
            proof {
                assert(rest.take(pat@.len() as int) =~= v@.subrange(i as int, i + pat@.len()));
                assert(rest.skip(pat@.len() as int) =~= v@.skip(i + pat@.len()));
            }
            let mut k: usize = 0;
            let ghost out0 = out@;
            while k < rep.len()
                invariant
                    k <= rep.len(),
                    out@ == out0 + rep@.take(k as int),
                decreases rep.len() - k,
            {
                out.push(rep[k]);
                assert(rep@.take(k + 1) =~= rep@.take(k as int).push(rep@[k as int]));
                k += 1;
            }
            assert(rep@.take(rep@.len() as int) =~= rep@);
            assert(out@ + replace_all(v@.skip(i + pat@.len()), pat@, rep@) =~= out0 + (rep@
                + replace_all(v@.skip(i + pat@.len()), pat@, rep@)));
            i += pat.len();
        } else {
            proof {
                if rest.len() >= pat@.len() {
                    assert(rest.take(pat@.len() as int) =~= v@.subrange(i as int, i + pat@.len()));
                }
                assert(rest.drop_first() =~= v@.skip(i + 1));
            }
            let ghost out0 = out@;
            out.push(v[i]);
            assert(out@ + replace_all(v@.skip(i + 1), pat@, rep@) =~= out0 + (seq![v@[i as int]]
                + replace_all(v@.skip(i + 1), pat@, rep@)));
            i += 1;
        }
    }
    assert(v@.skip(i as int) =~= Seq::<char>::empty());
    assert(out@ + Seq::<char>::empty() =~= out@);
    out
}

// ---------------------------------------------------------------------------
// Numbers
// ---------------------------------------------------------------------------

/// Appends the decimal rendering of `n`.
pub fn push_dec(out: &mut Vec<char>, n: u64)
    ensures
        final(out)@ == old(out)@ + dec(n as nat),
    decreases n,
{
    if n >= 10 {
        push_dec(out, n / 10);
    }
    let d = n % 10;
    let c = char_from_digit(d);
    out.push(c);
    proof {
        assert(dec(n as nat) == if n < 10 {
            seq![digit_char(n as nat)]
        } else {
            dec((n / 10) as nat).push(digit_char((n % 10) as nat))
        });
        if n < 10 {
            assert(n % 10 == n);
        }
    }
    assert(final(out)@ =~= old(out)@ + dec(n as nat)) by {
        if n < 10 {
            assert(n % 10 == n);
        }
    }
}

fn char_from_digit(d: u64) -> (c: char)
    requires
        d < 10,
    ensures
        c == digit_char(d as nat),
{
    if d == 0 {
        '0'
    } else if d == 1 {
        '1'
    } else if d == 2 {
        '2'
    } else if d == 3 {
        '3'
    } else if d == 4 {
        '4'
    } else if d == 5 {
        '5'
    } else if d == 6 {
        '6'
    } else if d == 7 {
        '7'
    } else if d == 8 {
        '8'
    } else {
        '9'
    }
}

/// Decimal rendering of `n` as a `String`.
pub fn dec_string(n: u64) -> (s: String)
    ensures
        s@ == dec(n as nat),
{
    let mut v: Vec<char> = Vec::new();
    push_dec(&mut v, n);
    assert(v@ =~= dec(n as nat));
    string_of_all(&v)
}

/// Unsigned `str::parse` of `v` with an upper bound `max`.
pub fn parse_unsigned_chars(v: &Vec<char>, max: u64) -> (r: Option<u64>)
    ensures
        r matches Some(x) ==> parse_unsigned(v@, max as nat) == Some(x as nat),
        r is None ==> parse_unsigned(v@, max as nat) is None,
{
    let start: usize = if v.len() > 0 && v[0] == '+' {
        1
    } else {
        0
    };
    let ghost b = unsigned_body(v@);
    assert(b =~= v@.skip(start as int));
    if start >= v.len() {
        return None;
    }
    let mut acc: u64 = 0;
    let mut i = start;
    while i < v.len()
        invariant
            start <= i <= v.len(),
            b == v@.skip(start as int),
            b == unsigned_body(v@),
            all_digits(v@.subrange(start as int, i as int)),
            acc as nat == digits_value(v@.subrange(start as int, i as int)),
            acc <= max,
        decreases v.len() - i,
    {
        let c = v[i];
        if !('0' <= c && c <= '9') {
            assert(b[i - start] == c);
            assert(!is_digit(b[i - start]));
            assert(!all_digits(b));
            assert(unsigned_body(v@) == b);
            assert(parse_unsigned(v@, max as nat) is None);
            return None;
        }
        let d = (c as u32 - 48) as u64;
        proof {
            let sub = v@.subrange(start as int, i + 1);
            assert(sub.drop_last() =~= v@.subrange(start as int, i as int));
            assert(sub.last() == c);
            assert(digits_value(sub) == digits_value(sub.drop_last()) * 10 + ((sub.last() as u32) - 48) as nat);
        }
        if (acc as u128) * 10 + (d as u128) > (max as u128) {
            proof {
                assert(b.take((i + 1 - start) as int) =~= v@.subrange(start as int, i + 1));
                assert(b.take(b.len() as int) =~= b);
                lemma_digits_value_prefix(b, (i + 1 - start) as int, b.len() as int);
                assert(digits_value(b) > max);
            }
            return None;
        }
        acc = ((acc as u128) * 10 + (d as u128)) as u64;
        i += 1;
    }
    assert(v@.subrange(start as int, v@.len() as int) =~= b);
    Some(acc)
}

// ---------------------------------------------------------------------------
// Case mapping
// ---------------------------------------------------------------------------

/// `char::to_ascii_lowercase`.
pub fn char_ascii_lower(c: char) -> (r: char)
    ensures
        r == ascii_lower(c),
{
    if 'A' <= c && c <= 'Z' {
        let b = c as u8 + 32;
        b as char
    } else {
        c
    }
}

} // verus!
