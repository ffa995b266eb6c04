//! CSS color syntax: `#RGB`, `#RRGGBB`, `rgb(...)` / `rgba(...)`. This module
//! decides the syntax and reads hex components as bytes; the numeric fields
//! of `rgb(...)` are returned as text for the caller to read as numbers.
use vstd::prelude::*;
use crate::text::{before_first, chars_of, is_hex_digit, string_of, trim, trim_bounds};

verus! {

/// Bytes `char::len_utf8` reports for `c`.
pub open spec fn utf8_len(c: char) -> nat {
    if (c as u32) < 0x80 {
        1
    } else if (c as u32) < 0x800 {
        2
    } else if (c as u32) < 0x10000 {
        3
    } else {
        4
    }
}

/// UTF-8 length of a character sequence (`str::len`).
pub open spec fn byte_len(s: Seq<char>) -> nat
    decreases s.len(),
{
    if s.len() == 0 {
        0
    } else {
        byte_len(s.drop_last()) + utf8_len(s.last())
    }
}

/// Value of a hex digit.
pub open spec fn hex_val(c: char) -> nat {
    if '0' <= c && c <= '9' {
        ((c as u32) - 48) as nat
    } else if 'a' <= c && c <= 'f' {
        ((c as u32) - 87) as nat
    } else {
        ((c as u32) - 55) as nat
    }
}

/// `u8::from_str_radix(ab, 16)` on a two-character ASCII string: two hex
/// digits, or `+` and one hex digit.
pub open spec fn pair_value(a: char, b: char) -> Option<u8> {
    if a == '+' {
        if is_hex_digit(b) {
            Some(hex_val(b) as u8)
        } else {
            None
        }
    } else if is_hex_digit(a) && is_hex_digit(b) {
        Some((16 * hex_val(a) + hex_val(b)) as u8)
    } else {
        None
    }
}

/// Reading the two-byte slot starting at character `i` of a six-byte hex
/// body whose earlier slots were ASCII pairs.
pub enum Slot {
    /// The slot boundary falls inside a character.
    Split,
    /// The slot does not read as a hex byte.
    Invalid,
    /// The slot's value.
    Value(u8),
}

/// The slot at character `i`.
pub open spec fn slot(h: Seq<char>, i: int) -> Slot {
    if 0 <= i < h.len() && utf8_len(h[i]) == 1 {
        if i + 1 < h.len() && utf8_len(h[i + 1]) == 1 {
            match pair_value(h[i], h[i + 1]) {
                Some(v) => Slot::Value(v),
                None => Slot::Invalid,
            }
        } else {
            Slot::Split
        }
    } else if 0 <= i < h.len() && utf8_len(h[i]) == 2 {
        Slot::Invalid
    } else {
        Slot::Split
    }
}

/// A six-byte hex body: `Err` when a slot boundary falls inside a character,
/// `Ok(None)` when a slot is not a hex byte, else the three bytes.
pub open spec fn six_digit(h: Seq<char>) -> Result<Option<(u8, u8, u8)>, ()> {
    match slot(h, 0) {
        Slot::Split => Err(()),
        Slot::Invalid => Ok(None),
        Slot::Value(r) => match slot(h, 2) {
            Slot::Split => Err(()),
            Slot::Invalid => Ok(None),
            Slot::Value(g) => match slot(h, 4) {
                Slot::Split => Err(()),
                Slot::Invalid => Ok(None),
                Slot::Value(b) => Ok(Some((r, g, b))),
            },
        },
    }
}

/// A three-byte hex body: three ASCII characters, each doubled into a byte.
pub open spec fn three_digit(h: Seq<char>) -> Option<(u8, u8, u8)> {
    if h.len() == 3 {
        match (pair_value(h[0], h[0]), pair_value(h[1], h[1]), pair_value(h[2], h[2])) {
            (Some(r), Some(g), Some(b)) => Some((r, g, b)),
            _ => None,
        }
    } else {
        None
    }
}

/// The hex body of a `#...` color: what follows `#` after trimming, trimmed.
pub open spec fn hex_body(css: Seq<char>) -> Option<Seq<char>> {
    let s = trim(css);
    if s.len() > 0 && s[0] == '#' {
        Some(trim(s.drop_first()))
    } else {
        None
    }
}

/// The color a CSS value denotes, before numeric conversion.
pub enum CssColorSpec {
    Hex(u8, u8, u8),
    Rgb(Seq<char>, Seq<char>, Seq<char>),
}

/// The part after the first `c`, if `s` holds one.
pub open spec fn after_first(s: Seq<char>, c: char) -> Option<Seq<char>>
    decreases s.len(),
{
    if s.len() == 0 {
        None
    } else if s[0] == c {
        Some(s.drop_first())
    } else {
        after_first(s.drop_first(), c)
    }
}

/// Field separators inside `rgb(...)`.
pub open spec fn is_field_sep(c: char) -> bool {
    c == ',' || c == ' ' || c == '/'
}

/// Splitting `s` at separators: the finished non-empty trimmed fields, and
/// the field still being read.
pub open spec fn split_fields(s: Seq<char>) -> (Seq<Seq<char>>, Seq<char>)
    decreases s.len(),
{
    if s.len() == 0 {
        (Seq::empty(), Seq::empty())
    } else {
        let (d, c) = split_fields(s.drop_last());
        if is_field_sep(s.last()) {
            (
                if trim(c).len() > 0 {
                    d.push(trim(c))
                } else {
                    d
                },
                Seq::empty(),
            )
        } else {
            (d, c.push(s.last()))
        }
    }
}

/// The non-empty trimmed fields of `s` between separators, in order.
pub open spec fn fields(s: Seq<char>) -> Seq<Seq<char>> {
    let (d, c) = split_fields(s);
    if trim(c).len() > 0 {
        d.push(trim(c))
    } else {
        d
    }
}

/// The text inside `rgb(...)`: after the first `(`, up to the next `(` or
/// `)`; `None` without a `(`.
pub open spec fn rgb_inside(s: Seq<char>) -> Option<Seq<char>> {
    match after_first(s, '(') {
        Some(rest) => Some(before_first(before_first(rest, '('), ')')),
        None => None,
    }
}

/// The color syntax of a CSS value: `#` and a three- or six-byte hex body,
/// or `rgb…(` with at least three fields (the first three are the
/// channels); anything else is no color.
pub open spec fn spec_css_color(css: Seq<char>) -> Option<CssColorSpec> {
    let s = trim(css);
    match hex_body(css) {
        Some(h) => if byte_len(h) == 3 {
            match three_digit(h) {
                Some((r, g, b)) => Some(CssColorSpec::Hex(r, g, b)),
                None => None,
            }
        } else if byte_len(h) == 6 {
            match six_digit(h) {
                Ok(Some((r, g, b))) => Some(CssColorSpec::Hex(r, g, b)),
                _ => None,
            }
        } else {
            None
        },
        None => if s.len() >= 3 && s[0] == 'r' && s[1] == 'g' && s[2] == 'b' {
            match rgb_inside(s) {
                Some(inside) => if fields(inside).len() >= 3 {
                    Some(CssColorSpec::Rgb(fields(inside)[0], fields(inside)[1], fields(inside)[2]))
                } else {
                    None
                },
                None => None,
            }
        } else {
            None
        },
    }
}

/// A CSS color value, read: hex bytes, or the three channel fields of `rgb(...)`.
#[derive(Clone, Debug)]
pub enum CssColor {
    Hex(u8, u8, u8),
    Rgb(String, String, String),
}

/// A read color, viewed.
pub open spec fn css_view(c: CssColor) -> CssColorSpec {
    match c {
        CssColor::Hex(r, g, b) => CssColorSpec::Hex(r, g, b),
        CssColor::Rgb(r, g, b) => CssColorSpec::Rgb(r@, g@, b@),
    }
}

fn char_utf8_len(c: char) -> (n: usize)
    ensures
        n == utf8_len(c),
{
    let u = c as u32;
    if u < 0x80 {
        1
    } else if u < 0x800 {
        2
    } else if u < 0x10000 {
        3
    } else {
        4
    }
}

fn hex_digit_value(c: char) -> (v: Option<u8>)
    ensures
        is_hex_digit(c) ==> v == Some(hex_val(c) as u8),
        !is_hex_digit(c) ==> v is None,
        v matches Some(x) ==> x < 16,
{
    if '0' <= c && c <= '9' {
        Some((c as u32 - 48) as u8)
    } else if 'a' <= c && c <= 'f' {
        Some((c as u32 - 87) as u8)
    } else if 'A' <= c && c <= 'F' {
        Some((c as u32 - 55) as u8)
    } else {
        None
    }
}

fn pair(a: char, b: char) -> (v: Option<u8>)
    ensures
        v == pair_value(a, b),
{
    if a == '+' {
        return hex_digit_value(b);
    }
    match (hex_digit_value(a), hex_digit_value(b)) {
        (Some(x), Some(y)) => Some(16 * x + y),
        _ => None,
    }
}

fn slot_exec(h: &Vec<char>, i: usize) -> (r: Result<Option<u8>, ()>)
    ensures
        r == match slot(h@, i as int) {
            Slot::Split => Err(()),
            Slot::Invalid => Ok(None::<u8>),
            Slot::Value(v) => Ok(Some(v)),
        },
{
    if i < h.len() && char_utf8_len(h[i]) == 1 {
        if i + 1 < h.len() && char_utf8_len(h[i + 1]) == 1 {
            Ok(pair(h[i], h[i + 1]))
        } else {
            Err(())
        }
    } else if i < h.len() && char_utf8_len(h[i]) == 2 {
        Ok(None)
    } else {
        Err(())
    }
}

fn byte_len_exec(v: &Vec<char>, from: usize, to: usize) -> (n: usize)
    requires
        from <= to <= v.len(),
    ensures
        n <= 6 ==> n as nat == byte_len(v@.subrange(from as int, to as int)),
        n == 7 ==> byte_len(v@.subrange(from as int, to as int)) > 6,
        n <= 7,
{
    let mut n: usize = 0;
    let mut i = from;
    assert(v@.subrange(from as int, from as int) =~= Seq::<char>::empty());
    while i < to
        invariant
            from <= i <= to <= v.len(),
            n <= 6,
            n as nat == byte_len(v@.subrange(from as int, i as int)),
        decreases to - i,
    {
        let l = char_utf8_len(v[i]);
        proof {
            let s = v@.subrange(from as int, i + 1);
            assert(s.drop_last() =~= v@.subrange(from as int, i as int));
            assert(s.last() == v@[i as int]);
        }
        if n + l > 6 {
            proof {
                lemma_byte_len_mono(v@, from as int, i + 1, to as int);
            }
            return 7;
        }
        n = n + l;
        i += 1;
    }
    n
}

proof fn lemma_byte_len_mono(v: Seq<char>, from: int, j: int, k: int)
    requires
        0 <= from <= j <= k <= v.len(),
    ensures
        byte_len(v.subrange(from, j)) <= byte_len(v.subrange(from, k)),
    decreases k - j,
{
    if j < k {
        lemma_byte_len_mono(v, from, j, k - 1);
        assert(v.subrange(from, k).drop_last() =~= v.subrange(from, k - 1));
    }
}

/// A copy of `v[from..to]`.
fn sub_vec(v: &Vec<char>, from: usize, to: usize) -> (r: Vec<char>)
    requires
        from <= to <= v.len(),
    ensures
        r@ == v@.subrange(from as int, to as int),
{
    let mut r: Vec<char> = Vec::new();
    let mut i = from;
    while i < to
        invariant
            from <= i <= to <= v.len(),
            r@ == v@.subrange(from as int, i as int),
        decreases to - i,
    {
        r.push(v[i]);
        assert(r@ =~= v@.subrange(from as int, i + 1));
        i += 1;
    }
    r
}

/// Index of the first `c` in `v` (its length when there is none).
fn first_index(v: &Vec<char>, c: char) -> (j: usize)
    ensures
        j <= v.len(),
        before_first(v@, c) == v@.take(j as int),
        j < v.len() ==> after_first(v@, c) == Some(v@.skip(j + 1)),
        j == v.len() ==> after_first(v@, c) is None,
{
    let mut j: usize = 0;
    assert(v@.skip(0) =~= v@);
    assert(v@.take(0) + before_first(v@.skip(0), c) =~= before_first(v@, c));
    while j < v.len() && v[j] != c
        invariant
            j <= v.len(),
            before_first(v@, c) == v@.take(j as int) + before_first(v@.skip(j as int), c),
            after_first(v@, c) == after_first(v@.skip(j as int), c),
        decreases v.len() - j,
    {
        proof {
            let r = v@.skip(j as int);
            assert(r[0] == v@[j as int]);
            assert(r.drop_first() =~= v@.skip(j + 1));
            assert(v@.take(j as int) + (seq![r[0]] + before_first(r.drop_first(), c)) =~= v@.take(j + 1) + before_first(v@.skip(j + 1), c));
        }
        j += 1;
    }
    proof {
        let r = v@.skip(j as int);
        if j < v.len() {
            assert(r[0] == c);
            assert(r.drop_first() =~= v@.skip(j + 1));
        }
        assert(before_first(r, c) =~= Seq::<char>::empty());
        assert(v@.take(j as int) + Seq::<char>::empty() =~= v@.take(j as int));
    }
    j
}

fn push_field(done: &mut Vec<String>, piece: &Vec<char>)
    ensures
        final(done)@.map_values(|s: String| s@) == if trim(piece@).len() > 0 {
            old(done)@.map_values(|s: String| s@).push(trim(piece@))
        } else {
            old(done)@.map_values(|s: String| s@)
        },
{
    let (pa, pb) = trim_bounds(piece);
    if pa < pb {
        let f = string_of(piece, pa, pb);
        done.push(f);
        assert(done@.map_values(|s: String| s@) =~= old(done)@.map_values(|s: String| s@).push(trim(piece@)));
    }
}

/// The non-empty trimmed fields of `v` between separators.
fn collect_fields(v: &Vec<char>) -> (r: Vec<String>)
    ensures
        r@.map_values(|s: String| s@) == fields(v@),
{
    let mut done: Vec<String> = Vec::new();
    let mut start: usize = 0;
    let mut i: usize = 0;
    assert(v@.take(0) =~= Seq::<char>::empty());
    assert(v@.subrange(0, 0) =~= Seq::<char>::empty());
    while i < v.len()
        invariant
            start <= i <= v.len(),
            (done@.map_values(|s: String| s@), v@.subrange(start as int, i as int)) == split_fields(v@.take(i as int)),
        decreases v.len() - i,
    {
        proof {
            assert(v@.take(i + 1).drop_last() =~= v@.take(i as int));
            assert(v@.take(i + 1).last() == v@[i as int]);
        }
        let c = v[i];
        if c == ',' || c == ' ' || c == '/' {
            let piece = sub_vec(v, start, i);
            push_field(&mut done, &piece);
            start = i + 1;
            assert(v@.subrange(start as int, i + 1) =~= Seq::<char>::empty());
        } else {
            assert(v@.subrange(start as int, i + 1) =~= v@.subrange(start as int, i as int).push(c));
        }
        i += 1;
    }
    assert(v@.take(i as int) =~= v@);
    let piece = sub_vec(v, start, i);
    push_field(&mut done, &piece);
    done
}

/// Read a CSS color value's syntax. Any text that is not one of the color
/// forms gives `None`, a hex body that is six bytes long but not six hex
/// digits (one holding a multi-byte character) included.
pub fn parse_css_color_parts(css: &str) -> (c: Option<CssColor>)
    ensures
        c matches Some(x) ==> spec_css_color(css@) == Some(css_view(x)),
        c is None ==> spec_css_color(css@) is None,
{
    let v = chars_of(css);
    let (a, b) = trim_bounds(&v);
    let sv = sub_vec(&v, a, b);
    assert(sv@ == trim(css@));
    if sv.len() > 0 && sv[0] == '#' {
        let h0 = sub_vec(&sv, 1, sv.len());
        assert(h0@ =~= sv@.drop_first());
        let (ha, hb) = trim_bounds(&h0);
        let h = sub_vec(&h0, ha, hb);
        assert(hex_body(css@) == Some(h@));
        let n = byte_len_exec(&h, 0, h.len());
        assert(h@.subrange(0, h@.len() as int) =~= h@);
        if n == 3 {
            if h.len() == 3 {
                match (pair(h[0], h[0]), pair(h[1], h[1]), pair(h[2], h[2])) {
                    (Some(r), Some(g), Some(b)) => Some(CssColor::Hex(r, g, b)),
                    _ => None,
                }
            } else {
                None
            }
        } else if n == 6 {
            let r = match slot_exec(&h, 0) {
                Ok(Some(x)) => x,
                _ => {
                    return None;
                },
            };
            let g = match slot_exec(&h, 2) {
                Ok(Some(x)) => x,
                _ => {
                    return None;
                },
            };
            let bb = match slot_exec(&h, 4) {
                Ok(Some(x)) => x,
                _ => {
                    return None;
                },
            };
            Some(CssColor::Hex(r, g, bb))
        } else {
            None
        }
    } else if sv.len() >= 3 && sv[0] == 'r' && sv[1] == 'g' && sv[2] == 'b' {
        let k = first_index(&sv, '(');
        if k == sv.len() {
            return None;
        }
        let rest = sub_vec(&sv, k + 1, sv.len());
        assert(rest@ =~= sv@.skip(k + 1));
        let j1 = first_index(&rest, '(');
        let seg = sub_vec(&rest, 0, j1);
        assert(seg@ =~= rest@.take(j1 as int));
        let j2 = first_index(&seg, ')');
        let inside = sub_vec(&seg, 0, j2);
        assert(inside@ =~= seg@.take(j2 as int));
        assert(rgb_inside(sv@) == Some(inside@));
        let fs = collect_fields(&inside);
        if fs.len() >= 3 {
            let f0 = fs[0].clone();
            let f1 = fs[1].clone();
            let f2 = fs[2].clone();
            proof {
                assert(fs@.map_values(|s: String| s@)[0] == fs@[0]@);
                assert(fs@.map_values(|s: String| s@)[1] == fs@[1]@);
                assert(fs@.map_values(|s: String| s@)[2] == fs@[2]@);
            }
            Some(CssColor::Rgb(f0, f1, f2))
        } else {
            None
        }
    } else {
        None
    }
}

} // verus!
