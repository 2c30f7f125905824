//! Ordering of version tokens.

use vstd::prelude::*;
use core::cmp::Ordering;
use crate::text::{find_char, first_index_of, slice_string};

verus! {

/// How the `semver` crate orders two texts, where both are semantic
/// versions.
pub uninterp spec fn semver_order(a: Seq<char>, b: Seq<char>) -> Option<Ordering>;

/// Relies on `semver::Version::parse` and the order `semver` derives for
/// `Version`: `None` unless both texts are semantic versions.
#[verifier::external_body]
fn semver_cmp(a: &str, b: &str) -> (r: Option<Ordering>)
    ensures
        r == semver_order(a@, b@),
{
    match (semver::Version::parse(a), semver::Version::parse(b)) {
        (Ok(x), Ok(y)) => Some(x.cmp(&y)),
        _ => None,
    }
}

/// `s` without one leading `v`.
pub open spec fn strip_v(s: Seq<char>) -> Seq<char> {
    if s.len() > 0 && s[0] == 'v' {
        s.drop_first()
    } else {
        s
    }
}

/// Character-wise lexicographic order, which is the byte order of UTF-8.
pub open spec fn lex_order(a: Seq<char>, b: Seq<char>) -> Ordering
    decreases a.len(),
{
    if a.len() == 0 {
        if b.len() == 0 {
            Ordering::Equal
        } else {
            Ordering::Less
        }
    } else if b.len() == 0 {
        Ordering::Greater
    } else if (a[0] as u32) < (b[0] as u32) {
        Ordering::Less
    } else if (a[0] as u32) > (b[0] as u32) {
        Ordering::Greater
    } else {
        lex_order(a.drop_first(), b.drop_first())
    }
}

/// The order of two version tokens: semantic-version order when both,
/// without a leading `v`, are semantic versions; otherwise the order of the
/// texts themselves.
pub open spec fn spec_compare_versions(a: Seq<char>, b: Seq<char>) -> Ordering {
    match semver_order(strip_v(a), strip_v(b)) {
        Some(o) => o,
        None => lex_order(a, b),
    }
}

fn without_v(s: &str) -> (r: String)
    ensures
        r@ == strip_v(s@),
{
    let n = s.unicode_len();
    if n > 0 && s.get_char(0) == 'v' {
        slice_string(s, 1, n)
    } else {
        String::from_str(s)
    }
}

/// Compares the texts character by character.
pub fn lex_compare(a: &str, b: &str) -> (r: Ordering)
    ensures
        r == lex_order(a@, b@),
{
    let n = a.unicode_len();
    let m = b.unicode_len();
    let mut i: usize = 0;
    assert(a@.subrange(0, n as int) =~= a@);
    assert(b@.subrange(0, m as int) =~= b@);
    while i < n && i < m
        invariant
            n == a@.len(),
            m == b@.len(),
            i <= n,
            i <= m,
            lex_order(a@, b@) == lex_order(a@.subrange(i as int, n as int), b@.subrange(i as int, m as int)),
        decreases n - i,
    {
        let x = a.get_char(i);
        let y = b.get_char(i);
        assert(a@.subrange(i as int, n as int).drop_first() =~= a@.subrange(i + 1, n as int));
        assert(b@.subrange(i as int, m as int).drop_first() =~= b@.subrange(i + 1, m as int));
        if (x as u32) < (y as u32) {
            return Ordering::Less;
        } else if (x as u32) > (y as u32) {
            return Ordering::Greater;
        }
        i = i + 1;
    }
    if i == n && i == m {
        Ordering::Equal
    } else if i == n {
        Ordering::Less
    } else {
        Ordering::Greater
    }
}

/// Orders two version tokens: by semantic-version rules where both parse
/// as semantic versions (a leading `v` allowed), else as plain texts.
pub fn compare_versions(a: &str, b: &str) -> (r: Ordering)
    ensures
        r == spec_compare_versions(a@, b@),
{
    let sa = without_v(a);
    let sb = without_v(b);
    match semver_cmp(sa.as_str(), sb.as_str()) {
        Some(o) => o,
        None => lex_compare(a, b),
    }
}

/// The parts of a text between its dots.
pub open spec fn split_dots(s: Seq<char>) -> Seq<Seq<char>>
    decreases s.len(),
{
    match first_index_of(s, '.') {
        Some(p) => if 0 <= p < s.len() {
            seq![s.subrange(0, p)] + split_dots(s.subrange(p + 1, s.len() as int))
        } else {
            seq![s]
        },
        None => seq![s],
    }
}

pub open spec fn is_digit(c: char) -> bool {
    '0' <= c && c <= '9'
}

/// The number written by a run of decimal digits.
pub open spec fn digits_value(d: Seq<char>) -> nat
    decreases d.len(),
{
    if d.len() == 0 {
        0
    } else {
        digits_value(d.drop_last()) * 10 + ((d.last() as u32) - ('0' as u32)) as nat
    }
}

/// The value `str::parse::<u32>` gives a text: an optional `+`, then at
/// least one decimal digit, within `u32`; zero when the parse fails.
pub open spec fn u32_or_zero(s: Seq<char>) -> nat {
    let d = unsigned_part(s);
    if d.len() > 0 && all_digits(d) && digits_value(d) <= u32::MAX {
        digits_value(d)
    } else {
        0
    }
}

/// A text without its leading `+`, if it has one.
pub open spec fn unsigned_part(s: Seq<char>) -> Seq<char> {
    if s.len() > 0 && s[0] == '+' {
        s.drop_first()
    } else {
        s
    }
}

pub open spec fn all_digits(d: Seq<char>) -> bool {
    forall|i: int| 0 <= i < d.len() ==> is_digit(#[trigger] d[i])
}

proof fn lemma_digits_grow(d: Seq<char>, i: int)
    requires
        0 <= i <= d.len(),
        forall|k: int| 0 <= k < d.len() ==> is_digit(#[trigger] d[k]),
    ensures
        digits_value(d.subrange(0, i)) <= digits_value(d),
    decreases d.len() - i,
{
    if i < d.len() {
        let a = d.subrange(0, i);
        let b = d.subrange(0, i + 1);
        assert(b.drop_last() =~= a);
        assert(is_digit(b.last()));
        assert(digits_value(a) <= digits_value(b));
        lemma_digits_grow(d, i + 1);
    } else {
        assert(d.subrange(0, i) =~= d);
    }
}

/// Reads a version part as `str::parse::<u32>` would, zero where it fails.
pub fn parse_part(s: &str) -> (r: u32)
    ensures
        r as nat == u32_or_zero(s@),
{
    let n = s.unicode_len();
    let start: usize = if n > 0 && s.get_char(0) == '+' { 1 } else { 0 };
    let ghost d = unsigned_part(s@);
    assert(d =~= s@.subrange(start as int, n as int));
    if start == n {
        return 0;
    }
    let mut acc: u64 = 0;
    let mut i: usize = start;
    while i < n
        invariant
            n == s@.len(),
            start <= i <= n,
            start < n,
            d == s@.subrange(start as int, n as int),
            d == unsigned_part(s@),
            acc as nat == digits_value(d.subrange(0, i - start)),
            acc <= u32::MAX,
            forall|k: int| 0 <= k < i - start ==> is_digit(#[trigger] d[k]),
        decreases n - i,
    {
        let c = s.get_char(i);
        assert(d[i - start] == c);
        if !('0' <= c && c <= '9') {
            assert(!is_digit(d[i - start]));
            assert(!all_digits(d));
            assert(u32_or_zero(s@) == 0);
            return 0;
        }
        let dv = (c as u32 - '0' as u32) as u64;
        assert(d.subrange(0, i - start + 1).drop_last() =~= d.subrange(0, i - start));
        assert(d.subrange(0, i - start + 1).last() == c);
        acc = acc * 10 + dv;
        assert(acc as nat == digits_value(d.subrange(0, i - start + 1)));
        i = i + 1;
        if acc > u32::MAX as u64 {
            proof {
                let j: int = i - start;
                if all_digits(d) {
                    lemma_digits_grow(d, j);
                    assert(digits_value(d) > u32::MAX);
                }
                assert(u32_or_zero(s@) == 0);
            }
            return 0;
        }
    }
    assert(d.subrange(0, n - start) =~= d);
    acc as u32
}

/// The numeric parts of a dotted version.
pub open spec fn part_values(s: Seq<char>) -> Seq<nat> {
    split_dots(s).map_values(|p: Seq<char>| u32_or_zero(p))
}

/// Part `i`, with missing parts counted as zero.
pub open spec fn part_at(v: Seq<nat>, i: int) -> nat {
    if 0 <= i < v.len() {
        v[i]
    } else {
        0
    }
}

/// Compares numeric parts from `i` on.
pub open spec fn parts_order(a: Seq<nat>, b: Seq<nat>, i: int) -> Ordering
    decreases (if a.len() > b.len() { a.len() } else { b.len() }) - i,
{
    let len: int = if a.len() > b.len() { a.len() as int } else { b.len() as int };
    if i >= len || i < 0 {
        Ordering::Equal
    } else if part_at(a, i) < part_at(b, i) {
        Ordering::Less
    } else if part_at(a, i) > part_at(b, i) {
        Ordering::Greater
    } else {
        parts_order(a, b, i + 1)
    }
}

/// The numeric parts of a dotted version, as `str::parse::<u32>` reads
/// each of them.
pub fn parts(s: &str) -> (r: Vec<u32>)
    ensures
        r@.map_values(|x: u32| x as nat) == part_values(s@),
{
    let mut r: Vec<u32> = Vec::new();
    let mut rest = String::from_str(s);
    assert(part_values(s@) =~= r@.map_values(|x: u32| x as nat) + part_values(rest@));
    loop
        invariant
            part_values(s@) == r@.map_values(|x: u32| x as nat) + part_values(rest@),
        decreases rest@.len(),
    {
        let ghost before = r@;
        match find_char(rest.as_str(), '.') {
            Some(p) => {
                let n = rest.as_str().unicode_len();
                let head = slice_string(rest.as_str(), 0, p);
                let next = slice_string(rest.as_str(), p + 1, n);
                r.push(parse_part(head.as_str()));
                assert(split_dots(rest@) == seq![head@] + split_dots(next@));
                assert(part_values(rest@) =~= seq![u32_or_zero(head@)] + part_values(next@));
                assert(r@.map_values(|x: u32| x as nat) =~= before.map_values(|x: u32| x as nat).push(u32_or_zero(head@)));
                rest = next;
            },
            None => {
                r.push(parse_part(rest.as_str()));
                assert(part_values(rest@) =~= seq![u32_or_zero(rest@)]);
                assert(r@.map_values(|x: u32| x as nat) =~= before.map_values(|x: u32| x as nat).push(u32_or_zero(rest@)));
                return r;
            },
        }
    }
}

/// The order of two dotted versions by their numeric parts, missing parts
/// counting as zero and unreadable parts as zero.
pub open spec fn spec_version_compare(a: Seq<char>, b: Seq<char>) -> Ordering {
    parts_order(part_values(a), part_values(b), 0)
}

/// Compares two dotted versions part by part as numbers.
pub fn version_compare(a: &str, b: &str) -> (r: Ordering)
    ensures
        r == spec_version_compare(a@, b@),
{
    let av = parts(a);
    let bv = parts(b);
    let ghost sa = av@.map_values(|x: u32| x as nat);
    let ghost sb = bv@.map_values(|x: u32| x as nat);
    let len = if av.len() > bv.len() { av.len() } else { bv.len() };
    let mut i: usize = 0;
    while i < len
        invariant
            sa == part_values(a@),
            sb == part_values(b@),
            sa.len() == av@.len(),
            sb.len() == bv@.len(),
            len == (if av@.len() > bv@.len() { av@.len() } else { bv@.len() }),
            i <= len,
            forall|k: int| 0 <= k < av@.len() ==> sa[k] == av@[k] as nat,
            forall|k: int| 0 <= k < bv@.len() ==> sb[k] == bv@[k] as nat,
            spec_version_compare(a@, b@) == parts_order(sa, sb, i as int),
        decreases len - i,
    {
        let x: u32 = if i < av.len() { av[i] } else { 0 };
        let y: u32 = if i < bv.len() { bv[i] } else { 0 };
        assert(x as nat == part_at(sa, i as int));
        assert(y as nat == part_at(sb, i as int));
        if x < y {
            return Ordering::Less;
        } else if x > y {
            return Ordering::Greater;
        }
        i = i + 1;
    }
    Ordering::Equal
}

} // verus!
