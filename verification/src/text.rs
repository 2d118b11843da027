//! Character-sequence model of strings and the verified string operations
//! that the rest of the library is built from.

use vstd::prelude::*;

verus! {

/// `char::is_whitespace`: the Unicode `White_Space` property.
pub open spec fn is_ws(c: char) -> bool {
    ||| ('\u{9}' <= c && c <= '\u{d}')
    ||| c == ' '
    ||| c == '\u{85}'
    ||| c == '\u{a0}'
    ||| c == '\u{1680}'
    ||| ('\u{2000}' <= c && c <= '\u{200a}')
    ||| c == '\u{2028}'
    ||| c == '\u{2029}'
    ||| c == '\u{202f}'
    ||| c == '\u{205f}'
    ||| c == '\u{3000}'
}

pub fn char_is_ws(c: char) -> (r: bool)
    ensures
        r == is_ws(c),
{
    ('\u{9}' <= c && c <= '\u{d}') || c == ' ' || c == '\u{85}' || c == '\u{a0}' || c
        == '\u{1680}' || ('\u{2000}' <= c && c <= '\u{200a}') || c == '\u{2028}' || c
        == '\u{2029}' || c == '\u{202f}' || c == '\u{205f}' || c == '\u{3000}'
}

/// The characters of a string slice, in order.
pub fn chars_of(s: &str) -> (v: Vec<char>)
    ensures
        v@ == s@,
{
    let mut v: Vec<char> = Vec::new();
    for c in it: s.chars()
        invariant
            v@ == it.seq().take(it.index() as int),
    {
        v.push(c);
    }
    assert(v@ =~= s@);
    v
}


/// A `String` holding exactly the given characters.
pub fn string_from(v: &[char]) -> (s: String)
    ensures
        s@ == v@,
{
    let mut s = String::new();
    let mut i: usize = 0;
    while i < v.len()
        invariant
            i <= v@.len(),
            s@ == v@.subrange(0, i as int),
        decreases v.len() - i,
    {
        push_char(&mut s, v[i]);
        i += 1;
    }
    assert(s@ =~= v@);
    s
}

/// Appends one character (`String::push`).
#[verifier::external_body]
pub(crate) fn push_char(s: &mut String, c: char)
    ensures
        final(s)@ == old(s)@.push(c),
{
    s.push(c);
}

/// A `String` with the contents of a string slice.
pub fn owned(s: &str) -> (r: String)
    ensures
        r@ == s@,
{
    s.to_string()
}

/// `pre`, `x` and `post` written one after the other, as `format!` does
/// with one argument.
pub fn fmt_text(pre: &str, x: &str, post: &str) -> (r: String)
    ensures
        r@ == pre@ + x@ + post@,
{
    let mut s = owned(pre);
    s.append(x);
    s.append(post);
    s
}

/// Appends an owned copy of `x` to a list of strings.
pub fn push_text(v: &mut Vec<String>, x: &str)
    ensures
        views(final(v)@) == views(old(v)@).push(x@),
{
    let ghost before = v@;
    v.push(owned(x));
    proof {
        lemma_views_push(before, v@.last());
        assert(v@ == before.push(v@.last()));
    }
}

/// `p` occurs in `s` starting at index `i`.
pub open spec fn matches_at(s: Seq<char>, p: Seq<char>, i: int) -> bool {
    0 <= i && i + p.len() <= s.len() && s.subrange(i, i + p.len()) == p
}

pub open spec fn has_prefix(s: Seq<char>, p: Seq<char>) -> bool {
    matches_at(s, p, 0)
}

pub open spec fn has_suffix(s: Seq<char>, p: Seq<char>) -> bool {
    p.len() <= s.len() && matches_at(s, p, s.len() - p.len())
}

pub open spec fn has_sub(s: Seq<char>, p: Seq<char>) -> bool {
    exists|i: int| matches_at(s, p, i)
}

/// The first index at or after `i` where `p` occurs in `s`.
pub open spec fn first_match_from(s: Seq<char>, p: Seq<char>, i: int) -> Option<int>
    decreases s.len() + 1 - i,
{
    if i < 0 || i > s.len() || i + p.len() > s.len() {
        None
    } else if matches_at(s, p, i) {
        Some(i)
    } else {
        first_match_from(s, p, i + 1)
    }
}

/// `str::find`: the first index where `p` occurs in `s`.
pub open spec fn find(s: Seq<char>, p: Seq<char>) -> Option<int> {
    first_match_from(s, p, 0)
}

pub proof fn lemma_first_match_skip(s: Seq<char>, p: Seq<char>, k: int, i: int)
    requires
        0 <= k <= i,
        forall|j: int| k <= j < i ==> !matches_at(s, p, j),
    ensures
        first_match_from(s, p, k) == first_match_from(s, p, i),
    decreases i - k,
{
    if k < i {
        lemma_first_match_skip(s, p, k + 1, i);
    }
}

pub proof fn lemma_first_match_props(s: Seq<char>, p: Seq<char>, i: int)
    requires
        0 <= i,
    ensures
        first_match_from(s, p, i) matches Some(j) ==> i <= j && matches_at(s, p, j) && forall|
            m: int,
        |
            i <= m < j ==> !matches_at(s, p, m),
        first_match_from(s, p, i) is None ==> forall|m: int| i <= m ==> !matches_at(s, p, m),
    decreases s.len() + 1 - i,
{
    if i <= s.len() && i + p.len() <= s.len() && !matches_at(s, p, i) {
        lemma_first_match_props(s, p, i + 1);
    }
}

pub proof fn lemma_find_some_iff_sub(s: Seq<char>, p: Seq<char>)
    ensures
        find(s, p) is Some <==> has_sub(s, p),
{
    lemma_first_match_props(s, p, 0);
    if has_sub(s, p) {
        let w = choose|i: int| matches_at(s, p, i);
        assert(0 <= w);
    }
}

/// Whether `p` occurs in `s` at index `i` (checked character by character).
pub fn matches_at_exec(s: &[char], p: &[char], i: usize) -> (r: bool)
    ensures
        r == matches_at(s@, p@, i as int),
{
    if i > s.len() || p.len() > s.len() - i {
        return false;
    }
    let n = s.len();
    let mut k: usize = 0;
    while k < p.len()
        invariant
            n == s@.len(),
            i + p@.len() <= s@.len(),
            k <= p@.len(),
            forall|m: int| 0 <= m < k ==> s@[i + m] == p@[m],
        decreases p.len() - k,
    {
        assert(i + k < s@.len());
        if s[i + k] != p[k] {
            assert(s@.subrange(i as int, i + p@.len())[k as int] != p@[k as int]);
            return false;
        }
        k += 1;
    }
    assert(s@.subrange(i as int, i + p@.len()) =~= p@);
    true
}

/// The first occurrence of `p` in `s` at or after `start`.
pub fn find_from(s: &[char], p: &[char], start: usize) -> (r: Option<usize>)
    ensures
        match r {
            Some(j) => first_match_from(s@, p@, start as int) == Some(j as int),
            None => first_match_from(s@, p@, start as int) is None,
        },
{
    if start > s.len() || p.len() > s.len() - start {
        return None;
    }
    if p.len() == 0 {
        assert(s@.subrange(start as int, start as int) =~= p@);
        return Some(start);
    }
    let n = s.len();
    let last = s.len() - p.len();
    let mut i = start;
    while i <= last
        invariant
            n == s@.len(),
            start <= i,
            p@.len() >= 1,
            last + p@.len() == s@.len(),
            start <= last + 1,
            i <= last + 1,
            forall|j: int| start <= j < i ==> !matches_at(s@, p@, j),
        decreases last + 1 - i,
    {
        if matches_at_exec(s, p, i) {
            proof {
                lemma_first_match_skip(s@, p@, start as int, i as int);
            }
            return Some(i);
        }
        i += 1;
    }
    proof {
        lemma_first_match_skip(s@, p@, start as int, i as int);
    }
    None
}

pub fn find_seq(s: &[char], p: &[char]) -> (r: Option<usize>)
    ensures
        match r {
            Some(j) => find(s@, p@) == Some(j as int) && j + p@.len() <= s@.len(),
            None => find(s@, p@) is None,
        },
{
    proof {
        lemma_first_match_props(s@, p@, 0);
    }
    find_from(s, p, 0)
}

pub fn contains_seq(s: &[char], p: &[char]) -> (r: bool)
    ensures
        r == has_sub(s@, p@),
{
    proof {
        lemma_find_some_iff_sub(s@, p@);
    }
    find_from(s, p, 0).is_some()
}

pub fn starts_with_seq(s: &[char], p: &[char]) -> (r: bool)
    ensures
        r == has_prefix(s@, p@),
{
    matches_at_exec(s, p, 0)
}

pub fn ends_with_seq(s: &[char], p: &[char]) -> (r: bool)
    ensures
        r == has_suffix(s@, p@),
{
    if p.len() > s.len() {
        false
    } else {
        matches_at_exec(s, p, s.len() - p.len())
    }
}

/// `str::contains` on string slices.
pub fn str_contains(s: &str, p: &str) -> (r: bool)
    ensures
        r == has_sub(s@, p@),
{
    let sv = chars_of(s);
    let pv = chars_of(p);
    contains_seq(sv.as_slice(), pv.as_slice())
}

/// `str::starts_with` on string slices.
pub fn str_starts_with(s: &str, p: &str) -> (r: bool)
    ensures
        r == has_prefix(s@, p@),
{
    let sv = chars_of(s);
    let pv = chars_of(p);
    starts_with_seq(sv.as_slice(), pv.as_slice())
}

/// `str::ends_with` on string slices.
pub fn str_ends_with(s: &str, p: &str) -> (r: bool)
    ensures
        r == has_suffix(s@, p@),
{
    let sv = chars_of(s);
    let pv = chars_of(p);
    ends_with_seq(sv.as_slice(), pv.as_slice())
}

/// Equality of two character sequences.
pub fn seq_eq(a: &[char], b: &[char]) -> (r: bool)
    ensures
        r == (a@ == b@),
{
    if a.len() != b.len() {
        return false;
    }
    let r = matches_at_exec(a, b, 0);
    proof {
        assert(a@.subrange(0, b@.len() as int) =~= a@);
    }
    r
}

/// Equality of two string slices.
pub fn str_eq(a: &str, b: &str) -> (r: bool)
    ensures
        r == (a@ == b@),
{
    let av = chars_of(a);
    let bv = chars_of(b);
    seq_eq(av.as_slice(), bv.as_slice())
}

/// A copy of `s[i..j]`.
pub fn sub_vec(s: &[char], i: usize, j: usize) -> (r: Vec<char>)
    requires
        i <= j <= s@.len(),
    ensures
        r@ == s@.subrange(i as int, j as int),
{
    let mut r: Vec<char> = Vec::new();
    let mut k = i;
    while k < j
        invariant
            i <= k <= j,
            j <= s@.len(),
            r@ == s@.subrange(i as int, k as int),
        decreases j - k,
    {
        r.push(s[k]);
        k += 1;
    }
    r
}

/// `s[i..j]` as a `String`.
pub fn sub_string(s: &[char], i: usize, j: usize) -> (r: String)
    requires
        i <= j <= s@.len(),
    ensures
        r@ == s@.subrange(i as int, j as int),
{
    let v = sub_vec(s, i, j);
    string_from(v.as_slice())
}

pub open spec fn trim_start(s: Seq<char>) -> Seq<char>
    decreases s.len(),
{
    if s.len() > 0 && is_ws(s[0]) {
        trim_start(s.drop_first())
    } else {
        s
    }
}

pub open spec fn trim_end(s: Seq<char>) -> Seq<char>
    decreases s.len(),
{
    if s.len() > 0 && is_ws(s.last()) {
        trim_end(s.drop_last())
    } else {
        s
    }
}

/// `str::trim`.
pub open spec fn trim(s: Seq<char>) -> Seq<char> {
    trim_end(trim_start(s))
}

/// Bounds `(a, b)` with `s[a..b] == trim(s)`.
pub fn trim_bounds(s: &[char]) -> (r: (usize, usize))
    ensures
        r.0 <= r.1 <= s@.len(),
        s@.subrange(r.0 as int, r.1 as int) == trim(s@),
{
    let n = s.len();
    let mut a: usize = 0;
    assert(s@.subrange(0, n as int) =~= s@);
    while a < n && char_is_ws(s[a])
        invariant
            a <= n,
            n == s@.len(),
            trim_start(s@) == trim_start(s@.subrange(a as int, n as int)),
        decreases n - a,
    {
        assert(s@.subrange(a as int, n as int).drop_first() =~= s@.subrange(a + 1, n as int));
        a += 1;
    }
    let mut b: usize = n;
    while b > a && char_is_ws(s[b - 1])
        invariant
            a <= b <= n,
            n == s@.len(),
            trim_start(s@) == s@.subrange(a as int, n as int),
            trim(s@) == trim_end(s@.subrange(a as int, b as int)),
        decreases b - a,
    {
        assert(s@.subrange(a as int, b as int).drop_last() =~= s@.subrange(a as int, b - 1));
        b -= 1;
    }
    (a, b)
}

/// `str::trim` on a character slice.
pub fn trim_vec(s: &[char]) -> (r: Vec<char>)
    ensures
        r@ == trim(s@),
{
    let (a, b) = trim_bounds(s);
    sub_vec(s, a, b)
}

/// The character sequences of a list of strings.
pub open spec fn views(v: Seq<String>) -> Seq<Seq<char>> {
    v.map_values(|x: String| x@)
}

pub proof fn lemma_views_push(v: Seq<String>, x: String)
    ensures
        views(v.push(x)) == views(v).push(x@),
{
    assert(views(v.push(x)) =~= views(v).push(x@));
}

/// The character sequences of a list of character vectors.
pub open spec fn vviews(v: Seq<Vec<char>>) -> Seq<Seq<char>> {
    v.map_values(|x: Vec<char>| x@)
}

pub proof fn lemma_vviews_push(v: Seq<Vec<char>>, x: Vec<char>)
    ensures
        vviews(v.push(x)) == vviews(v).push(x@),
{
    assert(vviews(v.push(x)) =~= vviews(v).push(x@));
}

/// `[String]::join`.
pub open spec fn join(parts: Seq<Seq<char>>, sep: Seq<char>) -> Seq<char>
    decreases parts.len(),
{
    if parts.len() == 0 {
        Seq::empty()
    } else if parts.len() == 1 {
        parts[0]
    } else {
        join(parts.drop_last(), sep) + sep + parts.last()
    }
}

/// Joins `parts` with `sep` between consecutive elements.
pub fn join_strings(parts: &Vec<String>, sep: &str) -> (r: String)
    ensures
        r@ == join(views(parts@), sep@),
{
    let mut r = String::new();
    let n = parts.len();
    let ghost vs = views(parts@);
    let mut i: usize = 0;
    while i < n
        invariant
            n == parts@.len(),
            vs == views(parts@),
            i <= n,
            r@ == join(vs.take(i as int), sep@),
        decreases n - i,
    {
        if i != 0 {
            r.append(sep);
        }
        r.append(parts[i].as_str());
        proof {
            assert(vs.take(i + 1).drop_last() =~= vs.take(i as int));
            assert(vs.take(i + 1).last() == parts@[i as int]@);
            if i == 0 {
                assert(r@ =~= vs.take(1)[0]);
            }
        }
        i += 1;
    }
    assert(vs.take(n as int) =~= vs);
    r
}

pub proof fn lemma_first_match_shift(s: Seq<char>, p: Seq<char>, start: int, k: int)
    requires
        0 <= start <= k,
        start <= s.len(),
    ensures
        first_match_from(s, p, k) == (match first_match_from(
            s.subrange(start, s.len() as int),
            p,
            k - start,
        ) {
            Some(j) => Some(j + start),
            None => None,
        }),
    decreases s.len() + 1 - k,
{
    let t = s.subrange(start, s.len() as int);
    if k <= s.len() && k + p.len() <= s.len() {
        assert(t.subrange(k - start, k - start + p.len()) =~= s.subrange(k, k + p.len()));
        lemma_first_match_shift(s, p, start, k + 1);
    }
}

/// `str::split` by a non-empty pattern.
pub open spec fn split(s: Seq<char>, p: Seq<char>) -> Seq<Seq<char>>
    decreases s.len(),
{
    match find(s, p) {
        Some(i) => if p.len() > 0 && 0 <= i && i + p.len() <= s.len() {
            seq![s.subrange(0, i)] + split(s.subrange(i + p.len(), s.len() as int), p)
        } else {
            seq![s]
        },
        None => seq![s],
    }
}

/// Splits `s` at each occurrence of the non-empty pattern `p`.
pub fn split_seq(s: &[char], p: &[char]) -> (r: Vec<Vec<char>>)
    requires
        p@.len() > 0,
    ensures
        vviews(r@) == split(s@, p@),
{
    let n = s.len();
    let mut r: Vec<Vec<char>> = Vec::new();
    let mut start: usize = 0;
    assert(s@.subrange(0, n as int) =~= s@);
    loop
        invariant
            n == s@.len(),
            p@.len() > 0,
            start <= n,
            split(s@, p@) == vviews(r@) + split(
                s@.subrange(start as int, n as int),
                p@,
            ),
        decreases n - start,
    {
        let ghost t = s@.subrange(start as int, n as int);
        proof {
            lemma_first_match_shift(s@, p@, start as int, start as int);
            lemma_first_match_props(t, p@, 0);
        }
        match find_from(s, p, start) {
            Some(j) => {
                let piece = sub_vec(s, start, j);
                proof {
                    assert(t.subrange(0, j - start) =~= piece@);
                    assert(t.subrange(j - start + p@.len(), t.len() as int) =~= s@.subrange(
                        j + p@.len(),
                        n as int,
                    ));
                }
                let ghost old_r = r@;
                r.push(piece);
                proof {
                    assert(vviews(r@) =~= old_r.map_values(
                        |x: Vec<char>| x@,
                    ) + seq![piece@]);
                }
                start = j + p.len();
            },
            None => {
                let piece = sub_vec(s, start, n);
                let ghost old_r = r@;
                r.push(piece);
                proof {
                    assert(vviews(r@) =~= old_r.map_values(
                        |x: Vec<char>| x@,
                    ) + seq![piece@]);
                }
                return r;
            },
        }
    }
}

/// `str::replace` with a non-empty pattern: every non-overlapping occurrence of
/// `p`, from left to right, becomes `r`.
pub open spec fn replace(s: Seq<char>, p: Seq<char>, r: Seq<char>) -> Seq<char>
    decreases s.len(),
{
    if p.len() == 0 || s.len() == 0 {
        s
    } else if has_prefix(s, p) {
        r + replace(s.subrange(p.len() as int, s.len() as int), p, r)
    } else {
        seq![s[0]] + replace(s.drop_first(), p, r)
    }
}

/// Replaces each occurrence of the non-empty pattern `p` in `s` by `r`.
pub fn replace_seq(s: &[char], p: &[char], r: &[char]) -> (out: Vec<char>)
    requires
        p@.len() > 0,
    ensures
        out@ == replace(s@, p@, r@),
{
    let n = s.len();
    let mut out: Vec<char> = Vec::new();
    let mut i: usize = 0;
    assert(s@.subrange(0, n as int) =~= s@);
    while i < n
        invariant
            n == s@.len(),
            p@.len() > 0,
            i <= n,
            replace(s@, p@, r@) == out@ + replace(s@.subrange(i as int, n as int), p@, r@),
        decreases n - i,
    {
        let ghost t = s@.subrange(i as int, n as int);
        if matches_at_exec(s, p, i) {
            assert(t.subrange(0, p@.len() as int) =~= s@.subrange(i as int, i + p@.len()));
            assert(t.subrange(p@.len() as int, t.len() as int) =~= s@.subrange(
                i + p@.len(),
                n as int,
            ));
            let mut k: usize = 0;
            let ghost before = out@;
            while k < r.len()
                invariant
                    k <= r@.len(),
                    out@ == before + r@.subrange(0, k as int),
                decreases r.len() - k,
            {
                out.push(r[k]);
                k += 1;
            }
            assert(r@.subrange(0, r@.len() as int) =~= r@);
            assert(out@ + replace(s@.subrange(i + p@.len(), n as int), p@, r@) =~= before + (r@
                + replace(s@.subrange(i + p@.len(), n as int), p@, r@)));
            i = i + p.len();
        } else {
            proof {
                if i + p@.len() <= n {
                    assert(t.subrange(0, p@.len() as int) =~= s@.subrange(i as int, i + p@.len()));
                }
                assert(t.drop_first() =~= s@.subrange(i + 1, n as int));
            }
            let ghost before = out@;
            out.push(s[i]);
            assert(out@ + replace(s@.subrange(i + 1, n as int), p@, r@) =~= before + (seq![t[0]]
                + replace(t.drop_first(), p@, r@)));
            i = i + 1;
        }
    }
    assert(out@ + replace(s@.subrange(n as int, n as int), p@, r@) =~= out@);
    out
}

/// The value of `str::to_lowercase` on a character sequence.
pub uninterp spec fn lowercase(s: Seq<char>) -> Seq<char>;

pub open spec fn is_ascii_seq(s: Seq<char>) -> bool {
    forall|i: int| 0 <= i < s.len() ==> (s[i] as u32) < 128
}

pub open spec fn ascii_lower_char(c: char) -> char {
    if 'A' <= c && c <= 'Z' {
        ((c as u32) + 32) as char
    } else {
        c
    }
}

/// ASCII lowercasing of every character.
pub open spec fn ascii_lower(s: Seq<char>) -> Seq<char> {
    s.map_values(|c: char| ascii_lower_char(c))
}

/// `str::to_lowercase`. Its result is named by `lowercase`; on ASCII input
/// the standard library documents it as mapping `A`-`Z` to `a`-`z` and
/// keeping every other character. What it does on other input (Unicode case
/// mapping, which may change the length) is left unsaid.
#[verifier::external_body]
pub(crate) fn to_lowercase(s: &str) -> (r: String)
    ensures
        r@ == lowercase(s@),
        is_ascii_seq(s@) ==> r@ == ascii_lower(s@),
{
    s.to_lowercase()
}


/// The value of `char::is_uppercase`.
pub uninterp spec fn uppercase_char(c: char) -> bool;

/// `char::is_uppercase`: whether the character has the Unicode `Uppercase`
/// property. Its result is named by `uppercase_char`; the standard library
/// documents `A`-`Z` as uppercase and `a`-`z`, the digits and `_` as not.
/// Which other characters are uppercase is left unsaid.
#[verifier::external_body]
pub(crate) fn char_is_uppercase(c: char) -> (r: bool)
    ensures
        r == uppercase_char(c),
        'A' <= c <= 'Z' ==> r,
        ('a' <= c <= 'z' || '0' <= c <= '9' || c == '_') ==> !r,
{
    c.is_uppercase()
}

/// The text begins with an uppercase character.
pub open spec fn starts_uppercase(s: Seq<char>) -> bool {
    s.len() > 0 && uppercase_char(s[0])
}

/// Whether a string begins with an uppercase character.
pub fn str_starts_uppercase(s: &str) -> (r: bool)
    ensures
        r == starts_uppercase(s@),
{
    let v = chars_of(s);
    if v.len() == 0 {
        false
    } else {
        char_is_uppercase(v[0])
    }
}

/// `str::strip_suffix("\r")` applied when present.
pub open spec fn strip_cr(s: Seq<char>) -> Seq<char> {
    if s.len() > 0 && s.last() == '\r' {
        s.drop_last()
    } else {
        s
    }
}

pub open spec fn strip_cr_all(v: Seq<Seq<char>>) -> Seq<Seq<char>> {
    v.map_values(|x: Seq<char>| strip_cr(x))
}

/// `str::lines`: split at `\n`, a `\r` right before a `\n` is dropped, and a
/// final line ending adds no empty line.
pub open spec fn lines(s: Seq<char>) -> Seq<Seq<char>> {
    let parts = split(s, "\n"@);
    if s.len() == 0 {
        seq![]
    } else if s.last() == '\n' {
        strip_cr_all(parts.drop_last())
    } else {
        strip_cr_all(parts.drop_last()).push(parts.last())
    }
}

pub proof fn lemma_split_nonempty(s: Seq<char>, p: Seq<char>)
    ensures
        split(s, p).len() >= 1,
    decreases s.len(),
{
    match find(s, p) {
        Some(i) => if p.len() > 0 && 0 <= i && i + p.len() <= s.len() {
            lemma_split_nonempty(s.subrange(i + p.len(), s.len() as int), p);
        },
        None => {},
    }
}

/// The lines of a text.
pub fn lines_of(s: &[char]) -> (r: Vec<Vec<char>>)
    ensures
        vviews(r@) == lines(s@),
{
    let nl = ['\n'];
    proof {
        reveal_strlit("\n");
        assert(nl@ =~= "\n"@);
        lemma_split_nonempty(s@, "\n"@);
    }
    let parts = split_seq(s, &nl);
    let ghost pv = vviews(parts@);
    let mut r: Vec<Vec<char>> = Vec::new();
    if s.len() == 0 {
        return r;
    }
    let ends_nl = s[s.len() - 1] == '\n';
    let m = parts.len() - 1;
    let mut i: usize = 0;
    while i < m
        invariant
            m + 1 == parts@.len(),
            i <= m,
            pv == vviews(parts@),
            vviews(r@) == strip_cr_all(pv.take(i as int)),
        decreases m - i,
    {
        let piece = &parts[i];
        let k = piece.len();
        let item = if k > 0 && piece[k - 1] == '\r' {
            sub_vec(piece.as_slice(), 0, k - 1)
        } else {
            sub_vec(piece.as_slice(), 0, k)
        };
        proof {
            assert(pv[i as int] == piece@);
            assert(piece@.subrange(0, k as int) =~= piece@);
            if k > 0 {
                assert(piece@.subrange(0, k - 1) =~= piece@.drop_last());
            }
            lemma_vviews_push(r@, item);
            assert(strip_cr_all(pv.take(i + 1)) =~= strip_cr_all(pv.take(i as int)).push(strip_cr(pv[i as int])));
        }
        r.push(item);
        i += 1;
    }
    assert(pv.take(m as int) =~= pv.drop_last());
    if !ends_nl {
        let last = &parts[m];
        let item = sub_vec(last.as_slice(), 0, last.len());
        proof {
            assert(last@.subrange(0, last@.len() as int) =~= last@);
            lemma_vviews_push(r@, item);
        }
        r.push(item);
    }
    r
}


/// A copy of a list of strings.
pub fn copy_strings(v: &Vec<String>) -> (r: Vec<String>)
    ensures
        r@ == v@,
{
    let mut r: Vec<String> = Vec::new();
    let mut i: usize = 0;
    while i < v.len()
        invariant
            i <= v@.len(),
            r@ == v@.subrange(0, i as int),
        decreases v.len() - i,
    {
        r.push(v[i].clone());
        i += 1;
    }
    assert(r@ =~= v@);
    r
}

/// A copy of a list of string pairs.
pub fn copy_pairs(v: &Vec<(String, String)>) -> (r: Vec<(String, String)>)
    ensures
        r@ == v@,
{
    let mut r: Vec<(String, String)> = Vec::new();
    let mut i: usize = 0;
    while i < v.len()
        invariant
            i <= v@.len(),
            r@ == v@.subrange(0, i as int),
        decreases v.len() - i,
    {
        r.push((v[i].0.clone(), v[i].1.clone()));
        i += 1;
    }
    assert(r@ =~= v@);
    r
}

/// A copy of an optional string.
pub fn copy_opt(o: &Option<String>) -> (r: Option<String>)
    ensures
        r == *o,
{
    match o {
        Some(s) => Some(s.clone()),
        None => None,
    }
}

/// What `regex::Regex::new(pattern)` and then `is_match(text)` give: `None`
/// when the pattern does not compile, else whether the regular expression
/// matches somewhere in the text. It depends on the two texts alone.
pub uninterp spec fn regex_matches(pattern: Seq<char>, text: Seq<char>) -> Option<bool>;

/// Compiles `pattern` with `regex::Regex::new` and tests `text` with
/// `Regex::is_match`. Claimed: the result is `regex_matches` of the two
/// texts; nothing is claimed about which texts a pattern matches.
#[verifier::external_body]
pub(crate) fn regex_is_match(pattern: &str, text: &str) -> (r: Option<bool>)
    ensures
        r == regex_matches(pattern@, text@),
{
    match regex::Regex::new(pattern) {
        Ok(re) => Some(re.is_match(text)),
        Err(_) => None,
    }
}

} // verus!
