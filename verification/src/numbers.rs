//! Decimal parsing of unsigned integers, as `str::parse` does it, and the
//! edit distance between strings.

use vstd::prelude::*;

verus! {

pub open spec fn is_digit(c: char) -> bool {
    '0' <= c && c <= '9'
}

pub open spec fn digit_value(c: char) -> nat {
    ((c as u32) - ('0' as u32)) as nat
}

/// The value of a string of decimal digits.
pub open spec fn digits_value(d: Seq<char>) -> nat
    decreases d.len(),
{
    if d.len() == 0 {
        0
    } else {
        digits_value(d.drop_last()) * 10 + digit_value(d.last())
    }
}

/// The text after an optional leading `+`.
pub open spec fn strip_plus(s: Seq<char>) -> Seq<char> {
    if s.len() > 0 && s[0] == '+' {
        s.drop_first()
    } else {
        s
    }
}

pub open spec fn all_digits(d: Seq<char>) -> bool {
    forall|i: int| 0 <= i < d.len() ==> is_digit(#[trigger] d[i])
}

/// The digits that `str::parse` reads for an unsigned type: all of the text
/// after an optional leading `+`; `None` when that is empty or holds
/// anything but ASCII digits.
pub open spec fn unsigned_digits(s: Seq<char>) -> Option<Seq<char>> {
    if strip_plus(s).len() > 0 && all_digits(strip_plus(s)) {
        Some(strip_plus(s))
    } else {
        None
    }
}

/// What `str::parse` gives for an unsigned integer type whose largest value
/// is `max`: the decimal value, when the text is such a number and the value
/// fits.
pub open spec fn parse_unsigned(s: Seq<char>, max: nat) -> Option<nat> {
    match unsigned_digits(s) {
        Some(d) => if digits_value(d) <= max {
            Some(digits_value(d))
        } else {
            None
        },
        None => None,
    }
}

proof fn lemma_digits_value_monotone(d: Seq<char>, k: int)
    requires
        0 <= k <= d.len(),
    ensures
        digits_value(d.take(k)) <= digits_value(d),
    decreases d.len() - k,
{
    if k < d.len() {
        lemma_digits_value_monotone(d, k + 1);
        assert(d.take(k + 1).drop_last() =~= d.take(k));
    } else {
        assert(d.take(k) =~= d);
    }
}

/// Parses `s` as an unsigned decimal integer not above `max`.
pub fn parse_unsigned_exec(s: &str, max: u64) -> (r: Option<u64>)
    ensures
        match r {
            Some(v) => parse_unsigned(s@, max as nat) == Some(v as nat),
            None => parse_unsigned(s@, max as nat) is None,
        },
{
    let c = crate::text::chars_of(s);
    parse_unsigned_chars(c.as_slice(), max)
}

/// Parses the characters `s` as an unsigned decimal integer not above `max`.
pub fn parse_unsigned_chars(s: &[char], max: u64) -> (r: Option<u64>)
    ensures
        match r {
            Some(v) => parse_unsigned(s@, max as nat) == Some(v as nat),
            None => parse_unsigned(s@, max as nat) is None,
        },
{
    let c = s;
    let start: usize = if c.len() > 0 && c[0] == '+' {
        1
    } else {
        0
    };
    let ghost d = if c@.len() > 0 && c@[0] == '+' {
        c@.drop_first()
    } else {
        c@
    };
    assert(d =~= c@.subrange(start as int, c@.len() as int));
    if start >= c.len() {
        return None;
    }
    let mut acc: u64 = 0;
    let mut i: usize = start;
    while i < c.len()
        invariant
            c@ == s@,
            start <= i <= c@.len(),
            d == c@.subrange(start as int, c@.len() as int),
            d == strip_plus(s@),
            d.len() > 0,
            acc as nat == digits_value(d.take(i - start)),
            acc <= max,
            forall|k: int| 0 <= k < i - start ==> is_digit(#[trigger] d[k]),
        decreases c.len() - i,
    {
        let ch = c[i];
        assert(d[i - start] == ch);
        if !('0' <= ch && ch <= '9') {
            assert(!is_digit(d[i - start]));
            assert(!all_digits(d));
            return None;
        }
        let dv: u64 = (ch as u32 - '0' as u32) as u64;
        assert(d.take(i - start + 1).drop_last() =~= d.take(i - start));
        if dv > max || acc > (max - dv) / 10 {
            proof {
                if dv <= max {
                    assert(acc * 10 + dv > max) by (nonlinear_arith)
                        requires
                            acc > (max - dv) / 10,
                            dv <= 9,
                            dv <= max,
                    ;
                }
                lemma_digits_value_monotone(d, i - start + 1);
            }
            return None;
        }
        assert(acc * 10 + dv <= max) by (nonlinear_arith)
            requires
                acc <= (max - dv) / 10,
                dv <= 9,
                dv <= max,
        ;
        acc = acc * 10 + dv;
        i += 1;
    }
    assert(d.take(d.len() as int) =~= d);
    Some(acc)
}

pub open spec fn min3(a: nat, b: nat, c: nat) -> nat {
    if a <= b && a <= c {
        a
    } else if b <= c {
        b
    } else {
        c
    }
}

/// The Levenshtein distance: the fewest insertions, deletions and
/// substitutions of characters that turn `a` into `b`.
pub open spec fn edit_distance(a: Seq<char>, b: Seq<char>) -> nat
    decreases a.len() + b.len(),
{
    if a.len() == 0 {
        b.len()
    } else if b.len() == 0 {
        a.len()
    } else {
        min3(
            edit_distance(a.drop_last(), b) + 1,
            edit_distance(a, b.drop_last()) + 1,
            edit_distance(a.drop_last(), b.drop_last()) + if a.last() == b.last() {
                0nat
            } else {
                1nat
            },
        )
    }
}

proof fn lemma_edit_distance_bound(a: Seq<char>, b: Seq<char>)
    ensures
        edit_distance(a, b) <= if a.len() >= b.len() {
            a.len()
        } else {
            b.len()
        },
    decreases a.len() + b.len(),
{
    if a.len() > 0 && b.len() > 0 {
        lemma_edit_distance_bound(a.drop_last(), b.drop_last());
    }
}

/// The edit distance as computed in a `usize`: exact for texts shorter than
/// `usize::MAX` characters (all texts that can exist), else `usize::MAX`.
pub open spec fn lev_dist(a: Seq<char>, b: Seq<char>) -> nat {
    if a.len() < usize::MAX && b.len() < usize::MAX {
        edit_distance(a, b)
    } else {
        usize::MAX as nat
    }
}

/// The Levenshtein distance between two strings, counted in characters.
pub fn levenshtein_distance(s1: &str, s2: &str) -> (r: usize)
    ensures
        r == lev_dist(s1@, s2@),
{
    let a = crate::text::chars_of(s1);
    let b = crate::text::chars_of(s2);
    let len1 = a.len();
    let len2 = b.len();
    if len1 == usize::MAX || len2 == usize::MAX {
        return usize::MAX;
    }
    let mut prev: Vec<usize> = Vec::new();
    let mut j: usize = 0;
    while j <= len2
        invariant
            len2 < usize::MAX,
            j <= len2 + 1,
            prev@.len() == j,
            forall|k: int| 0 <= k < j ==> #[trigger] prev@[k] == k,
        decreases len2 + 1 - j,
    {
        prev.push(j);
        j += 1;
    }
    assert forall|k: int| 0 <= k <= len2 implies #[trigger] prev@[k] == edit_distance(
        a@.take(0),
        b@.take(k),
    ) by {}
    let mut i: usize = 1;
    while i <= len1
        invariant
            a@ == s1@,
            b@ == s2@,
            len1 == a@.len(),
            len2 == b@.len(),
            len1 < usize::MAX,
            len2 < usize::MAX,
            1 <= i <= len1 + 1,
            prev@.len() == len2 + 1,
            forall|k: int| 0 <= k <= len2 ==> #[trigger] prev@[k] == edit_distance(
                a@.take(i - 1),
                b@.take(k),
            ),
        decreases len1 + 1 - i,
    {
        let mut cur: Vec<usize> = Vec::new();
        cur.push(i);
        assert(cur@[0] == edit_distance(a@.take(i as int), b@.take(0)));
        let mut j: usize = 1;
        while j <= len2
            invariant
                a@ == s1@,
                b@ == s2@,
                len1 == a@.len(),
                len2 == b@.len(),
                len1 < usize::MAX,
                len2 < usize::MAX,
                1 <= i <= len1,
                1 <= j <= len2 + 1,
                prev@.len() == len2 + 1,
                cur@.len() == j,
                forall|k: int| 0 <= k <= len2 ==> #[trigger] prev@[k] == edit_distance(
                    a@.take(i - 1),
                    b@.take(k),
                ),
                forall|k: int| 0 <= k < j ==> #[trigger] cur@[k] == edit_distance(
                    a@.take(i as int),
                    b@.take(k),
                ),
            decreases len2 + 1 - j,
        {
            let ghost ai = a@.take(i as int);
            let ghost bj = b@.take(j as int);
            proof {
                assert(ai.drop_last() =~= a@.take(i - 1));
                assert(bj.drop_last() =~= b@.take(j - 1));
                assert(ai.last() == a@[i - 1]);
                assert(bj.last() == b@[j - 1]);
                lemma_edit_distance_bound(a@.take(i - 1), b@.take(j as int));
                lemma_edit_distance_bound(a@.take(i as int), b@.take(j - 1));
                lemma_edit_distance_bound(a@.take(i - 1), b@.take(j - 1));
            }
            let cost: usize = if a[i - 1] == b[j - 1] {
                0
            } else {
                1
            };
            let del = prev[j] + 1;
            let ins = cur[j - 1] + 1;
            let sub = prev[j - 1] + cost;
            let m = if del <= ins && del <= sub {
                del
            } else if ins <= sub {
                ins
            } else {
                sub
            };
            cur.push(m);
            j += 1;
        }
        prev = cur;
        i += 1;
    }
    assert(a@.take(len1 as int) =~= a@);
    assert(b@.take(len2 as int) =~= b@);
    prev[len2]
}

/// The decimal digit for a value below ten.
pub open spec fn digit_char(d: nat) -> char {
    if d == 0 {
        '0'
    } else if d == 1 {
        '1'
    } else if d == 2 {
        '2'
    } else if d == 3 {
        '3'
    } else if d == 4 {
        '4'
    } else if d == 5 {
        '5'
    } else if d == 6 {
        '6'
    } else if d == 7 {
        '7'
    } else if d == 8 {
        '8'
    } else {
        '9'
    }
}

/// The decimal text of a number, as `Display` writes it.
pub open spec fn decimal(n: nat) -> Seq<char>
    decreases n,
{
    if n < 10 {
        seq![digit_char(n)]
    } else {
        decimal(n / 10).push(digit_char(n % 10))
    }
}

fn digit_of(d: u64) -> (c: char)
    requires
        d < 10,
    ensures
        c == digit_char(d as nat),
{
    if d == 0 {
        '0'
    } else if d == 1 {
        '1'
    } else if d == 2 {
        '2'
    } else if d == 3 {
        '3'
    } else if d == 4 {
        '4'
    } else if d == 5 {
        '5'
    } else if d == 6 {
        '6'
    } else if d == 7 {
        '7'
    } else if d == 8 {
        '8'
    } else {
        '9'
    }
}

/// The decimal digits of `n`.
pub fn decimal_chars(n: u64) -> (r: Vec<char>)
    ensures
        r@ == decimal(n as nat),
    decreases n,
{
    if n < 10 {
        let mut v: Vec<char> = Vec::new();
        v.push(digit_of(n));
        assert(v@ =~= seq![digit_char(n as nat)]);
        v
    } else {
        let mut v = decimal_chars(n / 10);
        v.push(digit_of(n % 10));
        v
    }
}

} // verus!
