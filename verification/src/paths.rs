//! A model of Unix paths held as strings: components, file name, stem,
//! extension, joining and prefix tests, as `std::path::Path` computes them.

use crate::text::{vviews, lemma_vviews_push, find, has_sub, lemma_find_some_iff_sub,
    lemma_split_nonempty, matches_at,
    has_prefix, lemma_first_match_props, split, split_seq, string_from, chars_of,
    sub_vec, seq_eq, starts_with_seq, views,
};
use vstd::prelude::*;

verus! {

/// A segment that names something (a `Normal` or `ParentDir` component).
pub open spec fn is_named(seg: Seq<char>) -> bool {
    seg.len() > 0 && seg != "."@
}

/// The named segments of a list, in order.
pub open spec fn named_parts(s: Seq<Seq<char>>) -> Seq<Seq<char>>
    decreases s.len(),
{
    if s.len() == 0 {
        seq![]
    } else if is_named(s.last()) {
        named_parts(s.drop_last()).push(s.last())
    } else {
        named_parts(s.drop_last())
    }
}

/// The `Normal`/`ParentDir` components of a path.
pub open spec fn segments(p: Seq<char>) -> Seq<Seq<char>> {
    named_parts(split(p, "/"@))
}

pub open spec fn is_absolute(p: Seq<char>) -> bool {
    has_prefix(p, "/"@)
}

/// Whether the path begins with a `CurDir` component.
pub open spec fn leading_cur_dir(p: Seq<char>) -> bool {
    !is_absolute(p) && (p == "."@ || has_prefix(p, "./"@))
}

/// All components of a path as `Path::components` yields them.
pub open spec fn components(p: Seq<char>) -> Seq<Seq<char>> {
    (if is_absolute(p) {
        seq!["/"@]
    } else if leading_cur_dir(p) {
        seq!["."@]
    } else {
        seq![]
    }) + segments(p)
}

/// `Path::file_name`.
pub open spec fn file_name(p: Seq<char>) -> Option<Seq<char>> {
    let segs = segments(p);
    if segs.len() == 0 || segs.last() == ".."@ {
        None
    } else {
        Some(segs.last())
    }
}

/// The last index of `c` in `s`.
pub open spec fn last_index_of(s: Seq<char>, c: char) -> Option<int>
    decreases s.len(),
{
    if s.len() == 0 {
        None
    } else if s.last() == c {
        Some(s.len() - 1)
    } else {
        last_index_of(s.drop_last(), c)
    }
}

pub proof fn lemma_last_index_props(s: Seq<char>, c: char)
    ensures
        last_index_of(s, c) matches Some(k) ==> 0 <= k < s.len() && s[k] == c,
    decreases s.len(),
{
    if s.len() > 0 && s.last() != c {
        lemma_last_index_props(s.drop_last(), c);
    }
}

/// The extension of a file name.
pub open spec fn name_extension(f: Seq<char>) -> Option<Seq<char>> {
    match last_index_of(f, '.') {
        Some(k) => if k > 0 {
            Some(f.subrange(k + 1, f.len() as int))
        } else {
            None
        },
        None => None,
    }
}

/// The stem of a file name.
pub open spec fn name_stem(f: Seq<char>) -> Seq<char> {
    match last_index_of(f, '.') {
        Some(k) => if k > 0 {
            f.subrange(0, k)
        } else {
            f
        },
        None => f,
    }
}

/// `Path::extension`.
pub open spec fn extension(p: Seq<char>) -> Option<Seq<char>> {
    match file_name(p) {
        Some(f) => name_extension(f),
        None => None,
    }
}

/// `Path::file_stem`.
pub open spec fn file_stem(p: Seq<char>) -> Option<Seq<char>> {
    match file_name(p) {
        Some(f) => Some(name_stem(f)),
        None => None,
    }
}

/// `Path::join`.
pub open spec fn join_path(base: Seq<char>, rel: Seq<char>) -> Seq<char> {
    if is_absolute(rel) {
        rel
    } else if base.len() == 0 || base.last() == '/' {
        base + rel
    } else {
        base + "/"@ + rel
    }
}

/// `Path::starts_with`: component-wise prefix.
pub open spec fn path_has_prefix(p: Seq<char>, base: Seq<char>) -> bool {
    components(base).is_prefix_of(components(p))
}

fn named_segments(p: &[char]) -> (r: Vec<Vec<char>>)
    ensures
        vviews(r@) == segments(p@),
{
    let slash = ['/'];
    let parts = split_seq(p, &slash);
    let ghost pv = vviews(parts@);
    assert(slash@ =~= "/"@) by {
        reveal_strlit("/");
    }
    let mut r: Vec<Vec<char>> = Vec::new();
    let mut i: usize = 0;
    let dot = ['.'];
    while i < parts.len()
        invariant
            i <= parts@.len(),
            pv == vviews(parts@),
            pv == split(p@, "/"@),
            dot@ == seq!['.'],
            vviews(r@) == named_parts(pv.take(i as int)),
        decreases parts.len() - i,
    {
        let seg = &parts[i];
        let named = seg.len() > 0 && !seq_eq(seg.as_slice(), &dot);
        proof {
            reveal_strlit(".");
            assert("."@ =~= dot@);
            assert(pv.take(i + 1).drop_last() =~= pv.take(i as int));
            assert(pv.take(i + 1).last() == seg@);
        }
        if named {
            let ghost before = r@;
            r.push(sub_vec(seg.as_slice(), 0, seg.len()));
            proof {
                assert(seg@.subrange(0, seg@.len() as int) =~= seg@);
                assert(vviews(r@) =~= vviews(before).push(
                    seg@,
                ));
            }
        }
        i += 1;
    }
    assert(pv.take(parts@.len() as int) =~= pv);
    r
}

/// The last index of `c` in `s`.
pub fn last_index_exec(s: &[char], c: char) -> (r: Option<usize>)
    ensures
        match r {
            Some(k) => last_index_of(s@, c) == Some(k as int),
            None => last_index_of(s@, c) is None,
        },
{
    let mut i = s.len();
    assert(s@.subrange(0, s@.len() as int) =~= s@);
    while i > 0
        invariant
            i <= s@.len(),
            last_index_of(s@, c) == last_index_of(s@.subrange(0, i as int), c),
        decreases i,
    {
        if s[i - 1] == c {
            return Some(i - 1);
        }
        assert(s@.subrange(0, i as int).drop_last() =~= s@.subrange(0, i - 1));
        i -= 1;
    }
    None
}

/// `Path::file_name` of a path held as characters.
pub fn file_name_chars(p: &[char]) -> (r: Option<Vec<char>>)
    ensures
        match r {
            Some(v) => file_name(p@) == Some(v@),
            None => file_name(p@) is None,
        },
{
    let segs = named_segments(p);
    if segs.len() == 0 {
        return None;
    }
    let last = &segs[segs.len() - 1];
    let dd = ['.', '.'];
    proof {
        reveal_strlit("..");
        assert(".."@ =~= dd@);
    }
    if seq_eq(last.as_slice(), &dd) {
        None
    } else {
        Some(sub_vec(last.as_slice(), 0, last.len()))
    }
}

fn dot_index(f: &Vec<char>) -> (r: Option<usize>)
    ensures
        match r {
            Some(k) => last_index_of(f@, '.') == Some(k as int) && k < f@.len(),
            None => last_index_of(f@, '.') is None,
        },
{
    proof {
        lemma_last_index_props(f@, '.');
    }
    last_index_exec(f.as_slice(), '.')
}

/// `Path::file_name`.
pub fn path_file_name(p: &str) -> (r: Option<String>)
    ensures
        match r {
            Some(v) => file_name(p@) == Some(v@),
            None => file_name(p@) is None,
        },
{
    let pv = chars_of(p);
    match file_name_chars(pv.as_slice()) {
        Some(v) => Some(string_from(v.as_slice())),
        None => None,
    }
}

/// `Path::extension`.
pub fn path_extension(p: &str) -> (r: Option<String>)
    ensures
        match r {
            Some(v) => extension(p@) == Some(v@),
            None => extension(p@) is None,
        },
{
    let pv = chars_of(p);
    match file_name_chars(pv.as_slice()) {
        Some(f) => match dot_index(&f) {
            Some(k) => if k > 0 {
                let n = f.len();
                let e = sub_vec(f.as_slice(), k + 1, n);
                Some(string_from(e.as_slice()))
            } else {
                None
            },
            None => None,
        },
        None => None,
    }
}

/// `Path::file_stem`.
pub fn path_file_stem(p: &str) -> (r: Option<String>)
    ensures
        match r {
            Some(v) => file_stem(p@) == Some(v@),
            None => file_stem(p@) is None,
        },
{
    let pv = chars_of(p);
    match file_name_chars(pv.as_slice()) {
        Some(f) => match dot_index(&f) {
            Some(k) => if k > 0 {
                let e = sub_vec(f.as_slice(), 0, k);
                Some(string_from(e.as_slice()))
            } else {
                Some(string_from(f.as_slice()))
            },
            None => Some(string_from(f.as_slice())),
        },
        None => None,
    }
}

/// `Path::join`.
pub fn path_join(base: &str, rel: &str) -> (r: String)
    ensures
        r@ == join_path(base@, rel@),
{
    let rv = chars_of(rel);
    let bv = chars_of(base);
    let slash = ['/'];
    proof {
        reveal_strlit("/");
        assert(slash@ =~= "/"@);
    }
    if starts_with_seq(rv.as_slice(), &slash) {
        return string_from(rv.as_slice());
    }
    let mut r = string_from(bv.as_slice());
    if !(bv.len() == 0 || bv[bv.len() - 1] == '/') {
        r.append("/");
    }
    r.append(rel);
    r
}

pub fn components_exec(p: &[char]) -> (r: Vec<Vec<char>>)
    ensures
        vviews(r@) == components(p@),
{
    let segs = named_segments(p);
    let slash = ['/'];
    let dot = ['.'];
    let dotslash = ['.', '/'];
    proof {
        reveal_strlit("/");
        reveal_strlit(".");
        reveal_strlit("./");
        assert(slash@ =~= "/"@);
        assert(dot@ =~= "."@);
        assert(dotslash@ =~= "./"@);
    }
    let mut r: Vec<Vec<char>> = Vec::new();
    if starts_with_seq(p, &slash) {
        r.push(vec!['/']);
    } else if seq_eq(p, &dot) || starts_with_seq(p, &dotslash) {
        r.push(vec!['.']);
    }
    let ghost head = vviews(r@);
    assert(head =~= components(p@).subrange(0, head.len() as int));
    let ghost sv = vviews(segs@);
    let mut i: usize = 0;
    while i < segs.len()
        invariant
            i <= segs@.len(),
            sv == vviews(segs@),
            sv == segments(p@),
            vviews(r@) == head + sv.take(i as int),
            r@.len() == head.len() + i,
            components(p@) == head + sv,
        decreases segs.len() - i,
    {
        let ghost before = r@;
        let item = sub_vec(segs[i].as_slice(), 0, segs[i].len());
        proof {
            lemma_vviews_push(r@, item);
        }
        r.push(item);
        proof {
            assert(segs@[i as int]@.subrange(0, segs@[i as int]@.len() as int) =~= segs@[i as int]@);
            assert(sv[i as int] == segs@[i as int]@);
            assert(sv.take(i + 1) =~= sv.take(i as int).push(sv[i as int]));
            assert(vviews(r@) =~= head + sv.take(i + 1));
        }
        i += 1;
    }
    assert(sv.take(segs@.len() as int) =~= sv);
    r
}

/// `Path::starts_with`.
pub fn path_starts_with(p: &str, base: &str) -> (r: bool)
    ensures
        r == path_has_prefix(p@, base@),
{
    let pv = chars_of(p);
    let bv = chars_of(base);
    let pc = components_exec(pv.as_slice());
    let bc = components_exec(bv.as_slice());
    let ghost pcv = vviews(pc@);
    let ghost bcv = vviews(bc@);
    assert(components(base@) == bcv);
    assert(components(p@) == pcv);
    if bc.len() > pc.len() {
        return false;
    }
    let mut i: usize = 0;
    while i < bc.len()
        invariant
            i <= bc@.len() <= pc@.len(),
            pcv == vviews(pc@),
            bcv == vviews(bc@),
            pcv.len() == pc@.len(),
            bcv.len() == bc@.len(),
            components(base@) == bcv,
            components(p@) == pcv,
            forall|j: int| 0 <= j < i ==> bcv[j] == pcv[j],
        decreases bc.len() - i,
    {
        if !seq_eq(bc[i].as_slice(), pc[i].as_slice()) {
            assert(bcv[i as int] != pcv[i as int]);
            assert(!bcv.is_prefix_of(pcv)) by {
                if bcv.is_prefix_of(pcv) {
                    assert(bcv[i as int] == pcv.subrange(0, bcv.len() as int)[i as int]);
                }
            }
            return false;
        }
        i += 1;
    }
    assert(bcv =~= pcv.subrange(0, bcv.len() as int));
    true
}

/// Splitting at `/` ends with the text after the last `/`.
proof fn lemma_split_last_segment(s: Seq<char>, f: Seq<char>)
    requires
        !f.contains('/'),
        s.len() > f.len(),
        s[s.len() - f.len() - 1] == '/',
        s.subrange(s.len() - f.len(), s.len() as int) == f,
    ensures
        split(s, "/"@).last() == f,
    decreases s.len(),
{
    reveal_strlit("/");
    let l = s.len() - f.len() - 1;
    assert(matches_at(s, "/"@, l)) by {
        assert(s.subrange(l, l + 1) =~= "/"@);
    }
    lemma_find_some_iff_sub(s, "/"@);
    lemma_first_match_props(s, "/"@, 0);
    let i = find(s, "/"@)->0;
    assert(i <= l);
    let t = s.subrange(i + 1, s.len() as int);
    lemma_split_nonempty(t, "/"@);
    if i == l {
        assert(t =~= f);
        lemma_find_some_iff_sub(f, "/"@);
        if has_sub(f, "/"@) {
            let j = choose|j: int| matches_at(f, "/"@, j);
            assert(f.subrange(j, j + 1)[0] == '/');
            assert(f[j] == '/');
        }
    } else {
        assert(t[t.len() - f.len() - 1] == s[s.len() - f.len() - 1]);
        assert(t.subrange(t.len() - f.len(), t.len() as int) =~= f);
        lemma_split_last_segment(t, f);
    }
}

/// The stem of a Rust source file is its name without `.rs`: for a path
/// that ends in `/` and then `n.rs`, where `n` is a non-empty name without
/// `/`, the file stem is `n`.
pub proof fn lemma_rs_file_stem(d: Seq<char>, n: Seq<char>)
    requires
        n.len() > 0,
        !n.contains('/'),
    ensures
        file_stem(d + "/"@ + n + ".rs"@) == Some(n),
{
    reveal_strlit("/");
    reveal_strlit(".rs");
    reveal_strlit(".");
    reveal_strlit("..");
    let f = n + ".rs"@;
    let p = d + "/"@ + f;
    assert(!f.contains('/')) by {
        if f.contains('/') {
            let k = choose|k: int| 0 <= k < f.len() && f[k] == '/';
            if k < n.len() {
                assert(n[k] == '/');
            }
        }
    }
    assert(p[p.len() - f.len() - 1] == '/');
    assert(p.subrange(p.len() - f.len(), p.len() as int) =~= f);
    lemma_split_last_segment(p, f);
    lemma_split_nonempty(p, "/"@);
    let parts = split(p, "/"@);
    assert(is_named(f));
    assert(named_parts(parts) == named_parts(parts.drop_last()).push(f));
    assert(segments(p).last() == f);
    assert(f != ".."@);
    assert(f.drop_last().drop_last() =~= n + "."@);
    let g = n + "."@;
    assert(g.last() == '.');
    assert(last_index_of(g, '.') == Some(n.len() as int));
    assert(f.drop_last().last() == 'r');
    assert(last_index_of(f.drop_last(), '.') == last_index_of(g, '.'));
    assert(f.last() == 's');
    assert(last_index_of(f, '.') == last_index_of(f.drop_last(), '.'));
    assert(f.subrange(0, n.len() as int) =~= n);
    assert(p =~= d + "/"@ + n + ".rs"@);
}

} // verus!
