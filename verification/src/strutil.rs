//! Verified string helpers.
//!
//! The pipeline works on paths and command lines as plain strings, so the
//! modules above it need a small set of fully specified string operations:
//! equality, prefix and suffix tests, substring search, placeholder
//! replacement, joining, and path-component extraction.

use vstd::prelude::*;

verus! {

/// `p` is a prefix of `s`.
pub open spec fn spec_starts_with(s: Seq<char>, p: Seq<char>) -> bool {
    p.len() <= s.len() && s.subrange(0, p.len() as int) == p
}

/// `p` is a suffix of `s`.
pub open spec fn spec_ends_with(s: Seq<char>, p: Seq<char>) -> bool {
    p.len() <= s.len() && s.subrange(s.len() - p.len(), s.len() as int) == p
}

/// `p` occurs in `s` at position `i`.
pub open spec fn spec_match_at(s: Seq<char>, p: Seq<char>, i: int) -> bool {
    0 <= i && i + p.len() <= s.len() && s.subrange(i, i + p.len()) == p
}

/// Compares two string slices by contents.
pub fn str_eq(a: &str, b: &str) -> (r: bool)
    ensures
        r == (a@ == b@),
{
    let x = a.to_owned();
    let y = b.to_owned();
    x == y
}

/// Whether `p` occurs in `s` at position `i`.
pub fn match_at(s: &str, p: &str, i: usize, s_len: usize, p_len: usize) -> (r: bool)
    requires
        s_len == s@.len(),
        p_len == p@.len(),
        i + p_len <= s_len,
    ensures
        r == spec_match_at(s@, p@, i as int),
{
    let mut j: usize = 0;
    while j < p_len
        invariant
            j <= p_len,
            s_len == s@.len(),
            p_len == p@.len(),
            i + p_len <= s_len,
            forall|k: int| 0 <= k < j ==> s@[i + k] == p@[k],
        decreases p_len - j,
    {
        if s.get_char(i + j) != p.get_char(j) {
            proof {
                assert(s@.subrange(i as int, i + p@.len())[j as int] == s@[i + j]);
                assert(s@.subrange(i as int, i + p@.len()) != p@);
            }
            return false;
        }
        j += 1;
    }
    proof {
        assert(s@.subrange(i as int, i + p@.len()) =~= p@);
    }
    true
}

/// Whether `p` is a prefix of `s`.
pub fn starts_with(s: &str, p: &str) -> (r: bool)
    ensures
        r == spec_starts_with(s@, p@),
{
    let s_len = s.unicode_len();
    let p_len = p.unicode_len();
    if p_len > s_len {
        return false;
    }
    match_at(s, p, 0, s_len, p_len)
}

/// Whether `p` is a suffix of `s`.
pub fn ends_with(s: &str, p: &str) -> (r: bool)
    ensures
        r == spec_ends_with(s@, p@),
{
    let s_len = s.unicode_len();
    let p_len = p.unicode_len();
    if p_len > s_len {
        return false;
    }
    match_at(s, p, s_len - p_len, s_len, p_len)
}

/// The first position at which `p` occurs in `s`, if any.
pub fn index_of(s: &str, p: &str) -> (r: Option<usize>)
    requires
        p@.len() > 0,
    ensures
        match r {
            Some(i) => spec_match_at(s@, p@, i as int) && forall|k: int|
                0 <= k < i ==> !spec_match_at(s@, p@, k),
            None => forall|k: int| !spec_match_at(s@, p@, k),
        },
{
    let s_len = s.unicode_len();
    let p_len = p.unicode_len();
    if p_len > s_len {
        return None;
    }
    let mut i: usize = 0;
    while i <= s_len - p_len
        invariant
            s_len == s@.len(),
            p_len == p@.len(),
            0 < p_len <= s_len,
            i <= s_len - p_len + 1,
            forall|k: int| 0 <= k < i ==> !spec_match_at(s@, p@, k),
        decreases s_len - i,
    {
        if match_at(s, p, i, s_len, p_len) {
            return Some(i);
        }
        i += 1;
    }
    None
}

/// What replacing every occurrence of `p` in `s` with `t` yields, scanning
/// left to right without overlap.
pub open spec fn spec_replace(s: Seq<char>, p: Seq<char>, t: Seq<char>) -> Seq<char>
    decreases s.len(),
{
    if p.len() == 0 || s.len() < p.len() {
        s
    } else if s.subrange(0, p.len() as int) == p {
        t + spec_replace(s.skip(p.len() as int), p, t)
    } else {
        seq![s[0]] + spec_replace(s.skip(1), p, t)
    }
}

/// Replaces every occurrence of `p` in `s` with `t`, scanning left to right.
pub fn replace_all(s: &str, p: &str, t: &str) -> (r: String)
    requires
        p@.len() > 0,
    ensures
        r@ == spec_replace(s@, p@, t@),
{
    let s_len = s.unicode_len();
    let p_len = p.unicode_len();
    let mut res = String::new();
    let mut i: usize = 0;
    proof {
        assert(s@.skip(0) =~= s@);
        assert(Seq::<char>::empty() + spec_replace(s@, p@, t@) =~= spec_replace(s@, p@, t@));
    }
    while i < s_len
        invariant
            s_len == s@.len(),
            p_len == p@.len(),
            p_len > 0,
            i <= s_len,
            spec_replace(s@, p@, t@) == res@ + spec_replace(s@.skip(i as int), p@, t@),
        decreases s_len - i,
    {
        let ghost prev = res@;
        let ghost rest = s@.skip(i as int);
        if p_len <= s_len - i && match_at(s, p, i, s_len, p_len) {
            res.append(t);
            proof {
                assert(rest.subrange(0, p@.len() as int) =~= s@.subrange(
                    i as int,
                    i + p@.len(),
                ));
                assert(rest.skip(p@.len() as int) =~= s@.skip(i + p@.len()));
                assert(spec_replace(rest, p@, t@) == t@ + spec_replace(
                    s@.skip(i + p@.len()),
                    p@,
                    t@,
                ));
            }
            i += p_len;
        } else {
            res.append(s.substring_char(i, i + 1));
            proof {
                assert(rest.len() > 0);
                assert(rest[0] == s@[i as int]);
                assert(s@.subrange(i as int, i + 1) =~= seq![s@[i as int]]);
                if rest.len() >= p@.len() {
                    assert(rest.subrange(0, p@.len() as int) =~= s@.subrange(
                        i as int,
                        i + p@.len(),
                    ));
                    assert(rest.subrange(0, p@.len() as int) != p@);
                }
                assert(rest.skip(1) =~= s@.skip(i + 1));
                assert(spec_replace(rest, p@, t@) == seq![s@[i as int]] + spec_replace(
                    s@.skip(i + 1),
                    p@,
                    t@,
                ));
            }
            i += 1;
        }
    }
    proof {
        assert(s@.skip(s@.len() as int) =~= Seq::<char>::empty());
        assert(spec_replace(s@.skip(i as int), p@, t@) =~= Seq::<char>::empty());
        assert(res@ =~= res@ + Seq::<char>::empty());
    }
    res
}

/// The position of the last occurrence of `c` in `s`, if any.
pub fn last_index_of_char(s: &str, c: char) -> (r: Option<usize>)
    ensures
        match r {
            Some(i) => i < s@.len() && s@[i as int] == c && forall|k: int|
                i < k < s@.len() ==> s@[k] != c,
            None => forall|k: int| 0 <= k < s@.len() ==> s@[k] != c,
        },
{
    let s_len = s.unicode_len();
    let mut i: usize = s_len;
    while i > 0
        invariant
            s_len == s@.len(),
            i <= s_len,
            forall|k: int| i <= k < s@.len() ==> s@[k] != c,
        decreases i,
    {
        i -= 1;
        if s.get_char(i) == c {
            return Some(i);
        }
    }
    None
}

/// Concatenates two strings.
pub fn concat2(a: &str, b: &str) -> (r: String)
    ensures
        r@ == a@ + b@,
{
    let mut res = a.to_owned();
    res.append(b);
    res
}

/// Concatenates three strings.
pub fn concat3(a: &str, b: &str, c: &str) -> (r: String)
    ensures
        r@ == a@ + b@ + c@,
{
    let mut res = a.to_owned();
    res.append(b);
    res.append(c);
    res
}

/// Copies a vector of strings, keeping the contents.
pub fn clone_strings(v: &Vec<String>) -> (r: Vec<String>)
    ensures
        r.deep_view() == v.deep_view(),
{
    let mut res: Vec<String> = Vec::new();
    let mut i: usize = 0;
    while i < v.len()
        invariant
            i <= v.len(),
            res.deep_view() =~= v.deep_view().subrange(0, i as int),
        decreases v.len() - i,
    {
        let cloned_s = v[i].clone();
        let ghost cv = cloned_s@;
        let ghost prev = res.deep_view();
        res.push(cloned_s);
        proof {
            assert(cv == v@[i as int]@);
            assert(res.deep_view() =~~= prev.push(cv));
            assert(prev.push(cv) =~~= v.deep_view().subrange(0, i + 1));
        }
        i += 1;
    }
    proof {
        assert(v.deep_view().subrange(0, v.len() as int) =~= v.deep_view());
    }
    res
}

/// `s` with every leading repetition of `p` removed.
pub open spec fn spec_trim_prefix(s: Seq<char>, p: Seq<char>) -> Seq<char>
    decreases s.len(),
{
    if p.len() == 0 || !spec_starts_with(s, p) {
        s
    } else {
        spec_trim_prefix(s.skip(p.len() as int), p)
    }
}

/// Removes every leading repetition of `p` from `s`.
pub fn trim_prefix_repeated(s: &str, p: &str) -> (r: String)
    requires
        p@.len() > 0,
    ensures
        r@ == spec_trim_prefix(s@, p@),
{
    let s_len = s.unicode_len();
    let p_len = p.unicode_len();
    let mut start: usize = 0;
    proof {
        assert(s@.skip(0) =~= s@);
    }
    while p_len <= s_len - start && start < s_len && match_at(s, p, start, s_len, p_len)
        invariant
            s_len == s@.len(),
            p_len == p@.len(),
            p_len > 0,
            start <= s_len,
            spec_trim_prefix(s@, p@) == spec_trim_prefix(s@.skip(start as int), p@),
        decreases s_len - start,
    {
        let ghost rest = s@.skip(start as int);
        proof {
            assert(rest.subrange(0, p@.len() as int) =~= s@.subrange(
                start as int,
                start + p@.len(),
            ));
            assert(spec_starts_with(rest, p@));
            assert(rest.skip(p@.len() as int) =~= s@.skip(start + p@.len()));
        }
        start += p_len;
    }
    let r = s.substring_char(start, s_len).to_owned();
    proof {
        let rest = s@.skip(start as int);
        if rest.len() >= p@.len() {
            assert(rest.subrange(0, p@.len() as int) =~= s@.subrange(
                start as int,
                start + p@.len(),
            ));
        }
        assert(!spec_starts_with(rest, p@));
        assert(r@ =~= rest);
    }
    r
}

/// The elements of `v` from position `start` on, as a new vector.
pub fn suffix_from(v: &Vec<String>, start: usize) -> (r: Vec<String>)
    requires
        start <= v.len(),
    ensures
        r.deep_view() == v.deep_view().skip(start as int),
{
    let mut res: Vec<String> = Vec::new();
    let mut i: usize = start;
    while i < v.len()
        invariant
            start <= i <= v.len(),
            res.deep_view() =~= v.deep_view().subrange(start as int, i as int),
        decreases v.len() - i,
    {
        let ghost prev = res.deep_view();
        res.push(v[i].clone());
        proof {
            assert(res.deep_view() =~~= prev.push(v.deep_view()[i as int]));
            assert(prev.push(v.deep_view()[i as int]) =~~= v.deep_view().subrange(
                start as int,
                i + 1,
            ));
        }
        i += 1;
    }
    proof {
        assert(v.deep_view().subrange(start as int, v.len() as int) =~= v.deep_view().skip(
            start as int,
        ));
    }
    res
}

/// Appends copies of the strings of `src` to `dst`.
pub fn append_strings(dst: &mut Vec<String>, src: &Vec<String>)
    ensures
        final(dst).deep_view() == old(dst).deep_view() + src.deep_view(),
{
    let mut i: usize = 0;
    while i < src.len()
        invariant
            i <= src.len(),
            dst.deep_view() =~= old(dst).deep_view() + src.deep_view().subrange(0, i as int),
        decreases src.len() - i,
    {
        let cloned_s = src[i].clone();
        let ghost cv = cloned_s@;
        let ghost prev = dst.deep_view();
        dst.push(cloned_s);
        proof {
            assert(cv == src@[i as int]@);
            assert(dst.deep_view() =~~= prev.push(cv));
            assert(prev.push(cv) =~~= old(dst).deep_view() + src.deep_view().subrange(0, i + 1));
        }
        i += 1;
    }
    proof {
        assert(src.deep_view().subrange(0, src.len() as int) =~= src.deep_view());
        assert(dst.deep_view() =~~= old(dst).deep_view() + src.deep_view());
    }
}

/// The elements of `v`, interleaved with `sep`.
pub open spec fn spec_join(v: Seq<Seq<char>>, sep: Seq<char>) -> Seq<char>
    decreases v.len(),
{
    if v.len() == 0 {
        Seq::empty()
    } else if v.len() == 1 {
        v[0]
    } else {
        v[0] + sep + spec_join(v.skip(1), sep)
    }
}

/// Joins the strings of `v`, separated by `sep`.
pub fn join(v: &Vec<String>, sep: &str) -> (r: String)
    ensures
        r@ == spec_join(v.deep_view(), sep@),
{
    let mut res = String::new();
    let mut i: usize = 0;
    proof {
        assert(v.deep_view().skip(0) =~= v.deep_view());
        assert(Seq::<char>::empty() + spec_join(v.deep_view(), sep@) =~= spec_join(
            v.deep_view(),
            sep@,
        ));
    }
    while i < v.len()
        invariant
            i <= v.len(),
            spec_join(v.deep_view(), sep@) == res@ + spec_join(
                v.deep_view().skip(i as int),
                sep@,
            ),
        decreases v.len() - i,
    {
        let ghost rest = v.deep_view().skip(i as int);
        res.append(v[i].as_str());
        if i + 1 < v.len() {
            res.append(sep);
        }
        proof {
            assert(rest[0] == v.deep_view()[i as int]);
            assert(rest.skip(1) =~= v.deep_view().skip(i + 1));
            if i + 1 < v.len() {
                assert(spec_join(rest, sep@) == rest[0] + sep@ + spec_join(
                    v.deep_view().skip(i + 1),
                    sep@,
                ));
            } else {
                assert(rest.len() == 1);
                assert(spec_join(rest, sep@) == rest[0]);
                assert(v.deep_view().skip(i + 1) =~= Seq::<Seq<char>>::empty());
            }
        }
        i += 1;
    }
    proof {
        if v.len() == 0 {
        } else {
            assert(v.deep_view().skip(v.len() as int) =~= Seq::<Seq<char>>::empty());
        }
        assert(res@ =~= res@ + Seq::<char>::empty());
    }
    res
}

} // verus!
