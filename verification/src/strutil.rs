//! Verified building blocks for the string manipulation the resolver needs:
//! equality, prefix/suffix tests, concatenation, substring search,
//! character replacement, and splitting a path into directory and
//! filename parts.

use vstd::prelude::*;

verus! {

/// `p` is an initial segment of `s`.
pub open spec fn spec_starts_with(s: Seq<char>, p: Seq<char>) -> bool {
    p.len() <= s.len() && s.subrange(0, p.len() as int) == p
}

/// `p` is a final segment of `s`.
pub open spec fn spec_ends_with(s: Seq<char>, p: Seq<char>) -> bool {
    p.len() <= s.len() && s.subrange(s.len() - p.len(), s.len() as int) == p
}

/// String slice equality, decided character by character.
pub fn str_eq(a: &str, b: &str) -> (r: bool)
    ensures
        r == (a@ == b@),
{
    let a_len = a.unicode_len();
    let b_len = b.unicode_len();
    if a_len != b_len {
        return false;
    }
    let mut i: usize = 0;
    while i < a_len
        invariant
            i <= a_len,
            a_len == a@.len(),
            a_len == b@.len(),
            forall|j: int| 0 <= j < i ==> a@[j] == b@[j],
        decreases a_len - i,
    {
        if a.get_char(i) != b.get_char(i) {
            return false;
        }
        i = i + 1;
    }
    proof {
        assert(a@ =~= b@);
    }
    true
}

/// Does `s` begin with `p`?
pub fn starts_with(s: &str, p: &str) -> (r: bool)
    ensures
        r == spec_starts_with(s@, p@),
{
    let s_len = s.unicode_len();
    let p_len = p.unicode_len();
    if p_len > s_len {
        return false;
    }
    let head = s.substring_char(0, p_len);
    str_eq(head, p)
}

/// Does `s` end with `p`?
pub fn ends_with(s: &str, p: &str) -> (r: bool)
    ensures
        r == spec_ends_with(s@, p@),
{
    let s_len = s.unicode_len();
    let p_len = p.unicode_len();
    if p_len > s_len {
        return false;
    }
    let tail = s.substring_char(s_len - p_len, s_len);
    str_eq(tail, p)
}

/// The characters of `s` after a leading `p`, when `p` is indeed a prefix.
pub fn strip_prefix(s: &str, p: &str) -> (r: Option<String>)
    ensures
        r is Some <==> spec_starts_with(s@, p@),
        r matches Some(rest) ==> rest@ == s@.skip(p@.len() as int),
{
    let s_len = s.unicode_len();
    let p_len = p.unicode_len();
    if p_len > s_len {
        return None;
    }
    let head = s.substring_char(0, p_len);
    if str_eq(head, p) {
        let rest = s.substring_char(p_len, s_len);
        proof {
            assert(rest@ =~= s@.skip(p@.len() as int));
        }
        Some(rest.to_owned())
    } else {
        None
    }
}

/// The characters of `s` before a trailing `p`, when `p` is indeed a suffix.
pub fn strip_suffix(s: &str, p: &str) -> (r: Option<String>)
    ensures
        r is Some <==> spec_ends_with(s@, p@),
        r matches Some(rest) ==> rest@ == s@.take(s@.len() - p@.len()),
{
    let s_len = s.unicode_len();
    let p_len = p.unicode_len();
    if p_len > s_len {
        return None;
    }
    let tail = s.substring_char(s_len - p_len, s_len);
    if str_eq(tail, p) {
        let rest = s.substring_char(0, s_len - p_len);
        proof {
            assert(rest@ =~= s@.take(s@.len() - p@.len()));
        }
        Some(rest.to_owned())
    } else {
        None
    }
}

/// Concatenation of two string slices into an owned string.
pub fn concat2(a: &str, b: &str) -> (r: String)
    ensures
        r@ == a@ + b@,
{
    let mut r = a.to_owned();
    r.append(b);
    r
}

/// Concatenation of three string slices into an owned string.
pub fn concat3(a: &str, b: &str, c: &str) -> (r: String)
    ensures
        r@ == a@ + b@ + c@,
{
    let mut r = a.to_owned();
    r.append(b);
    r.append(c);
    r
}

/// Relies on `String::push`: appends the given character to the end of the
/// string.
#[verifier::external_body]
fn push_char(s: &mut String, c: char)
    ensures
        final(s)@ == old(s)@.push(c),
{
    s.push(c)
}

/// `s` with every occurrence of `from` replaced by `to`.
pub open spec fn spec_replace_char(s: Seq<char>, from: char, to: char) -> Seq<char> {
    s.map_values(|c: char| if c == from { to } else { c })
}

/// Replace every occurrence of one character by another.
pub fn replace_char(s: &str, from: char, to: char) -> (r: String)
    ensures
        r@ == spec_replace_char(s@, from, to),
{
    let len = s.unicode_len();
    let mut r = String::new();
    let mut i: usize = 0;
    while i < len
        invariant
            i <= len,
            len == s@.len(),
            r@.len() == i,
            forall|j: int| 0 <= j < i ==> r@[j] == (if s@[j] == from { to } else { s@[j] }),
        decreases len - i,
    {
        let c = s.get_char(i);
        if c == from {
            push_char(&mut r, to);
        } else {
            push_char(&mut r, c);
        }
        i = i + 1;
    }
    proof {
        assert(r@ =~= spec_replace_char(s@, from, to));
    }
    r
}

/// `n` occurs in `s` at offset `i`.
pub open spec fn spec_occurs_at(s: Seq<char>, n: Seq<char>, i: int) -> bool {
    0 <= i && i + n.len() <= s.len() && s.subrange(i, i + n.len()) == n
}

/// `n` occurs somewhere in `s`.
pub open spec fn spec_contains(s: Seq<char>, n: Seq<char>) -> bool {
    exists|i: int| spec_occurs_at(s, n, i)
}

/// Substring search: does `n` occur anywhere in `s`?
pub fn contains_str(s: &str, n: &str) -> (r: bool)
    ensures
        r == spec_contains(s@, n@),
{
    let s_len = s.unicode_len();
    let n_len = n.unicode_len();
    if n_len > s_len {
        proof {
            assert(forall|i: int| !spec_occurs_at(s@, n@, i));
        }
        return false;
    }
    if n_len == 0 {
        proof {
            assert(s@.subrange(0, 0) =~= n@);
            assert(spec_occurs_at(s@, n@, 0));
        }
        return true;
    }
    let mut i: usize = 0;
    while i <= s_len - n_len
        invariant
            0 < n_len <= s_len,
            i <= s_len - n_len + 1,
            s_len == s@.len(),
            n_len == n@.len(),
            forall|j: int| 0 <= j < i ==> !spec_occurs_at(s@, n@, j),
        decreases s_len - i,
    {
        let seg = s.substring_char(i, i + n_len);
        if str_eq(seg, n) {
            proof {
                assert(spec_occurs_at(s@, n@, i as int));
            }
            return true;
        }
        i = i + 1;
    }
    proof {
        assert(forall|j: int| i <= j ==> !spec_occurs_at(s@, n@, j));
    }
    false
}

/// Index of the last occurrence of `c` in `s`, or `-1` when there is none.
pub open spec fn spec_last_index_of(s: Seq<char>, c: char) -> int
    decreases s.len(),
{
    if s.len() == 0 {
        -1
    } else if s.last() == c {
        s.len() - 1
    } else {
        spec_last_index_of(s.drop_last(), c)
    }
}

proof fn lemma_last_index_of_bounds(s: Seq<char>, c: char)
    ensures
        -1 <= spec_last_index_of(s, c) < s.len(),
        spec_last_index_of(s, c) >= 0 ==> s[spec_last_index_of(s, c)] == c,
        forall|j: int| spec_last_index_of(s, c) < j < s.len() ==> s[j] != c,
    decreases s.len(),
{
    if s.len() > 0 && s.last() != c {
        lemma_last_index_of_bounds(s.drop_last(), c);
        assert forall|j: int| spec_last_index_of(s, c) < j < s.len() implies s[j] != c by {
            if j < s.len() - 1 {
                assert(s.drop_last()[j] == s[j]);
            }
        }
    }
}

/// The textual parent of a path: everything before the final `/`.
///
/// A path without a separator has no directory part; a path whose only
/// separator is the leading root keeps that root as its parent.
pub open spec fn spec_dir_of(s: Seq<char>) -> Seq<char> {
    let k = spec_last_index_of(s, '/');
    if k == -1 {
        Seq::empty()
    } else if k == 0 {
        s.subrange(0, 1)
    } else {
        s.subrange(0, k)
    }
}

/// The directory portion of a path string (text before the last `/`).
pub fn dir_of(s: &str) -> (r: String)
    ensures
        r@ == spec_dir_of(s@),
{
    let len = s.unicode_len();
    proof {
        lemma_last_index_of_bounds(s@, '/');
    }
    let mut i: usize = len;
    while i > 0
        invariant
            i <= len,
            len == s@.len(),
            forall|j: int| i <= j < len ==> s@[j] != '/',
        decreases i,
    {
        if s.get_char(i - 1) == '/' {
            proof {
                lemma_last_index_found(s@, '/', i as int - 1);
            }
            if i == 1 {
                let r = s.substring_char(0, 1);
                return r.to_owned();
            } else {
                let r = s.substring_char(0, i - 1);
                return r.to_owned();
            }
        }
        i = i - 1;
    }
    proof {
        if spec_last_index_of(s@, '/') >= 0 {
            assert(s@[spec_last_index_of(s@, '/')] == '/');
        }
    }
    String::new()
}

/// The final component of a path: everything after the last `/`, the
/// whole text when there is no separator.
pub open spec fn spec_base_of(s: Seq<char>) -> Seq<char> {
    s.skip(spec_last_index_of(s, '/') + 1)
}

/// The filename portion of a path string (text after the last `/`).
pub fn base_of(s: &str) -> (r: String)
    ensures
        r@ == spec_base_of(s@),
{
    let len = s.unicode_len();
    proof {
        lemma_last_index_of_bounds(s@, '/');
    }
    let mut i: usize = len;
    while i > 0
        invariant
            i <= len,
            len == s@.len(),
            forall|j: int| i <= j < len ==> s@[j] != '/',
        decreases i,
    {
        if s.get_char(i - 1) == '/' {
            proof {
                lemma_last_index_found(s@, '/', i as int - 1);
            }
            let r = s.substring_char(i, len);
            return r.to_owned();
        }
        i = i - 1;
    }
    proof {
        if spec_last_index_of(s@, '/') >= 0 {
            assert(s@[spec_last_index_of(s@, '/')] == '/');
        }
        assert(s@.skip(0) =~= s@);
    }
    s.to_owned()
}

proof fn lemma_last_index_found(s: Seq<char>, c: char, k: int)
    requires
        0 <= k < s.len(),
        s[k] == c,
        forall|j: int| k < j < s.len() ==> s[j] != c,
    ensures
        spec_last_index_of(s, c) == k,
    decreases s.len(),
{
    if s.len() - 1 == k {
    } else {
        assert(s.last() != c);
        lemma_last_index_found(s.drop_last(), c, k);
    }
}

} // verus!
