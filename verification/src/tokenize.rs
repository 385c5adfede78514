//! Verified splitting of strings into tokens: compiler command lines split
//! on whitespace, search-path lists split on `:`.  Empty tokens (runs of
//! adjacent separators, or separators at either end) are dropped.

use vstd::prelude::*;

verus! {

/// Which separator family a split uses.
#[derive(Clone, Copy, PartialEq, Eq, Structural)]
pub enum SepMode {
    /// Split on blank characters, as a shell would split a command line.
    Whitespace,
    /// Split on `:`, the separator of search-path list variables.
    Colon,
}

/// Is `c` a separator under mode `m`?
pub open spec fn is_sep(m: SepMode, c: char) -> bool {
    match m {
        SepMode::Whitespace => c == ' ' || c == '\t' || c == '\n' || c == '\r',
        SepMode::Colon => c == ':',
    }
}

/// Executable separator test.
pub fn is_sep_char(m: SepMode, c: char) -> (r: bool)
    ensures
        r == is_sep(m, c),
{
    match m {
        SepMode::Whitespace => c == ' ' || c == '\t' || c == '\n' || c == '\r',
        SepMode::Colon => c == ':',
    }
}

/// Length of the maximal separator-free run at the front of `s`.
pub open spec fn token_len(s: Seq<char>, m: SepMode) -> nat
    decreases s.len(),
{
    if s.len() == 0 {
        0
    } else if is_sep(m, s[0]) {
        0
    } else {
        1 + token_len(s.skip(1), m)
    }
}

/// The leading token run is within bounds, separator-free, and maximal.
pub proof fn lemma_token_len_bounds(s: Seq<char>, m: SepMode)
    ensures
        token_len(s, m) <= s.len(),
        forall|j: int| 0 <= j < token_len(s, m) ==> !is_sep(m, s[j]),
        token_len(s, m) < s.len() ==> is_sep(m, s[token_len(s, m) as int]),
    decreases s.len(),
{
    if s.len() > 0 && !is_sep(m, s[0]) {
        lemma_token_len_bounds(s.skip(1), m);
        assert forall|j: int| 0 <= j < token_len(s, m) implies !is_sep(m, s[j]) by {
            if j > 0 {
                assert(s.skip(1)[j - 1] == s[j]);
            }
        }
        if token_len(s, m) < s.len() {
            assert(s.skip(1)[token_len(s, m) - 1] == s[token_len(s, m) as int]);
        }
    }
}

/// The sequence of non-empty tokens of `s` under separator mode `m`,
/// in order of appearance.
pub open spec fn spec_tokens(s: Seq<char>, m: SepMode) -> Seq<Seq<char>>
    decreases s.len(),
    via spec_tokens_decreases
{
    if s.len() == 0 {
        Seq::empty()
    } else if is_sep(m, s[0]) {
        spec_tokens(s.skip(1), m)
    } else {
        seq![s.take(token_len(s, m) as int)] + spec_tokens(s.skip(token_len(s, m) as int), m)
    }
}

#[via_fn]
proof fn spec_tokens_decreases(s: Seq<char>, m: SepMode) {
    lemma_token_len_bounds(s, m);
}

/// Index just past the separator-free run that starts at `start`.
fn token_end(s: &str, m: SepMode, start: usize) -> (e: usize)
    requires
        start <= s@.len(),
    ensures
        start <= e <= s@.len(),
        e - start == token_len(s@.skip(start as int), m),
{
    let len = s.unicode_len();
    let mut e: usize = start;
    while e < len && !is_sep_char(m, s.get_char(e))
        invariant
            start <= e <= len,
            len == s@.len(),
            token_len(s@.skip(start as int), m) == e - start + token_len(s@.skip(e as int), m),
        decreases len - e,
    {
        proof {
            let rest = s@.skip(e as int);
            assert(rest[0] == s@[e as int]);
            assert(rest.skip(1) =~= s@.skip(e as int + 1));
        }
        e = e + 1;
    }
    proof {
        if e < len {
            assert(s@.skip(e as int)[0] == s@[e as int]);
        }
    }
    e
}

/// Split `s` into its non-empty tokens under separator mode `m`.
pub fn split_tokens(s: &str, m: SepMode) -> (r: Vec<String>)
    ensures
        r.deep_view() == spec_tokens(s@, m),
{
    let len = s.unicode_len();
    let mut r: Vec<String> = Vec::new();
    let mut i: usize = 0;
    proof {
        assert(s@.skip(0) =~= s@);
        assert(r.deep_view() + spec_tokens(s@, m) =~= spec_tokens(s@, m));
    }
    while i < len
        invariant
            i <= len,
            len == s@.len(),
            spec_tokens(s@, m) == r.deep_view() + spec_tokens(s@.skip(i as int), m),
        decreases len - i,
    {
        let c = s.get_char(i);
        proof {
            assert(s@.skip(i as int)[0] == s@[i as int]);
        }
        if is_sep_char(m, c) {
            proof {
                assert(s@.skip(i as int).skip(1) =~= s@.skip(i as int + 1));
            }
            i = i + 1;
        } else {
            let e = token_end(s, m, i);
            let tok = s.substring_char(i, e);
            let ghost old_dv = r.deep_view();
            let ghost rest = s@.skip(i as int);
            r.push(tok.to_owned());
            proof {
                lemma_token_len_bounds(rest, m);
                assert(rest.take(token_len(rest, m) as int) =~= tok@);
                assert(rest.skip(token_len(rest, m) as int) =~= s@.skip(e as int));
                assert(spec_tokens(rest, m) == seq![tok@] + spec_tokens(s@.skip(e as int), m));
                assert(r.deep_view() =~~= old_dv.push(tok@));
                assert(r.deep_view() + spec_tokens(s@.skip(e as int), m) =~~= old_dv + spec_tokens(
                    rest,
                    m,
                ));
            }
            i = e;
        }
    }
    proof {
        assert(s@.skip(len as int) =~= Seq::<char>::empty());
        assert(r.deep_view() + spec_tokens(s@.skip(len as int), m) =~~= r.deep_view());
    }
    r
}

} // verus!
