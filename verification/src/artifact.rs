//! Library-artifact discovery and naming: classify `lib<name>.a` /
//! `lib<name>.so` filenames, extract the canonical link stem, and choose
//! one artifact from a directory listing under a static-first or
//! dynamic-first policy.

use crate::strutil;
use vstd::prelude::*;

verus! {

/// Kind of an on-disk library artifact.
#[derive(Clone, Copy, PartialEq, Eq, Structural, Debug)]
pub enum LibKind {
    Static,
    Dynamic,
}

/// Kind of a library filename, decided by its trailing extension;
/// unrecognized extensions yield `None`.
pub open spec fn spec_lib_kind(name: Seq<char>) -> Option<LibKind> {
    if strutil::spec_ends_with(name, ".a"@) {
        Some(LibKind::Static)
    } else if strutil::spec_ends_with(name, ".so"@) {
        Some(LibKind::Dynamic)
    } else {
        None
    }
}

/// Canonical link stem of a library filename: the text between a leading
/// `lib` and a trailing `.a` or `.so`.  `None` when the name does not have
/// that shape.
pub open spec fn spec_stem_of(name: Seq<char>) -> Option<Seq<char>> {
    if strutil::spec_starts_with(name, "lib"@) {
        let rest = name.skip("lib"@.len() as int);
        if strutil::spec_ends_with(rest, ".a"@) {
            Some(rest.take(rest.len() - ".a"@.len()))
        } else if strutil::spec_ends_with(rest, ".so"@) {
            Some(rest.take(rest.len() - ".so"@.len()))
        } else {
            None
        }
    } else {
        None
    }
}

/// Executable artifact-kind classification.
pub fn lib_kind_of(name: &str) -> (r: Option<LibKind>)
    ensures
        r == spec_lib_kind(name@),
{
    if strutil::ends_with(name, ".a") {
        Some(LibKind::Static)
    } else if strutil::ends_with(name, ".so") {
        Some(LibKind::Dynamic)
    } else {
        None
    }
}

/// Executable stem extraction.
pub fn stem_of(name: &str) -> (r: Option<String>)
    ensures
        r is Some <==> spec_stem_of(name@) is Some,
        r matches Some(v) ==> spec_stem_of(name@) == Some(v@),
{
    match strutil::strip_prefix(name, "lib") {
        Some(rest) => {
            match strutil::strip_suffix(rest.as_str(), ".a") {
                Some(stem) => Some(stem),
                None => {
                    match strutil::strip_suffix(rest.as_str(), ".so") {
                        Some(stem) => Some(stem),
                        None => None,
                    }
                },
            }
        },
        None => None,
    }
}

/// A filename matches the search when it starts with `lib<prefix>`.
pub open spec fn spec_is_match(name: Seq<char>, prefix: Seq<char>) -> bool {
    strutil::spec_starts_with(name, "lib"@ + prefix)
}

/// The last name in the listing that matches `lib<prefix>` and has kind
/// `k`: when a directory holds several candidates of one kind, the one
/// seen last in listing order wins.
pub open spec fn spec_last_of_kind(
    names: Seq<Seq<char>>,
    prefix: Seq<char>,
    k: LibKind,
) -> Option<Seq<char>>
    decreases names.len(),
{
    if names.len() == 0 {
        None
    } else if spec_is_match(names.last(), prefix) && spec_lib_kind(names.last()) == Some(k) {
        Some(names.last())
    } else {
        spec_last_of_kind(names.drop_last(), prefix, k)
    }
}

/// The artifact chosen from a directory listing: the preferred kind when
/// present, else the other kind, else none.
pub open spec fn spec_find_lib(
    names: Seq<Seq<char>>,
    prefix: Seq<char>,
    prefer_dynamic: bool,
) -> Option<Seq<char>> {
    let st = spec_last_of_kind(names, prefix, LibKind::Static);
    let dy = spec_last_of_kind(names, prefix, LibKind::Dynamic);
    if prefer_dynamic {
        match dy {
            Some(v) => Some(v),
            None => st,
        }
    } else {
        match st {
            Some(v) => Some(v),
            None => dy,
        }
    }
}

/// Choose a library artifact from a directory listing.
pub fn find_lib(names: &Vec<String>, prefix: &str, prefer_dynamic: bool) -> (r: Option<String>)
    ensures
        r is Some <==> spec_find_lib(names.deep_view(), prefix@, prefer_dynamic) is Some,
        r matches Some(v) ==> spec_find_lib(names.deep_view(), prefix@, prefer_dynamic) == Some(
            v@,
        ),
{
    let want = strutil::concat2("lib", prefix);
    proof {
        assert(want@ == "lib"@ + prefix@);
    }
    let ghost dv = names.deep_view();
    let mut st: Option<String> = None;
    let mut dy: Option<String> = None;
    let n = names.len();
    let mut i: usize = 0;
    proof {
        assert(dv.take(0) =~= Seq::<Seq<char>>::empty());
    }
    while i < n
        invariant
            i <= n,
            n == names@.len(),
            dv == names.deep_view(),
            want@ == "lib"@ + prefix@,
            st is Some <==> spec_last_of_kind(dv.take(i as int), prefix@, LibKind::Static)
                is Some,
            st matches Some(v) ==> spec_last_of_kind(dv.take(i as int), prefix@, LibKind::Static)
                == Some(v@),
            dy is Some <==> spec_last_of_kind(dv.take(i as int), prefix@, LibKind::Dynamic)
                is Some,
            dy matches Some(v) ==> spec_last_of_kind(dv.take(i as int), prefix@, LibKind::Dynamic)
                == Some(v@),
        decreases n - i,
    {
        let name = &names[i];
        proof {
            assert(dv.take(i as int + 1).drop_last() =~= dv.take(i as int));
            assert(dv.take(i as int + 1).last() == dv[i as int]);
            assert(dv[i as int] == name@);
        }
        if strutil::starts_with(name.as_str(), want.as_str()) {
            match lib_kind_of(name.as_str()) {
                Some(LibKind::Static) => {
                    st = Some(name.clone());
                },
                Some(LibKind::Dynamic) => {
                    dy = Some(name.clone());
                },
                None => {},
            }
        }
        i = i + 1;
    }
    proof {
        assert(dv.take(n as int) =~= dv);
    }
    if prefer_dynamic {
        match dy {
            Some(v) => Some(v),
            None => st,
        }
    } else {
        match st {
            Some(v) => Some(v),
            None => dy,
        }
    }
}

/// There is a match of kind `k` in `names` exactly when the last-of-kind
/// search finds one, and what it finds is itself such a match.
pub proof fn lemma_last_of_kind_characterizes(names: Seq<Seq<char>>, prefix: Seq<char>, k: LibKind)
    ensures
        spec_last_of_kind(names, prefix, k) is Some <==> exists|i: int|
            0 <= i < names.len() && spec_is_match(#[trigger] names[i], prefix) && spec_lib_kind(
                names[i],
            ) == Some(k),
        spec_last_of_kind(names, prefix, k) matches Some(v) ==> spec_is_match(v, prefix)
            && spec_lib_kind(v) == Some(k),
    decreases names.len(),
{
    if names.len() > 0 {
        lemma_last_of_kind_characterizes(names.drop_last(), prefix, k);
        if spec_is_match(names.last(), prefix) && spec_lib_kind(names.last()) == Some(k) {
            assert(names[names.len() - 1] == names.last());
        } else {
            if spec_last_of_kind(names, prefix, k) is Some {
                let i = choose|i: int|
                    0 <= i < names.drop_last().len() && spec_is_match(
                        #[trigger] names.drop_last()[i],
                        prefix,
                    ) && spec_lib_kind(names.drop_last()[i]) == Some(k);
                assert(names[i] == names.drop_last()[i]);
            }
            if exists|i: int|
                0 <= i < names.len() && spec_is_match(#[trigger] names[i], prefix)
                    && spec_lib_kind(names[i]) == Some(k) {
                let i = choose|i: int|
                    0 <= i < names.len() && spec_is_match(#[trigger] names[i], prefix)
                        && spec_lib_kind(names[i]) == Some(k);
                if i < names.len() - 1 {
                    assert(names.drop_last()[i] == names[i]);
                }
            }
        }
    }
}

/// A directory with a static match and a dynamic match yields a static
/// artifact under the default policy and a dynamic one under the inverted
/// policy.
pub proof fn lemma_both_kinds_policy_decides(names: Seq<Seq<char>>, prefix: Seq<char>)
    requires
        exists|i: int|
            0 <= i < names.len() && spec_is_match(#[trigger] names[i], prefix) && spec_lib_kind(
                names[i],
            ) == Some(LibKind::Static),
        exists|i: int|
            0 <= i < names.len() && spec_is_match(#[trigger] names[i], prefix) && spec_lib_kind(
                names[i],
            ) == Some(LibKind::Dynamic),
    ensures
        spec_find_lib(names, prefix, false) matches Some(v) && spec_lib_kind(v) == Some(
            LibKind::Static,
        ),
        spec_find_lib(names, prefix, true) matches Some(v) && spec_lib_kind(v) == Some(
            LibKind::Dynamic,
        ),
{
    lemma_last_of_kind_characterizes(names, prefix, LibKind::Static);
    lemma_last_of_kind_characterizes(names, prefix, LibKind::Dynamic);
}

/// A directory with only one kind of match yields that artifact under
/// either policy.
pub proof fn lemma_single_kind_policy_irrelevant(names: Seq<Seq<char>>, prefix: Seq<char>)
    requires
        forall|i: int|
            0 <= i < names.len() ==> !(spec_is_match(#[trigger] names[i], prefix) && spec_lib_kind(
                names[i],
            ) == Some(LibKind::Static)),
    ensures
        spec_find_lib(names, prefix, false) == spec_find_lib(names, prefix, true),
        spec_find_lib(names, prefix, false) == spec_last_of_kind(names, prefix, LibKind::Dynamic),
{
    lemma_last_of_kind_characterizes(names, prefix, LibKind::Static);
}

} // verus!
