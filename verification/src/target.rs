//! Target classification: the one place that inspects the raw target-triple
//! string.  Everything downstream depends only on the resulting profile,
//! never on substring checks of its own.

use crate::strutil;
use vstd::prelude::*;

verus! {

/// Platform family of a target triple.
#[derive(Clone, Copy, PartialEq, Eq, Structural, Debug)]
pub enum Family {
    Android,
    Apple,
    UnixLike,
}

/// Family of a triple, by marker substring: an Android marker wins over an
/// Apple marker; anything else counts as a generic Unix-like target.
pub open spec fn spec_family(triple: Seq<char>) -> Family {
    if strutil::spec_contains(triple, "android"@) {
        Family::Android
    } else if strutil::spec_contains(triple, "apple"@) {
        Family::Apple
    } else {
        Family::UnixLike
    }
}

/// Whether the triple names a 32-bit ARM or soft-float Android ABI, whose
/// base runtime lacks atomic intrinsics, so the atomics library must be
/// linked explicitly.
pub open spec fn spec_needs_explicit_atomics(triple: Seq<char>) -> bool {
    strutil::spec_contains(triple, "armv7"@) || strutil::spec_contains(triple, "androideabi"@)
}

/// Default C++ runtime link name for a platform family.
pub open spec fn spec_default_cxx_runtime(family: Family) -> Seq<char> {
    match family {
        Family::Android => "c++_shared"@,
        Family::Apple => "c++"@,
        Family::UnixLike => "stdc++"@,
    }
}

/// The triple with `-` separators replaced by `_`, the form used to build
/// triple-specific environment-variable names.
pub open spec fn spec_triple_us(triple: Seq<char>) -> Seq<char> {
    strutil::spec_replace_char(triple, '-', '_')
}

/// Policy profile derived from a target triple, computed once at the start
/// of a build and read-only thereafter.
pub struct TargetProfile {
    pub triple: String,
    pub triple_us: String,
    pub family: Family,
    pub needs_explicit_atomics: bool,
    pub default_cxx_runtime: String,
}

impl TargetProfile {
    /// Every field agrees with the classification of `triple`.
    pub open spec fn wf(self) -> bool {
        &&& self.triple_us@ == spec_triple_us(self.triple@)
        &&& self.family == spec_family(self.triple@)
        &&& self.needs_explicit_atomics == spec_needs_explicit_atomics(self.triple@)
        &&& self.default_cxx_runtime@ == spec_default_cxx_runtime(spec_family(self.triple@))
    }
}

/// Classify a raw target triple.  Pure and total: an unrecognized triple
/// degrades to generic Unix-like defaults, never to an error.
pub fn classify(triple: &str) -> (p: TargetProfile)
    ensures
        p.wf(),
        p.triple@ == triple@,
{
    let family = if strutil::contains_str(triple, "android") {
        Family::Android
    } else if strutil::contains_str(triple, "apple") {
        Family::Apple
    } else {
        Family::UnixLike
    };
    let needs_explicit_atomics = strutil::contains_str(triple, "armv7") || strutil::contains_str(
        triple,
        "androideabi",
    );
    TargetProfile {
        triple: triple.to_owned(),
        triple_us: strutil::replace_char(triple, '-', '_'),
        family,
        needs_explicit_atomics,
        default_cxx_runtime: default_cxx_runtime(family),
    }
}

/// Executable default C++ runtime name for a family.
pub fn default_cxx_runtime(family: Family) -> (r: String)
    ensures
        r@ == spec_default_cxx_runtime(family),
{
    match family {
        Family::Android => "c++_shared".to_owned(),
        Family::Apple => "c++".to_owned(),
        Family::UnixLike => "stdc++".to_owned(),
    }
}

} // verus!
