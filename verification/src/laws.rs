//! System-wide laws of the resolution-and-emission pipeline: the emitted
//! plan is a function of the inputs alone, and each dependency's
//! directives depend only on that dependency's own variables.

use crate::config::ResolvedConfig;
use crate::config::view_opt;
use crate::emit::{
    spec_boost_part, spec_lz4_part, spec_pb_part, spec_plan, spec_tail_part,
};
use crate::env::{spec_lookup, spec_triple_key, EnvEntry};
use crate::fs::{DirListing, FileStat};
use crate::target::TargetProfile;
use vstd::prelude::*;

verus! {

/// Re-running the full resolution-and-emission sequence on identical
/// environment and filesystem state produces identical ordered
/// directives and identical warnings: any two well-formed resolutions
/// of the same snapshot emit the same plan.
pub proof fn lemma_emission_idempotent(
    e: Seq<EnvEntry>,
    profile: TargetProfile,
    cfg1: ResolvedConfig,
    cfg2: ResolvedConfig,
    dirs: Seq<DirListing>,
    files: Seq<FileStat>,
    dst: Seq<char>,
)
    requires
        cfg1.wf(e, profile),
        cfg2.wf(e, profile),
    ensures
        spec_plan(cfg1, profile, dirs, files, dst) == spec_plan(cfg2, profile, dirs, files, dst),
{
}

/// `e` with every binding of variable `k` removed.
pub open spec fn spec_remove_var(e: Seq<EnvEntry>, k: Seq<char>) -> Seq<EnvEntry>
    decreases e.len(),
{
    if e.len() == 0 {
        Seq::empty()
    } else if e[0].key@ == k {
        spec_remove_var(e.skip(1), k)
    } else {
        seq![e[0]] + spec_remove_var(e.skip(1), k)
    }
}

/// Removing one variable leaves the lookup of every other variable
/// unchanged.
pub proof fn lemma_remove_other_lookup(e: Seq<EnvEntry>, k: Seq<char>, other: Seq<char>)
    requires
        other != k,
    ensures
        spec_lookup(spec_remove_var(e, k), other) == spec_lookup(e, other),
    decreases e.len(),
{
    if e.len() > 0 {
        lemma_remove_other_lookup(e.skip(1), k, other);
        if e[0].key@ != k {
            let rem = seq![e[0]] + spec_remove_var(e.skip(1), k);
            assert(rem[0] == e[0]);
            assert(rem.skip(1) =~= spec_remove_var(e.skip(1), k));
        }
    }
}

/// The two variables a layered resolution of `base` reads.
pub open spec fn spec_resolve_keys(base: Seq<char>, tus: Seq<char>) -> Set<Seq<char>> {
    set![base, spec_triple_key(base, tus)]
}

/// The variables the Boost block depends on.
pub open spec fn spec_boost_link_keys(tus: Seq<char>) -> Set<Seq<char>> {
    spec_resolve_keys("Boost_LIBRARY_DIR"@, tus).insert("ANDROID_PREFER_DYNAMIC"@)
}

/// The variables the LZ4 block depends on.
pub open spec fn spec_lz4_keys(tus: Seq<char>) -> Set<Seq<char>> {
    spec_resolve_keys("LZ4_LIBRARY"@, tus).union(spec_resolve_keys("LZ4_DIR"@, tus)).insert(
        "ANDROID_PREFER_DYNAMIC"@,
    )
}

/// The variables the protobuf block depends on.
pub open spec fn spec_pb_keys(tus: Seq<char>) -> Set<Seq<char>> {
    spec_resolve_keys("Protobuf_LIBRARY"@, tus).union(
        spec_resolve_keys("Protobuf_LIBRARIES"@, tus),
    ).union(spec_resolve_keys("Protobuf_DIR"@, tus)).insert("PROTOBUF_COMPONENT"@).insert(
        "ANDROID_PREFER_DYNAMIC"@,
    )
}

/// The variables the runtime tail depends on.
pub open spec fn spec_runtime_keys() -> Set<Seq<char>> {
    set!["CXX_STDLIB"@]
}

/// Removing a single environment variable changes at most the directives
/// and warnings of the dependency that reads it: every block whose own
/// variable set does not contain the removed variable emits exactly what
/// it emitted before, on the same filesystem state.
pub proof fn lemma_variable_isolation(
    e: Seq<EnvEntry>,
    k: Seq<char>,
    profile: TargetProfile,
    cfg1: ResolvedConfig,
    cfg2: ResolvedConfig,
    dirs: Seq<DirListing>,
    files: Seq<FileStat>,
)
    requires
        cfg1.wf(e, profile),
        cfg2.wf(spec_remove_var(e, k), profile),
    ensures
        !spec_boost_link_keys(profile.triple_us@).contains(k) ==> spec_boost_part(
            dirs,
            view_opt(cfg2.boost_lib),
            cfg2.prefer_dynamic,
        ) == spec_boost_part(dirs, view_opt(cfg1.boost_lib), cfg1.prefer_dynamic),
        !spec_lz4_keys(profile.triple_us@).contains(k) ==> spec_lz4_part(
            dirs,
            files,
            view_opt(cfg2.lz4_lib),
            view_opt(cfg2.lz4_dir),
            cfg2.prefer_dynamic,
        ) == spec_lz4_part(
            dirs,
            files,
            view_opt(cfg1.lz4_lib),
            view_opt(cfg1.lz4_dir),
            cfg1.prefer_dynamic,
        ),
        !spec_pb_keys(profile.triple_us@).contains(k) ==> spec_pb_part(
            dirs,
            files,
            view_opt(cfg2.pb_lib),
            view_opt(cfg2.pb_dir),
            cfg2.pb_component@,
            cfg2.prefer_dynamic,
        ) == spec_pb_part(
            dirs,
            files,
            view_opt(cfg1.pb_lib),
            view_opt(cfg1.pb_dir),
            cfg1.pb_component@,
            cfg1.prefer_dynamic,
        ),
        !spec_runtime_keys().contains(k) ==> spec_tail_part(
            cfg2.cxx_stdlib@,
            profile.needs_explicit_atomics,
        ) == spec_tail_part(cfg1.cxx_stdlib@, profile.needs_explicit_atomics),
{
    let tus = profile.triple_us@;
    if !spec_boost_link_keys(tus).contains(k) {
        lemma_remove_other_lookup(e, k, "Boost_LIBRARY_DIR"@);
        lemma_remove_other_lookup(e, k, spec_triple_key("Boost_LIBRARY_DIR"@, tus));
        lemma_remove_other_lookup(e, k, "ANDROID_PREFER_DYNAMIC"@);
    }
    if !spec_lz4_keys(tus).contains(k) {
        lemma_remove_other_lookup(e, k, "LZ4_LIBRARY"@);
        lemma_remove_other_lookup(e, k, spec_triple_key("LZ4_LIBRARY"@, tus));
        lemma_remove_other_lookup(e, k, "LZ4_DIR"@);
        lemma_remove_other_lookup(e, k, spec_triple_key("LZ4_DIR"@, tus));
        lemma_remove_other_lookup(e, k, "ANDROID_PREFER_DYNAMIC"@);
    }
    if !spec_pb_keys(tus).contains(k) {
        lemma_remove_other_lookup(e, k, "Protobuf_LIBRARY"@);
        lemma_remove_other_lookup(e, k, spec_triple_key("Protobuf_LIBRARY"@, tus));
        lemma_remove_other_lookup(e, k, "Protobuf_LIBRARIES"@);
        lemma_remove_other_lookup(e, k, spec_triple_key("Protobuf_LIBRARIES"@, tus));
        lemma_remove_other_lookup(e, k, "Protobuf_DIR"@);
        lemma_remove_other_lookup(e, k, spec_triple_key("Protobuf_DIR"@, tus));
        lemma_remove_other_lookup(e, k, "PROTOBUF_COMPONENT"@);
        lemma_remove_other_lookup(e, k, "ANDROID_PREFER_DYNAMIC"@);
    }
    if !spec_runtime_keys().contains(k) {
        lemma_remove_other_lookup(e, k, "CXX_STDLIB"@);
    }
}

} // verus!
