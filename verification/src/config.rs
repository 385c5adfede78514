//! Resolution of the full build configuration from an environment
//! snapshot: one explicit, immutable structure assembled once at startup,
//! with every precedence rule written down, instead of ad hoc environment
//! reads scattered through the logic.

use crate::env::{spec_lookup, spec_nonempty_value, spec_resolve, spec_triple_key, EnvEntry, EnvMap};
use crate::strutil;
use crate::target::{spec_default_cxx_runtime, Family, TargetProfile};
use crate::tokenize;
use crate::tokenize::SepMode;
use vstd::prelude::*;

verus! {

/// View of an optional owned string.
pub open spec fn view_opt(o: Option<String>) -> Option<Seq<char>> {
    match o {
        Some(s) => Some(s@),
        None => None,
    }
}

/// `a`, unless it is absent, in which case `b`.
pub open spec fn spec_opt_or(a: Option<Seq<char>>, b: Option<Seq<char>>) -> Option<Seq<char>> {
    match a {
        Some(v) => Some(v),
        None => b,
    }
}

/// Build type handed to the native build: `debug` profiles build `Debug`,
/// release profiles with debug info build `RelWithDebInfo`, all else
/// `Release`.
pub open spec fn spec_build_type(e: Seq<EnvEntry>) -> Seq<char> {
    if spec_lookup(e, "PROFILE"@) == Some("debug"@) {
        "Debug"@
    } else if spec_lookup(e, "PROFILE"@) == Some("release"@) && spec_lookup(e, "DEBUG"@) == Some(
        "true"@,
    ) {
        "RelWithDebInfo"@
    } else {
        "Release"@
    }
}

/// The protobuf library variable, with its legacy alias as fallback.
pub open spec fn spec_pb_lib(e: Seq<EnvEntry>, tus: Seq<char>) -> Option<Seq<char>> {
    spec_opt_or(
        spec_resolve(e, "Protobuf_LIBRARY"@, tus),
        spec_resolve(e, "Protobuf_LIBRARIES"@, tus),
    )
}

/// The protoc executable: an explicit setting wins over the conventional
/// variable.  Neither has a triple-specific variant.
pub open spec fn spec_pb_protoc(e: Seq<EnvEntry>) -> Option<Seq<char>> {
    spec_opt_or(
        spec_nonempty_value(e, "Protobuf_PROTOC_EXECUTABLE"@),
        spec_nonempty_value(e, "PROTOC"@),
    )
}

/// Which protobuf flavour to link: an explicit override wins even when
/// empty; otherwise Android targets get the lite runtime.
pub open spec fn spec_pb_component(e: Seq<EnvEntry>, family: Family) -> Seq<char> {
    match spec_lookup(e, "PROTOBUF_COMPONENT"@) {
        Some(v) => v,
        None => if family == Family::Android {
            "protobuf-lite"@
        } else {
            "protobuf"@
        },
    }
}

/// LZ4 include directory: explicit variable, else derived from `LZ4_DIR`.
pub open spec fn spec_lz4_inc(e: Seq<EnvEntry>, tus: Seq<char>) -> Option<Seq<char>> {
    spec_opt_or(
        spec_resolve(e, "LZ4_INCLUDE_DIR"@, tus),
        match spec_resolve(e, "LZ4_DIR"@, tus) {
            Some(d) => Some(d + "/include"@),
            None => None,
        },
    )
}

/// LZ4 library file: explicit variable, else the conventional static
/// artifact under `LZ4_DIR`.
pub open spec fn spec_lz4_lib(e: Seq<EnvEntry>, tus: Seq<char>) -> Option<Seq<char>> {
    spec_opt_or(
        spec_resolve(e, "LZ4_LIBRARY"@, tus),
        match spec_resolve(e, "LZ4_DIR"@, tus) {
            Some(d) => Some(d + "/lib/liblz4.a"@),
            None => None,
        },
    )
}

/// Raw search-prefix list: the triple-specific variable shadows the
/// generic one outright (even when set empty), and an unset pair yields
/// the empty list.
pub open spec fn spec_cmake_prefix_raw(e: Seq<EnvEntry>, tus: Seq<char>) -> Seq<char> {
    match spec_lookup(e, spec_triple_key("CMAKE_PREFIX_PATH"@, tus)) {
        Some(v) => v,
        None => match spec_lookup(e, "CMAKE_PREFIX_PATH"@) {
            Some(v) => v,
            None => Seq::empty(),
        },
    }
}

/// Option of a value as a zero- or one-element sequence.
pub open spec fn spec_opt_to_seq(o: Option<Seq<char>>) -> Seq<Seq<char>> {
    match o {
        Some(v) => seq![v],
        None => Seq::empty(),
    }
}

/// The full prefix-path list: the split raw variable, then the Boost
/// root, then the protobuf directory, when those are known.
pub open spec fn spec_cmake_prefix(e: Seq<EnvEntry>, tus: Seq<char>) -> Seq<Seq<char>> {
    tokenize::spec_tokens(spec_cmake_prefix_raw(e, tus), SepMode::Colon) + spec_opt_to_seq(
        spec_resolve(e, "Boost_ROOT"@, tus),
    ) + spec_opt_to_seq(spec_resolve(e, "Protobuf_DIR"@, tus))
}

/// Dynamic artifacts are preferred only under an explicit override.
pub open spec fn spec_prefer_dynamic(e: Seq<EnvEntry>) -> bool {
    spec_lookup(e, "ANDROID_PREFER_DYNAMIC"@) == Some("1"@)
}

/// C++ runtime link name: an explicit override wins, else the family
/// default.
pub open spec fn spec_cxx_stdlib(e: Seq<EnvEntry>, family: Family) -> Seq<char> {
    match spec_lookup(e, "CXX_STDLIB"@) {
        Some(v) => v,
        None => spec_default_cxx_runtime(family),
    }
}

/// Every configuration decision of one build invocation, resolved once
/// from the environment snapshot and read-only thereafter.
pub struct ResolvedConfig {
    pub build_type: String,
    pub boost_root: Option<String>,
    pub boost_inc: Option<String>,
    pub boost_lib: Option<String>,
    pub pb_dir: Option<String>,
    pub pb_inc: Option<String>,
    pub pb_lib: Option<String>,
    pub pb_protoc: Option<String>,
    pub pb_component: String,
    pub lz4_dir: Option<String>,
    pub lz4_inc: Option<String>,
    pub lz4_lib: Option<String>,
    pub cmake_prefix: Vec<String>,
    pub cxx_stdlib: String,
    pub prefer_dynamic: bool,
}

impl ResolvedConfig {
    /// Each field is exactly what the layered lookup rules give for the
    /// environment snapshot `e` and the target profile.
    pub open spec fn wf(self, e: Seq<EnvEntry>, profile: TargetProfile) -> bool {
        let tus = profile.triple_us@;
        &&& self.build_type@ == spec_build_type(e)
        &&& view_opt(self.boost_root) == spec_resolve(e, "Boost_ROOT"@, tus)
        &&& view_opt(self.boost_inc) == spec_resolve(e, "Boost_INCLUDE_DIR"@, tus)
        &&& view_opt(self.boost_lib) == spec_resolve(e, "Boost_LIBRARY_DIR"@, tus)
        &&& view_opt(self.pb_dir) == spec_resolve(e, "Protobuf_DIR"@, tus)
        &&& view_opt(self.pb_inc) == spec_resolve(e, "Protobuf_INCLUDE_DIR"@, tus)
        &&& view_opt(self.pb_lib) == spec_pb_lib(e, tus)
        &&& view_opt(self.pb_protoc) == spec_pb_protoc(e)
        &&& self.pb_component@ == spec_pb_component(e, profile.family)
        &&& view_opt(self.lz4_dir) == spec_resolve(e, "LZ4_DIR"@, tus)
        &&& view_opt(self.lz4_inc) == spec_lz4_inc(e, tus)
        &&& view_opt(self.lz4_lib) == spec_lz4_lib(e, tus)
        &&& self.cmake_prefix.deep_view() == spec_cmake_prefix(e, tus)
        &&& self.cxx_stdlib@ == spec_cxx_stdlib(e, profile.family)
        &&& self.prefer_dynamic == spec_prefer_dynamic(e)
    }
}

/// Resolve the whole configuration from the environment snapshot.
pub fn resolve_config(env: &EnvMap, profile: &TargetProfile) -> (c: ResolvedConfig)
    ensures
        c.wf(env.entries@, *profile),
{
    let tus = profile.triple_us.as_str();

    let build_type = resolve_build_type(env);

    let boost_root = env.resolve("Boost_ROOT", tus);
    let boost_inc = env.resolve("Boost_INCLUDE_DIR", tus);
    let boost_lib = env.resolve("Boost_LIBRARY_DIR", tus);

    let pb_dir = env.resolve("Protobuf_DIR", tus);
    let pb_inc = env.resolve("Protobuf_INCLUDE_DIR", tus);
    let pb_lib = match env.resolve("Protobuf_LIBRARY", tus) {
        Some(v) => Some(v),
        None => env.resolve("Protobuf_LIBRARIES", tus),
    };
    let pb_protoc = match env.get_nonempty("Protobuf_PROTOC_EXECUTABLE") {
        Some(v) => Some(v),
        None => env.get_nonempty("PROTOC"),
    };
    let pb_component = match env.get("PROTOBUF_COMPONENT") {
        Some(v) => v,
        None => {
            match profile.family {
                Family::Android => "protobuf-lite".to_owned(),
                _ => "protobuf".to_owned(),
            }
        },
    };

    let lz4_dir = env.resolve("LZ4_DIR", tus);
    let lz4_inc = match env.resolve("LZ4_INCLUDE_DIR", tus) {
        Some(v) => Some(v),
        None => {
            match &lz4_dir {
                Some(d) => Some(strutil::concat2(d.as_str(), "/include")),
                None => None,
            }
        },
    };
    let lz4_lib = match env.resolve("LZ4_LIBRARY", tus) {
        Some(v) => Some(v),
        None => {
            match &lz4_dir {
                Some(d) => Some(strutil::concat2(d.as_str(), "/lib/liblz4.a")),
                None => None,
            }
        },
    };

    let prefix_key = strutil::concat3("CMAKE_PREFIX_PATH", "_", tus);
    proof {
        reveal_strlit("_");
        assert(prefix_key@ =~= spec_triple_key("CMAKE_PREFIX_PATH"@, profile.triple_us@));
    }
    let prefix_raw = match env.get(prefix_key.as_str()) {
        Some(v) => v,
        None => {
            match env.get("CMAKE_PREFIX_PATH") {
                Some(v) => v,
                None => String::new(),
            }
        },
    };
    let mut cmake_prefix = tokenize::split_tokens(prefix_raw.as_str(), SepMode::Colon);
    let ghost split_dv = cmake_prefix.deep_view();
    if let Some(br) = &boost_root {
        cmake_prefix.push(br.clone());
    }
    if let Some(pd) = &pb_dir {
        cmake_prefix.push(pd.clone());
    }
    proof {
        assert(cmake_prefix.deep_view() =~~= split_dv + spec_opt_to_seq(view_opt(boost_root))
            + spec_opt_to_seq(view_opt(pb_dir)));
    }

    let cxx_stdlib = match env.get("CXX_STDLIB") {
        Some(v) => v,
        None => crate::target::default_cxx_runtime(profile.family),
    };

    let prefer_dynamic = match env.get("ANDROID_PREFER_DYNAMIC") {
        Some(v) => strutil::str_eq(v.as_str(), "1"),
        None => false,
    };

    ResolvedConfig {
        build_type,
        boost_root,
        boost_inc,
        boost_lib,
        pb_dir,
        pb_inc,
        pb_lib,
        pb_protoc,
        pb_component,
        lz4_dir,
        lz4_inc,
        lz4_lib,
        cmake_prefix,
        cxx_stdlib,
        prefer_dynamic,
    }
}

/// Decide the native build type from the compilation profile variables.
pub fn resolve_build_type(env: &EnvMap) -> (r: String)
    ensures
        r@ == spec_build_type(env.entries@),
{
    let profile_v = env.get("PROFILE");
    let is_debug = match &profile_v {
        Some(v) => strutil::str_eq(v.as_str(), "debug"),
        None => false,
    };
    if is_debug {
        return "Debug".to_owned();
    }
    let is_release = match &profile_v {
        Some(v) => strutil::str_eq(v.as_str(), "release"),
        None => false,
    };
    let debug_true = match env.get("DEBUG") {
        Some(v) => strutil::str_eq(v.as_str(), "true"),
        None => false,
    };
    if is_release && debug_true {
        "RelWithDebInfo".to_owned()
    } else {
        "Release".to_owned()
    }
}

/// Join path elements with `:`, the inverse of the prefix-path split up
/// to empty elements.
pub open spec fn spec_join_colon(parts: Seq<Seq<char>>) -> Seq<char>
    decreases parts.len(),
{
    if parts.len() == 0 {
        Seq::empty()
    } else {
        parts[0] + spec_join_colon_tail(parts.skip(1))
    }
}

/// Tail of a `:` join: every further element with a separator in front.
pub open spec fn spec_join_colon_tail(parts: Seq<Seq<char>>) -> Seq<char>
    decreases parts.len(),
{
    if parts.len() == 0 {
        Seq::empty()
    } else {
        ":"@ + parts[0] + spec_join_colon_tail(parts.skip(1))
    }
}

/// Join the resolved prefix-path list back into one `:`-separated value.
pub fn join_colon(parts: &Vec<String>) -> (r: String)
    ensures
        r@ == spec_join_colon(parts.deep_view()),
{
    let ghost dv = parts.deep_view();
    let n = parts.len();
    if n == 0 {
        return String::new();
    }
    let mut r = parts[0].clone();
    let mut i: usize = 1;
    proof {
        assert(dv.skip(0) =~= dv);
        assert(spec_join_colon(dv) == dv[0] + spec_join_colon_tail(dv.skip(1)));
    }
    while i < n
        invariant
            1 <= i <= n,
            n == parts@.len(),
            dv == parts.deep_view(),
            spec_join_colon(dv) == r@ + spec_join_colon_tail(dv.skip(i as int)),
        decreases n - i,
    {
        proof {
            assert(dv.skip(i as int)[0] == dv[i as int]);
            assert(dv.skip(i as int).skip(1) =~= dv.skip(i as int + 1));
        }
        r.append(":");
        let part = &parts[i];
        r.append(part.as_str());
        i = i + 1;
    }
    proof {
        assert(dv.skip(n as int) =~= Seq::<Seq<char>>::empty());
        assert(r@ + spec_join_colon_tail(dv.skip(n as int)) =~= r@);
    }
    r
}

/// Base names of every environment variable the resolver may read, in
/// registration order.
pub open spec fn spec_tracked_bases() -> Seq<Seq<char>> {
    seq![
        "Boost_ROOT"@,
        "Boost_INCLUDE_DIR"@,
        "Boost_LIBRARY_DIR"@,
        "Protobuf_DIR"@,
        "Protobuf_INCLUDE_DIR"@,
        "Protobuf_LIBRARY"@,
        "Protobuf_LIBRARIES"@,
        "Protobuf_PROTOC_EXECUTABLE"@,
        "PROTOC"@,
        "PROTOBUF_COMPONENT"@,
        "LZ4_DIR"@,
        "LZ4_INCLUDE_DIR"@,
        "LZ4_LIBRARY"@,
        "CMAKE_PREFIX_PATH"@,
        "CXX_STDLIB"@,
        "ANDROID_PREFER_DYNAMIC"@,
    ]
}

/// For each tracked base, its generic name followed by its
/// triple-specific name: the full set of rebuild triggers, so the build
/// is considered stale when any variable it could read changes.
pub open spec fn spec_rerun_keys(bases: Seq<Seq<char>>, tus: Seq<char>) -> Seq<Seq<char>>
    decreases bases.len(),
{
    if bases.len() == 0 {
        Seq::empty()
    } else {
        seq![bases[0], spec_triple_key(bases[0], tus)] + spec_rerun_keys(bases.skip(1), tus)
    }
}

/// The tracked variable base names, as owned strings.
pub fn tracked_env_bases() -> (r: Vec<String>)
    ensures
        r.deep_view() == spec_tracked_bases(),
{
    let mut r: Vec<String> = Vec::new();
    r.push("Boost_ROOT".to_owned());
    r.push("Boost_INCLUDE_DIR".to_owned());
    r.push("Boost_LIBRARY_DIR".to_owned());
    r.push("Protobuf_DIR".to_owned());
    r.push("Protobuf_INCLUDE_DIR".to_owned());
    r.push("Protobuf_LIBRARY".to_owned());
    r.push("Protobuf_LIBRARIES".to_owned());
    r.push("Protobuf_PROTOC_EXECUTABLE".to_owned());
    r.push("PROTOC".to_owned());
    r.push("PROTOBUF_COMPONENT".to_owned());
    r.push("LZ4_DIR".to_owned());
    r.push("LZ4_INCLUDE_DIR".to_owned());
    r.push("LZ4_LIBRARY".to_owned());
    r.push("CMAKE_PREFIX_PATH".to_owned());
    r.push("CXX_STDLIB".to_owned());
    r.push("ANDROID_PREFER_DYNAMIC".to_owned());
    proof {
        assert(r.deep_view() =~~= spec_tracked_bases());
    }
    r
}

/// Every rebuild-trigger variable name for this target: each tracked
/// base and its triple-specific variant.
pub fn rerun_env_keys(triple_us: &str) -> (r: Vec<String>)
    ensures
        r.deep_view() == spec_rerun_keys(spec_tracked_bases(), triple_us@),
{
    let bases = tracked_env_bases();
    let ghost bdv = bases.deep_view();
    let n = bases.len();
    let mut r: Vec<String> = Vec::new();
    let mut i: usize = 0;
    proof {
        assert(bdv.skip(0) =~= bdv);
        assert(r.deep_view() + spec_rerun_keys(bdv, triple_us@) =~~= spec_rerun_keys(
            bdv,
            triple_us@,
        ));
    }
    while i < n
        invariant
            i <= n,
            n == bases@.len(),
            bdv == bases.deep_view(),
            spec_rerun_keys(bdv, triple_us@) == r.deep_view() + spec_rerun_keys(
                bdv.skip(i as int),
                triple_us@,
            ),
        decreases n - i,
    {
        let ghost rest = bdv.skip(i as int);
        let ghost old_dv = r.deep_view();
        proof {
            assert(rest[0] == bdv[i as int]);
            assert(rest.skip(1) =~= bdv.skip(i as int + 1));
        }
        let base = &bases[i];
        r.push(base.clone());
        let suffixed = strutil::concat3(base.as_str(), "_", triple_us);
        proof {
            reveal_strlit("_");
            assert(suffixed@ =~= spec_triple_key(bdv[i as int], triple_us@));
        }
        r.push(suffixed);
        proof {
            assert(r.deep_view() =~~= old_dv + seq![rest[0], spec_triple_key(rest[0], triple_us@)]);
            assert(r.deep_view() + spec_rerun_keys(bdv.skip(i as int + 1), triple_us@) =~~= old_dv
                + spec_rerun_keys(rest, triple_us@));
        }
        i = i + 1;
    }
    proof {
        assert(bdv.skip(n as int) =~= Seq::<Seq<char>>::empty());
        assert(r.deep_view() + spec_rerun_keys(bdv.skip(n as int), triple_us@) =~~= r.deep_view());
    }
    r
}

} // verus!
