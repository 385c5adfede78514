//! The link-plan emitter: combines the resolved configuration, the target
//! profile and the filesystem snapshot into the ordered sequence of
//! link-search-path and link-library directives, plus advisory warnings
//! for every dependency that had to fall back to an unqualified name.
//!
//! Ordering rules: the search path of a dependency precedes its link
//! directive, Boost components precede the runtimes, the C++ runtime
//! precedes the compression library, and the atomics library comes last.

use crate::artifact;
use crate::artifact::LibKind;
use crate::config::{view_opt, ResolvedConfig};
use crate::fs::{spec_exists, spec_find_in_dir, DirListing, FileStat, FsView};
use crate::strutil;
use crate::target::TargetProfile;
use vstd::prelude::*;

verus! {

/// Mathematical form of one directive.
#[verifier::ext_equal]
pub enum DirectiveModel {
    SearchPath { path: Seq<char>, native: bool },
    LinkLib { name: Seq<char>, is_static: bool },
}

/// One instruction to the toolchain driver: add a library search
/// directory, or link a library by name, statically or by default kind.
#[derive(Debug, Clone, PartialEq, Eq)]
pub enum Directive {
    SearchPath { path: String, native: bool },
    LinkLib { name: String, is_static: bool },
}

impl View for Directive {
    type V = DirectiveModel;

    open spec fn view(&self) -> DirectiveModel {
        match self {
            Directive::SearchPath { path, native } => DirectiveModel::SearchPath {
                path: path@,
                native: *native,
            },
            Directive::LinkLib { name, is_static } => DirectiveModel::LinkLib {
                name: name@,
                is_static: *is_static,
            },
        }
    }
}

impl DeepView for Directive {
    type V = DirectiveModel;

    open spec fn deep_view(&self) -> DirectiveModel {
        self.view()
    }
}

/// The emitter's output: the ordered directives and the advisory
/// warnings gathered along the way.
pub struct Plan {
    pub directives: Vec<Directive>,
    pub warnings: Vec<String>,
}

/// The advisory text for a dependency that fell back to an unqualified
/// link name.
pub open spec fn spec_fallback_warning(dep: Seq<char>) -> Seq<char> {
    "dependency "@ + dep + " not explicitly located; relying on default linker search path"@
}

fn fallback_warning(dep: &str) -> (r: String)
    ensures
        r@ == spec_fallback_warning(dep@),
{
    strutil::concat3(
        "dependency ",
        dep,
        " not explicitly located; relying on default linker search path",
    )
}

/// The link directive for a discovered artifact filename: its stem and
/// kind when the name decomposes, else the policy default name with
/// default kind.
pub open spec fn spec_link_choice(name: Seq<char>, default_name: Seq<char>) -> DirectiveModel {
    match (artifact::spec_lib_kind(name), artifact::spec_stem_of(name)) {
        (Some(k), Some(stem)) => DirectiveModel::LinkLib {
            name: stem,
            is_static: k == LibKind::Static,
        },
        _ => DirectiveModel::LinkLib { name: default_name, is_static: false },
    }
}

fn link_choice(name: &str, default_name: &str) -> (d: Directive)
    ensures
        d@ == spec_link_choice(name@, default_name@),
{
    let kind = artifact::lib_kind_of(name);
    let stem = artifact::stem_of(name);
    match (kind, stem) {
        (Some(k), Some(stem_str)) => Directive::LinkLib {
            name: stem_str,
            is_static: match k {
                LibKind::Static => true,
                LibKind::Dynamic => false,
            },
        },
        _ => Directive::LinkLib { name: default_name.to_owned(), is_static: false },
    }
}

/// The Boost components, in emission order.
pub open spec fn spec_boost_components() -> Seq<Seq<char>> {
    seq!["filesystem"@, "system"@, "regex"@, "date_time"@, "chrono"@, "thread"@]
}

fn boost_components() -> (r: Vec<&'static str>)
    ensures
        r.deep_view() == spec_boost_components(),
{
    let mut r: Vec<&'static str> = Vec::new();
    r.push("filesystem");
    r.push("system");
    r.push("regex");
    r.push("date_time");
    r.push("chrono");
    r.push("thread");
    proof {
        assert(r.deep_view() =~~= spec_boost_components());
    }
    r
}

/// Directives and warnings for one Boost component: the located artifact,
/// or the unqualified component name with a warning.
pub open spec fn spec_boost_comp_part(
    dirs: Seq<DirListing>,
    bl: Seq<char>,
    prefer_dynamic: bool,
    comp: Seq<char>,
) -> (Seq<DirectiveModel>, Seq<Seq<char>>) {
    let dep = "boost_"@ + comp;
    match spec_find_in_dir(dirs, bl, dep, prefer_dynamic) {
        Some(art) => (seq![spec_link_choice(art, dep)], Seq::empty()),
        None => (
            seq![DirectiveModel::LinkLib { name: dep, is_static: false }],
            seq![spec_fallback_warning(dep)],
        ),
    }
}

/// Directives and warnings for a list of Boost components, in order.
pub open spec fn spec_boost_comps_part(
    dirs: Seq<DirListing>,
    bl: Seq<char>,
    prefer_dynamic: bool,
    comps: Seq<Seq<char>>,
) -> (Seq<DirectiveModel>, Seq<Seq<char>>)
    decreases comps.len(),
{
    if comps.len() == 0 {
        (Seq::empty(), Seq::empty())
    } else {
        let head = spec_boost_comp_part(dirs, bl, prefer_dynamic, comps[0]);
        let tail = spec_boost_comps_part(dirs, bl, prefer_dynamic, comps.skip(1));
        (head.0 + tail.0, head.1 + tail.1)
    }
}

/// The Boost block: nothing without a known library directory; with one,
/// its search path followed by one link directive per component.
pub open spec fn spec_boost_part(
    dirs: Seq<DirListing>,
    boost_lib: Option<Seq<char>>,
    prefer_dynamic: bool,
) -> (Seq<DirectiveModel>, Seq<Seq<char>>) {
    match boost_lib {
        None => (Seq::empty(), Seq::empty()),
        Some(bl) => {
            let comps = spec_boost_comps_part(dirs, bl, prefer_dynamic, spec_boost_components());
            (
                seq![DirectiveModel::SearchPath { path: bl, native: true }] + comps.0,
                comps.1,
            )
        },
    }
}

fn emit_boost(fs: &FsView, boost_lib: &Option<String>, prefer_dynamic: bool) -> (r: (
    Vec<Directive>,
    Vec<String>,
))
    ensures
        r.0.deep_view() == spec_boost_part(fs.dirs@, view_opt(*boost_lib), prefer_dynamic).0,
        r.1.deep_view() == spec_boost_part(fs.dirs@, view_opt(*boost_lib), prefer_dynamic).1,
{
    match boost_lib {
        None => {
            let d: Vec<Directive> = Vec::new();
            let w: Vec<String> = Vec::new();
            proof {
                assert(d.deep_view() =~~= spec_boost_part(
                    fs.dirs@,
                    view_opt(*boost_lib),
                    prefer_dynamic,
                ).0);
                assert(w.deep_view() =~~= spec_boost_part(
                    fs.dirs@,
                    view_opt(*boost_lib),
                    prefer_dynamic,
                ).1);
            }
            (d, w)
        },
        Some(bl) => {
            let comps = boost_components();
            let ghost cdv = comps.deep_view();
            let n = comps.len();
            let mut cd: Vec<Directive> = Vec::new();
            let mut w: Vec<String> = Vec::new();
            let mut i: usize = 0;
            proof {
                assert(cdv.skip(0) =~= cdv);
                assert(cd.deep_view() + spec_boost_comps_part(
                    fs.dirs@,
                    bl@,
                    prefer_dynamic,
                    cdv,
                ).0 =~~= spec_boost_comps_part(fs.dirs@, bl@, prefer_dynamic, cdv).0);
                assert(w.deep_view() + spec_boost_comps_part(
                    fs.dirs@,
                    bl@,
                    prefer_dynamic,
                    cdv,
                ).1 =~~= spec_boost_comps_part(fs.dirs@, bl@, prefer_dynamic, cdv).1);
            }
            while i < n
                invariant
                    i <= n,
                    n == comps@.len(),
                    cdv == comps.deep_view(),
                    spec_boost_comps_part(fs.dirs@, bl@, prefer_dynamic, cdv).0 == cd.deep_view()
                        + spec_boost_comps_part(
                        fs.dirs@,
                        bl@,
                        prefer_dynamic,
                        cdv.skip(i as int),
                    ).0,
                    spec_boost_comps_part(fs.dirs@, bl@, prefer_dynamic, cdv).1 == w.deep_view()
                        + spec_boost_comps_part(
                        fs.dirs@,
                        bl@,
                        prefer_dynamic,
                        cdv.skip(i as int),
                    ).1,
                decreases n - i,
            {
                let ghost rest = cdv.skip(i as int);
                let ghost old_cd = cd.deep_view();
                let ghost old_w = w.deep_view();
                proof {
                    assert(rest[0] == cdv[i as int]);
                    assert(rest.skip(1) =~= cdv.skip(i as int + 1));
                }
                let comp = comps[i];
                let dep = strutil::concat2("boost_", comp);
                match fs.find_in_dir(bl.as_str(), dep.as_str(), prefer_dynamic) {
                    Some(art) => {
                        cd.push(link_choice(art.as_str(), dep.as_str()));
                    },
                    None => {
                        cd.push(Directive::LinkLib { name: dep.clone(), is_static: false });
                        w.push(fallback_warning(dep.as_str()));
                    },
                }
                proof {
                    let step = spec_boost_comp_part(fs.dirs@, bl@, prefer_dynamic, rest[0]);
                    assert(cd.deep_view() =~~= old_cd + step.0);
                    assert(w.deep_view() =~~= old_w + step.1);
                    assert(cd.deep_view() + spec_boost_comps_part(
                        fs.dirs@,
                        bl@,
                        prefer_dynamic,
                        cdv.skip(i as int + 1),
                    ).0 =~~= old_cd + spec_boost_comps_part(
                        fs.dirs@,
                        bl@,
                        prefer_dynamic,
                        rest,
                    ).0);
                    assert(w.deep_view() + spec_boost_comps_part(
                        fs.dirs@,
                        bl@,
                        prefer_dynamic,
                        cdv.skip(i as int + 1),
                    ).1 =~~= old_w + spec_boost_comps_part(
                        fs.dirs@,
                        bl@,
                        prefer_dynamic,
                        rest,
                    ).1);
                }
                i = i + 1;
            }
            proof {
                assert(cdv.skip(n as int) =~= Seq::<Seq<char>>::empty());
                assert(cd.deep_view() + spec_boost_comps_part(
                    fs.dirs@,
                    bl@,
                    prefer_dynamic,
                    cdv.skip(n as int),
                ).0 =~~= cd.deep_view());
                assert(w.deep_view() + spec_boost_comps_part(
                    fs.dirs@,
                    bl@,
                    prefer_dynamic,
                    cdv.skip(n as int),
                ).1 =~~= w.deep_view());
            }
            let mut d: Vec<Directive> = Vec::new();
            d.push(Directive::SearchPath { path: bl.clone(), native: true });
            d.append(&mut cd);
            proof {
                assert(d.deep_view() =~~= spec_boost_part(
                    fs.dirs@,
                    view_opt(*boost_lib),
                    prefer_dynamic,
                ).0);
            }
            (d, w)
        },
    }
}

/// The LZ4 block.  An explicit library file is used when it exists and
/// warned about when it does not; a bare root directory is searched; with
/// neither, the unqualified name is linked silently.
pub open spec fn spec_lz4_part(
    dirs: Seq<DirListing>,
    files: Seq<FileStat>,
    lz4_lib: Option<Seq<char>>,
    lz4_dir: Option<Seq<char>>,
    prefer_dynamic: bool,
) -> (Seq<DirectiveModel>, Seq<Seq<char>>) {
    match lz4_lib {
        Some(path) => if spec_exists(files, path) {
            (
                seq![
                    DirectiveModel::SearchPath { path: strutil::spec_dir_of(path), native: true },
                    spec_link_choice(strutil::spec_base_of(path), "lz4"@),
                ],
                Seq::empty(),
            )
        } else {
            (
                seq![DirectiveModel::LinkLib { name: "lz4"@, is_static: false }],
                seq!["LZ4_LIBRARY set but file not found: "@ + path],
            )
        },
        None => match lz4_dir {
            Some(dir) => {
                let libdir = dir + "/lib"@;
                match spec_find_in_dir(dirs, libdir, "lz4"@, prefer_dynamic) {
                    Some(art) => (
                        seq![
                            DirectiveModel::SearchPath { path: libdir, native: true },
                            spec_link_choice(art, "lz4"@),
                        ],
                        Seq::empty(),
                    ),
                    None => (
                        seq![
                            DirectiveModel::SearchPath { path: libdir, native: true },
                            DirectiveModel::LinkLib { name: "lz4"@, is_static: false },
                        ],
                        seq![spec_fallback_warning("lz4"@)],
                    ),
                }
            },
            None => (
                seq![DirectiveModel::LinkLib { name: "lz4"@, is_static: false }],
                Seq::empty(),
            ),
        },
    }
}

fn emit_lz4(
    fs: &FsView,
    lz4_lib: &Option<String>,
    lz4_dir: &Option<String>,
    prefer_dynamic: bool,
) -> (r: (Vec<Directive>, Vec<String>))
    ensures
        r.0.deep_view() == spec_lz4_part(
            fs.dirs@,
            fs.files@,
            view_opt(*lz4_lib),
            view_opt(*lz4_dir),
            prefer_dynamic,
        ).0,
        r.1.deep_view() == spec_lz4_part(
            fs.dirs@,
            fs.files@,
            view_opt(*lz4_lib),
            view_opt(*lz4_dir),
            prefer_dynamic,
        ).1,
{
    let ghost spart = spec_lz4_part(
        fs.dirs@,
        fs.files@,
        view_opt(*lz4_lib),
        view_opt(*lz4_dir),
        prefer_dynamic,
    );
    let mut d: Vec<Directive> = Vec::new();
    let mut w: Vec<String> = Vec::new();
    match lz4_lib {
        Some(path) => {
            if fs.file_exists(path.as_str()) {
                d.push(
                    Directive::SearchPath { path: strutil::dir_of(path.as_str()), native: true },
                );
                let base = strutil::base_of(path.as_str());
                d.push(link_choice(base.as_str(), "lz4"));
            } else {
                d.push(Directive::LinkLib { name: "lz4".to_owned(), is_static: false });
                w.push(strutil::concat2("LZ4_LIBRARY set but file not found: ", path.as_str()));
            }
        },
        None => {
            match lz4_dir {
                Some(dir) => {
                    let libdir = strutil::concat2(dir.as_str(), "/lib");
                    d.push(Directive::SearchPath { path: libdir.clone(), native: true });
                    match fs.find_in_dir(libdir.as_str(), "lz4", prefer_dynamic) {
                        Some(art) => {
                            d.push(link_choice(art.as_str(), "lz4"));
                        },
                        None => {
                            d.push(
                                Directive::LinkLib { name: "lz4".to_owned(), is_static: false },
                            );
                            w.push(fallback_warning("lz4"));
                        },
                    }
                },
                None => {
                    d.push(Directive::LinkLib { name: "lz4".to_owned(), is_static: false });
                },
            }
        },
    }
    proof {
        assert(d.deep_view() =~~= spart.0);
        assert(w.deep_view() =~~= spart.1);
    }
    (d, w)
}

/// The protobuf block.  An explicit library file contributes its search
/// path in any case and its artifact only when the file exists; a bare
/// root directory is searched; with neither, the component name is
/// linked silently.
pub open spec fn spec_pb_part(
    dirs: Seq<DirListing>,
    files: Seq<FileStat>,
    pb_lib: Option<Seq<char>>,
    pb_dir: Option<Seq<char>>,
    component: Seq<char>,
    prefer_dynamic: bool,
) -> (Seq<DirectiveModel>, Seq<Seq<char>>) {
    match pb_lib {
        Some(file) => {
            let search = DirectiveModel::SearchPath {
                path: strutil::spec_dir_of(file),
                native: true,
            };
            if spec_exists(files, file) {
                (seq![search, spec_link_choice(strutil::spec_base_of(file), component)], Seq::empty())
            } else {
                (
                    seq![search, DirectiveModel::LinkLib { name: component, is_static: false }],
                    seq![spec_fallback_warning(component)],
                )
            }
        },
        None => match pb_dir {
            Some(dir) => {
                let libdir = dir + "/lib"@;
                match spec_find_in_dir(dirs, libdir, component, prefer_dynamic) {
                    Some(art) => (
                        seq![
                            DirectiveModel::SearchPath { path: libdir, native: true },
                            spec_link_choice(art, component),
                        ],
                        Seq::empty(),
                    ),
                    None => (
                        seq![
                            DirectiveModel::SearchPath { path: libdir, native: true },
                            DirectiveModel::LinkLib { name: component, is_static: false },
                        ],
                        seq![spec_fallback_warning(component)],
                    ),
                }
            },
            None => (
                seq![DirectiveModel::LinkLib { name: component, is_static: false }],
                Seq::empty(),
            ),
        },
    }
}

fn emit_pb(
    fs: &FsView,
    pb_lib: &Option<String>,
    pb_dir: &Option<String>,
    component: &str,
    prefer_dynamic: bool,
) -> (r: (Vec<Directive>, Vec<String>))
    ensures
        r.0.deep_view() == spec_pb_part(
            fs.dirs@,
            fs.files@,
            view_opt(*pb_lib),
            view_opt(*pb_dir),
            component@,
            prefer_dynamic,
        ).0,
        r.1.deep_view() == spec_pb_part(
            fs.dirs@,
            fs.files@,
            view_opt(*pb_lib),
            view_opt(*pb_dir),
            component@,
            prefer_dynamic,
        ).1,
{
    let ghost spart = spec_pb_part(
        fs.dirs@,
        fs.files@,
        view_opt(*pb_lib),
        view_opt(*pb_dir),
        component@,
        prefer_dynamic,
    );
    let mut d: Vec<Directive> = Vec::new();
    let mut w: Vec<String> = Vec::new();
    match pb_lib {
        Some(file) => {
            d.push(Directive::SearchPath { path: strutil::dir_of(file.as_str()), native: true });
            if fs.file_exists(file.as_str()) {
                let base = strutil::base_of(file.as_str());
                d.push(link_choice(base.as_str(), component));
            } else {
                d.push(Directive::LinkLib { name: component.to_owned(), is_static: false });
                w.push(fallback_warning(component));
            }
        },
        None => {
            match pb_dir {
                Some(dir) => {
                    let libdir = strutil::concat2(dir.as_str(), "/lib");
                    d.push(Directive::SearchPath { path: libdir.clone(), native: true });
                    match fs.find_in_dir(libdir.as_str(), component, prefer_dynamic) {
                        Some(art) => {
                            d.push(link_choice(art.as_str(), component));
                        },
                        None => {
                            d.push(
                                Directive::LinkLib {
                                    name: component.to_owned(),
                                    is_static: false,
                                },
                            );
                            w.push(fallback_warning(component));
                        },
                    }
                },
                None => {
                    d.push(
                        Directive::LinkLib { name: component.to_owned(), is_static: false },
                    );
                },
            }
        },
    }
    proof {
        assert(d.deep_view() =~~= spart.0);
        assert(w.deep_view() =~~= spart.1);
    }
    (d, w)
}

/// The closing directives: the C++ runtime, the system compression
/// library, and — when the target requires it — the atomics library.
pub open spec fn spec_tail_part(cxx_stdlib: Seq<char>, needs_atomics: bool) -> Seq<
    DirectiveModel,
> {
    seq![
        DirectiveModel::LinkLib { name: cxx_stdlib, is_static: false },
        DirectiveModel::LinkLib { name: "z"@, is_static: false },
    ] + if needs_atomics {
        seq![DirectiveModel::LinkLib { name: "atomic"@, is_static: false }]
    } else {
        Seq::empty()
    }
}

/// The whole plan for one build invocation: the native build's output
/// search path, then the Boost, LZ4 and protobuf blocks, then the
/// runtime tail; alongside it, the warnings in the same dependency
/// order.
pub open spec fn spec_plan(
    cfg: ResolvedConfig,
    profile: TargetProfile,
    dirs: Seq<DirListing>,
    files: Seq<FileStat>,
    dst: Seq<char>,
) -> (Seq<DirectiveModel>, Seq<Seq<char>>) {
    let head = seq![
        DirectiveModel::SearchPath { path: dst + "/build/src/"@, native: false },
    ];
    let boost = spec_boost_part(dirs, view_opt(cfg.boost_lib), cfg.prefer_dynamic);
    let lz4 = spec_lz4_part(
        dirs,
        files,
        view_opt(cfg.lz4_lib),
        view_opt(cfg.lz4_dir),
        cfg.prefer_dynamic,
    );
    let pb = spec_pb_part(
        dirs,
        files,
        view_opt(cfg.pb_lib),
        view_opt(cfg.pb_dir),
        cfg.pb_component@,
        cfg.prefer_dynamic,
    );
    let tail = spec_tail_part(cfg.cxx_stdlib@, profile.needs_explicit_atomics);
    (head + boost.0 + lz4.0 + pb.0 + tail, boost.1 + lz4.1 + pb.1)
}

/// Emit the full link plan for one build invocation.
pub fn emit_plan(profile: &TargetProfile, cfg: &ResolvedConfig, fs: &FsView, dst: &str) -> (p:
    Plan)
    ensures
        p.directives.deep_view() == spec_plan(*cfg, *profile, fs.dirs@, fs.files@, dst@).0,
        p.warnings.deep_view() == spec_plan(*cfg, *profile, fs.dirs@, fs.files@, dst@).1,
{
    let ghost splan = spec_plan(*cfg, *profile, fs.dirs@, fs.files@, dst@);
    let mut directives: Vec<Directive> = Vec::new();
    let mut warnings: Vec<String> = Vec::new();

    directives.push(
        Directive::SearchPath { path: strutil::concat2(dst, "/build/src/"), native: false },
    );

    let (mut bd, mut bw) = emit_boost(fs, &cfg.boost_lib, cfg.prefer_dynamic);
    directives.append(&mut bd);
    warnings.append(&mut bw);

    let (mut ld, mut lw) = emit_lz4(fs, &cfg.lz4_lib, &cfg.lz4_dir, cfg.prefer_dynamic);
    directives.append(&mut ld);
    warnings.append(&mut lw);

    let (mut pd, mut pw) = emit_pb(
        fs,
        &cfg.pb_lib,
        &cfg.pb_dir,
        cfg.pb_component.as_str(),
        cfg.prefer_dynamic,
    );
    directives.append(&mut pd);
    warnings.append(&mut pw);

    directives.push(
        Directive::LinkLib { name: cfg.cxx_stdlib.clone(), is_static: false },
    );
    directives.push(Directive::LinkLib { name: "z".to_owned(), is_static: false });
    if profile.needs_explicit_atomics {
        directives.push(Directive::LinkLib { name: "atomic".to_owned(), is_static: false });
    }

    proof {
        assert(directives.deep_view() =~~= splan.0);
        assert(warnings.deep_view() =~~= splan.1);
    }
    Plan { directives, warnings }
}

} // verus!
