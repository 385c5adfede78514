//! Tests of target classification and link-plan emission.

use linkplan::config::resolve_config;
use linkplan::emit::{emit_plan, Directive};
use linkplan::env::{EnvEntry, EnvMap};
use linkplan::fs::{DirListing, FileStat, FsView};
use linkplan::target::{classify, default_cxx_runtime, Family};

fn env_of(pairs: &[(&str, &str)]) -> EnvMap {
    EnvMap {
        entries: pairs
            .iter()
            .map(|(k, v)| EnvEntry { key: k.to_string(), value: v.to_string() })
            .collect(),
    }
}

fn fs_of(dirs: &[(&str, &[&str])], files: &[(&str, bool)]) -> FsView {
    FsView {
        dirs: dirs
            .iter()
            .map(|(p, ns)| DirListing {
                path: p.to_string(),
                names: ns.iter().map(|n| n.to_string()).collect(),
            })
            .collect(),
        files: files
            .iter()
            .map(|(p, e)| FileStat { path: p.to_string(), exists: *e })
            .collect(),
    }
}

fn search(path: &str, native: bool) -> Directive {
    Directive::SearchPath { path: path.to_string(), native }
}

fn link(name: &str, is_static: bool) -> Directive {
    Directive::LinkLib { name: name.to_string(), is_static }
}

#[test]
fn classifier_android_armv7_triple() {
    let p = classify("armv7-linux-androideabi");
    assert_eq!(p.family, Family::Android);
    assert!(p.needs_explicit_atomics);
    assert_eq!(p.triple_us, "armv7_linux_androideabi".to_string());
    assert_eq!(p.default_cxx_runtime, "c++_shared".to_string());
}

#[test]
fn classifier_generic_linux_triple() {
    let p = classify("x86_64-unknown-linux-gnu");
    assert_eq!(p.family, Family::UnixLike);
    assert!(!p.needs_explicit_atomics);
    assert_eq!(p.default_cxx_runtime, "stdc++".to_string());
    assert_eq!(default_cxx_runtime(p.family), "stdc++".to_string());
}

#[test]
fn classifier_apple_triple() {
    let p = classify("aarch64-apple-darwin");
    assert_eq!(p.family, Family::Apple);
    assert!(!p.needs_explicit_atomics);
    assert_eq!(p.default_cxx_runtime, "c++".to_string());
}

#[test]
fn classifier_armv7_without_android_still_needs_atomics() {
    let p = classify("armv7-unknown-linux-gnueabihf");
    assert_eq!(p.family, Family::UnixLike);
    assert!(p.needs_explicit_atomics);
}

#[test]
fn full_plan_for_desktop_target() {
    let profile = classify("x86_64-unknown-linux-gnu");
    let env = env_of(&[("Boost_LIBRARY_DIR", "/bl")]);
    let cfg = resolve_config(&env, &profile);
    let fs = fs_of(&[("/bl", &["libboost_filesystem.a", "libboost_system.so"])], &[]);
    let plan = emit_plan(&profile, &cfg, &fs, "/out");

    assert_eq!(
        plan.directives,
        vec![
            search("/out/build/src/", false),
            search("/bl", true),
            link("boost_filesystem", true),
            link("boost_system", false),
            link("boost_regex", false),
            link("boost_date_time", false),
            link("boost_chrono", false),
            link("boost_thread", false),
            link("lz4", false),
            link("protobuf", false),
            link("stdc++", false),
            link("z", false),
        ]
    );
    assert_eq!(plan.warnings.len(), 4);
    assert!(plan.warnings[0].contains("boost_regex"));
}

#[test]
fn android_plan_links_atomics_and_lite_runtime() {
    let profile = classify("armv7-linux-androideabi");
    let env = env_of(&[]);
    let cfg = resolve_config(&env, &profile);
    let fs = fs_of(&[], &[]);
    let plan = emit_plan(&profile, &cfg, &fs, "/out");

    assert_eq!(
        plan.directives,
        vec![
            search("/out/build/src/", false),
            link("lz4", false),
            link("protobuf-lite", false),
            link("c++_shared", false),
            link("z", false),
            link("atomic", false),
        ]
    );
    assert!(plan.warnings.is_empty());
}

#[test]
fn lz4_root_directory_is_searched_and_artifact_used() {
    let profile = classify("x86_64-unknown-linux-gnu");
    let env = env_of(&[("LZ4_DIR", "/opt/lz4")]);
    let cfg = resolve_config(&env, &profile);
    // The derived library file exists on disk.
    let fs = fs_of(&[], &[("/opt/lz4/lib/liblz4.a", true)]);
    let plan = emit_plan(&profile, &cfg, &fs, "/out");

    assert!(plan.directives.contains(&search("/opt/lz4/lib", true)));
    assert!(plan.directives.contains(&link("lz4", true)));
    assert!(plan.warnings.is_empty());
}

#[test]
fn missing_lz4_file_warns_and_falls_back() {
    let profile = classify("x86_64-unknown-linux-gnu");
    let env = env_of(&[("LZ4_LIBRARY", "/x/liblz4.a")]);
    let cfg = resolve_config(&env, &profile);
    let fs = fs_of(&[], &[("/x/liblz4.a", false)]);
    let plan = emit_plan(&profile, &cfg, &fs, "/out");

    assert!(plan.directives.contains(&link("lz4", false)));
    assert_eq!(
        plan.warnings,
        vec!["LZ4_LIBRARY set but file not found: /x/liblz4.a".to_string()]
    );
}

#[test]
fn protobuf_directory_search_uses_component_name() {
    let profile = classify("aarch64-linux-android");
    let env = env_of(&[("Protobuf_DIR", "/pb")]);
    let cfg = resolve_config(&env, &profile);
    let fs = fs_of(&[("/pb/lib", &["libprotobuf-lite.a"])], &[]);
    let plan = emit_plan(&profile, &cfg, &fs, "/out");

    assert!(plan.directives.contains(&search("/pb/lib", true)));
    assert!(plan.directives.contains(&link("protobuf-lite", true)));
}

#[test]
fn explicit_protobuf_file_contributes_search_path_even_when_missing() {
    let profile = classify("x86_64-unknown-linux-gnu");
    let env = env_of(&[("Protobuf_LIBRARY", "/pb/lib/libprotobuf.a")]);
    let cfg = resolve_config(&env, &profile);
    let fs = fs_of(&[], &[("/pb/lib/libprotobuf.a", false)]);
    let plan = emit_plan(&profile, &cfg, &fs, "/out");

    assert!(plan.directives.contains(&search("/pb/lib", true)));
    assert!(plan.directives.contains(&link("protobuf", false)));
    assert_eq!(plan.warnings.len(), 1);
    assert!(plan.warnings[0].contains("protobuf"));
}

#[test]
fn dynamic_preference_flag_inverts_choice() {
    let profile = classify("aarch64-linux-android");
    let env = env_of(&[("Boost_LIBRARY_DIR", "/bl"), ("ANDROID_PREFER_DYNAMIC", "1")]);
    let cfg = resolve_config(&env, &profile);
    let fs = fs_of(&[("/bl", &["libboost_thread.a", "libboost_thread.so"])], &[]);
    let plan = emit_plan(&profile, &cfg, &fs, "/out");

    assert!(plan.directives.contains(&link("boost_thread", false)));
    assert!(!plan.directives.contains(&link("boost_thread", true)));
}

#[test]
fn emission_is_idempotent_on_identical_state() {
    let profile = classify("armv7-linux-androideabi");
    let env = env_of(&[
        ("Boost_LIBRARY_DIR", "/bl"),
        ("LZ4_DIR", "/l4"),
        ("Protobuf_DIR", "/pb"),
        ("CXX_STDLIB", "c++_static"),
    ]);
    let fs = fs_of(
        &[
            ("/bl", &["libboost_filesystem.a"]),
            ("/l4/lib", &["liblz4.so"]),
            ("/pb/lib", &["libprotobuf-lite.a"]),
        ],
        &[("/l4/lib/liblz4.a", false)],
    );
    let cfg1 = resolve_config(&env, &profile);
    let plan1 = emit_plan(&profile, &cfg1, &fs, "/out");
    let cfg2 = resolve_config(&env, &profile);
    let plan2 = emit_plan(&profile, &cfg2, &fs, "/out");

    assert_eq!(plan1.directives, plan2.directives);
    assert_eq!(plan1.warnings, plan2.warnings);
}

#[test]
fn removing_one_variable_only_affects_its_dependency() {
    let profile = classify("x86_64-unknown-linux-gnu");
    let fs = fs_of(
        &[("/bl", &["libboost_filesystem.a"]), ("/l4/lib", &["liblz4.a"])],
        &[("/l4/lib/liblz4.a", true)],
    );
    let full = env_of(&[("Boost_LIBRARY_DIR", "/bl"), ("LZ4_DIR", "/l4")]);
    let without_lz4 = env_of(&[("Boost_LIBRARY_DIR", "/bl")]);

    let plan_full = emit_plan(&profile, &resolve_config(&full, &profile), &fs, "/out");
    let plan_less = emit_plan(&profile, &resolve_config(&without_lz4, &profile), &fs, "/out");

    let lz4_related = |d: &Directive| match d {
        Directive::SearchPath { path, .. } => path.contains("l4"),
        Directive::LinkLib { name, .. } => name.contains("lz4"),
    };
    let full_rest: Vec<_> =
        plan_full.directives.iter().filter(|d| !lz4_related(d)).cloned().collect();
    let less_rest: Vec<_> =
        plan_less.directives.iter().filter(|d| !lz4_related(d)).cloned().collect();
    assert_eq!(full_rest, less_rest);
}
