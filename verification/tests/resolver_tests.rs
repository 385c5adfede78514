//! Tests of the layered environment resolution and configuration assembly.

use linkplan::config::{rerun_env_keys, resolve_build_type, resolve_config};
use linkplan::env::{EnvEntry, EnvMap};
use linkplan::target::classify;

fn env_of(pairs: &[(&str, &str)]) -> EnvMap {
    EnvMap {
        entries: pairs
            .iter()
            .map(|(k, v)| EnvEntry { key: k.to_string(), value: v.to_string() })
            .collect(),
    }
}

#[test]
fn triple_specific_value_wins() {
    let env = env_of(&[
        ("Boost_ROOT_x86_64_unknown_linux_gnu", "/triple/boost"),
        ("Boost_ROOT", "/generic/boost"),
    ]);
    let got = env.resolve("Boost_ROOT", "x86_64_unknown_linux_gnu");
    assert_eq!(got, Some("/triple/boost".to_string()));
}

#[test]
fn generic_value_used_without_triple_specific() {
    let env = env_of(&[("Boost_ROOT", "/generic/boost")]);
    let got = env.resolve("Boost_ROOT", "x86_64_unknown_linux_gnu");
    assert_eq!(got, Some("/generic/boost".to_string()));
}

#[test]
fn empty_value_falls_through_to_generic() {
    let env = env_of(&[
        ("LZ4_DIR_aarch64_linux_android", ""),
        ("LZ4_DIR", "/opt/lz4"),
    ]);
    let got = env.resolve("LZ4_DIR", "aarch64_linux_android");
    assert_eq!(got, Some("/opt/lz4".to_string()));
}

#[test]
fn unset_variable_resolves_to_none() {
    let env = env_of(&[]);
    assert_eq!(env.resolve("Boost_ROOT", "t"), None);
}

#[test]
fn build_type_debug_profile() {
    let env = env_of(&[("PROFILE", "debug"), ("DEBUG", "true")]);
    assert_eq!(resolve_build_type(&env), "Debug".to_string());
}

#[test]
fn build_type_release_with_debug_info() {
    let env = env_of(&[("PROFILE", "release"), ("DEBUG", "true")]);
    assert_eq!(resolve_build_type(&env), "RelWithDebInfo".to_string());
}

#[test]
fn build_type_release_without_debug_info() {
    let env = env_of(&[("PROFILE", "release"), ("DEBUG", "false")]);
    assert_eq!(resolve_build_type(&env), "Release".to_string());
}

#[test]
fn build_type_default_is_release() {
    let env = env_of(&[]);
    assert_eq!(resolve_build_type(&env), "Release".to_string());
}

#[test]
fn protobuf_component_defaults_by_family() {
    let android = classify("aarch64-linux-android");
    let desktop = classify("x86_64-unknown-linux-gnu");
    let env = env_of(&[]);
    assert_eq!(resolve_config(&env, &android).pb_component, "protobuf-lite".to_string());
    assert_eq!(resolve_config(&env, &desktop).pb_component, "protobuf".to_string());
}

#[test]
fn protobuf_component_override_wins_even_on_android() {
    let android = classify("aarch64-linux-android");
    let env = env_of(&[("PROTOBUF_COMPONENT", "protobuf")]);
    assert_eq!(resolve_config(&env, &android).pb_component, "protobuf".to_string());
}

#[test]
fn lz4_paths_derived_from_root_directory() {
    let profile = classify("x86_64-unknown-linux-gnu");
    let env = env_of(&[("LZ4_DIR", "/opt/lz4")]);
    let cfg = resolve_config(&env, &profile);
    assert_eq!(cfg.lz4_inc, Some("/opt/lz4/include".to_string()));
    assert_eq!(cfg.lz4_lib, Some("/opt/lz4/lib/liblz4.a".to_string()));
}

#[test]
fn lz4_explicit_variables_beat_derived_paths() {
    let profile = classify("x86_64-unknown-linux-gnu");
    let env = env_of(&[
        ("LZ4_DIR", "/opt/lz4"),
        ("LZ4_INCLUDE_DIR", "/inc"),
        ("LZ4_LIBRARY", "/lib/liblz4.so"),
    ]);
    let cfg = resolve_config(&env, &profile);
    assert_eq!(cfg.lz4_inc, Some("/inc".to_string()));
    assert_eq!(cfg.lz4_lib, Some("/lib/liblz4.so".to_string()));
}

#[test]
fn protobuf_library_alias_fallback() {
    let profile = classify("x86_64-unknown-linux-gnu");
    let env = env_of(&[("Protobuf_LIBRARIES", "/pb/libprotobuf.a")]);
    let cfg = resolve_config(&env, &profile);
    assert_eq!(cfg.pb_lib, Some("/pb/libprotobuf.a".to_string()));

    let env2 = env_of(&[
        ("Protobuf_LIBRARY", "/pb/libprotobuf-lite.a"),
        ("Protobuf_LIBRARIES", "/pb/libprotobuf.a"),
    ]);
    let cfg2 = resolve_config(&env2, &profile);
    assert_eq!(cfg2.pb_lib, Some("/pb/libprotobuf-lite.a".to_string()));
}

#[test]
fn cmake_prefix_combines_list_and_roots() {
    let profile = classify("x86_64-unknown-linux-gnu");
    let env = env_of(&[
        ("CMAKE_PREFIX_PATH", "/a:/b::"),
        ("Boost_ROOT", "/boost"),
        ("Protobuf_DIR", "/pb"),
    ]);
    let cfg = resolve_config(&env, &profile);
    assert_eq!(
        cfg.cmake_prefix,
        vec!["/a".to_string(), "/b".to_string(), "/boost".to_string(), "/pb".to_string()]
    );
}

#[test]
fn prefer_dynamic_needs_exact_flag() {
    let profile = classify("aarch64-linux-android");
    assert!(resolve_config(&env_of(&[("ANDROID_PREFER_DYNAMIC", "1")]), &profile).prefer_dynamic);
    assert!(!resolve_config(&env_of(&[("ANDROID_PREFER_DYNAMIC", "true")]), &profile).prefer_dynamic);
    assert!(!resolve_config(&env_of(&[]), &profile).prefer_dynamic);
}

#[test]
fn rerun_keys_cover_base_and_triple_variants() {
    let keys = rerun_env_keys("armv7_linux_androideabi");
    assert_eq!(keys.len(), 32);
    assert!(keys.contains(&"Boost_ROOT".to_string()));
    assert!(keys.contains(&"Boost_ROOT_armv7_linux_androideabi".to_string()));
    assert!(keys.contains(&"ANDROID_PREFER_DYNAMIC_armv7_linux_androideabi".to_string()));
    assert!(keys.contains(&"CMAKE_PREFIX_PATH".to_string()));
}
