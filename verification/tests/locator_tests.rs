//! Tests of artifact discovery, kind preference, and stem decomposition.

use linkplan::artifact::{find_lib, lib_kind_of, stem_of, LibKind};

fn names(list: &[&str]) -> Vec<String> {
    list.iter().map(|s| s.to_string()).collect()
}

#[test]
fn both_kinds_static_wins_under_default_policy() {
    let listing = names(&["libfoo.a", "libfoo.so"]);
    assert_eq!(find_lib(&listing, "foo", false), Some("libfoo.a".to_string()));
}

#[test]
fn both_kinds_dynamic_wins_under_inverted_policy() {
    let listing = names(&["libfoo.a", "libfoo.so"]);
    assert_eq!(find_lib(&listing, "foo", true), Some("libfoo.so".to_string()));
}

#[test]
fn only_dynamic_found_regardless_of_policy() {
    let listing = names(&["libfoo.so"]);
    assert_eq!(find_lib(&listing, "foo", false), Some("libfoo.so".to_string()));
    assert_eq!(find_lib(&listing, "foo", true), Some("libfoo.so".to_string()));
}

#[test]
fn only_static_found_regardless_of_policy() {
    let listing = names(&["libfoo.a"]);
    assert_eq!(find_lib(&listing, "foo", false), Some("libfoo.a".to_string()));
    assert_eq!(find_lib(&listing, "foo", true), Some("libfoo.a".to_string()));
}

#[test]
fn unrecognized_extensions_are_ignored() {
    let listing = names(&["libfoo.txt", "libfoo.dylib", "foo.a"]);
    assert_eq!(find_lib(&listing, "foo", false), None);
}

#[test]
fn prefix_must_follow_lib() {
    let listing = names(&["libboost_system.a", "boost_filesystem.a"]);
    assert_eq!(find_lib(&listing, "boost_filesystem", false), None);
    assert_eq!(
        find_lib(&listing, "boost_system", false),
        Some("libboost_system.a".to_string())
    );
}

#[test]
fn later_listing_entry_wins_within_a_kind() {
    let listing = names(&["libz.a", "libz2.a"]);
    assert_eq!(find_lib(&listing, "z", false), Some("libz2.a".to_string()));
}

#[test]
fn kind_classification_by_extension() {
    assert_eq!(lib_kind_of("libfoo.a"), Some(LibKind::Static));
    assert_eq!(lib_kind_of("libfoo.so"), Some(LibKind::Dynamic));
    assert_eq!(lib_kind_of("libfoo.dylib"), None);
    assert_eq!(lib_kind_of("libfoo"), None);
}

#[test]
fn stem_of_static_boost_component() {
    assert_eq!(stem_of("libboost_filesystem.a"), Some("boost_filesystem".to_string()));
}

#[test]
fn stem_of_dynamic_protobuf_lite() {
    assert_eq!(stem_of("libprotobuf-lite.so"), Some("protobuf-lite".to_string()));
}

#[test]
fn stem_absent_for_malformed_names() {
    assert_eq!(stem_of("boost_filesystem.txt"), None);
    assert_eq!(stem_of("boost_filesystem.a"), None);
    assert_eq!(stem_of("liblz4"), None);
}
