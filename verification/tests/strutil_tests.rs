//! Tests of the string utilities the resolver builds on.

use linkplan::config::join_colon;
use linkplan::strutil::{base_of, contains_str, dir_of, ends_with, replace_char, starts_with};
use linkplan::tokenize::{split_tokens, SepMode};

#[test]
fn dir_of_splits_at_last_separator() {
    assert_eq!(dir_of("/opt/lz4/lib/liblz4.a"), "/opt/lz4/lib".to_string());
    assert_eq!(dir_of("a/b"), "a".to_string());
}

#[test]
fn dir_of_degenerate_paths() {
    assert_eq!(dir_of("liblz4.a"), "".to_string());
    assert_eq!(dir_of("/liblz4.a"), "/".to_string());
    assert_eq!(dir_of(""), "".to_string());
}

#[test]
fn base_of_takes_the_final_component() {
    assert_eq!(base_of("/opt/lz4/lib/liblz4.a"), "liblz4.a".to_string());
    assert_eq!(base_of("liblz4.a"), "liblz4.a".to_string());
    assert_eq!(base_of("/x/"), "".to_string());
}

#[test]
fn replace_char_normalizes_triples() {
    assert_eq!(replace_char("armv7-linux-androideabi", '-', '_'), "armv7_linux_androideabi");
    assert_eq!(replace_char("nodash", '-', '_'), "nodash");
    assert_eq!(replace_char("", '-', '_'), "");
}

#[test]
fn prefix_and_suffix_tests() {
    assert!(starts_with("libboost_system.a", "libboost_"));
    assert!(!starts_with("lib", "libboost_"));
    assert!(ends_with("libfoo.so", ".so"));
    assert!(!ends_with("libfoo.so", ".a"));
}

#[test]
fn substring_search() {
    assert!(contains_str("armv7-linux-androideabi", "androideabi"));
    assert!(contains_str("x", ""));
    assert!(!contains_str("x86_64-unknown-linux-gnu", "android"));
}

#[test]
fn colon_split_drops_empty_elements() {
    let parts = split_tokens("/a::/b:", SepMode::Colon);
    assert_eq!(parts, vec!["/a".to_string(), "/b".to_string()]);
    assert!(split_tokens("", SepMode::Colon).is_empty());
    assert!(split_tokens(":::", SepMode::Colon).is_empty());
}

#[test]
fn whitespace_split_handles_mixed_blanks() {
    let parts = split_tokens(" cc\t-Ifoo  bar ", SepMode::Whitespace);
    assert_eq!(parts, vec!["cc".to_string(), "-Ifoo".to_string(), "bar".to_string()]);
}

#[test]
fn join_colon_round_trip() {
    let parts = vec!["/a".to_string(), "/b".to_string(), "/c".to_string()];
    let joined = join_colon(&parts);
    assert_eq!(joined, "/a:/b:/c".to_string());
    assert_eq!(split_tokens(&joined, SepMode::Colon), parts);
    assert_eq!(join_colon(&Vec::new()), "".to_string());
}
