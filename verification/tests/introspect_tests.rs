//! Tests of compile-command introspection.

use linkplan::introspect::{extract_includes, CompileRecord};

fn record(file: &str, command: &str) -> CompileRecord {
    CompileRecord { file: file.to_string(), command: command.to_string() }
}

#[test]
fn extracts_both_include_flag_forms_in_order() {
    let records = vec![record("/src/valhalla/config.cc", "cc -Ifoo -isystem bar -c config.cc")];
    let includes = extract_includes(&records, "config.cc");
    assert_eq!(includes, Some(vec!["foo".to_string(), "bar".to_string()]));
}

#[test]
fn no_matching_record_yields_no_partial_result() {
    let records = vec![
        record("/src/other.cc", "cc -Ifoo -c other.cc"),
        record("/src/more.cc", "cc -Ibar -c more.cc"),
    ];
    assert_eq!(extract_includes(&records, "config.cc"), None);
}

#[test]
fn empty_database_yields_none() {
    assert_eq!(extract_includes(&Vec::new(), "config.cc"), None);
}

#[test]
fn first_matching_record_is_used() {
    let records = vec![
        record("/a/config.cc", "cc -Ifirst -c a.cc"),
        record("/b/config.cc", "cc -Isecond -c b.cc"),
    ];
    assert_eq!(extract_includes(&records, "config.cc"), Some(vec!["first".to_string()]));
}

#[test]
fn match_is_on_file_suffix() {
    let records = vec![record("/deep/nested/path/config.cc", "cc -Ix -c config.cc")];
    assert_eq!(extract_includes(&records, "config.cc"), Some(vec!["x".to_string()]));
    assert_eq!(extract_includes(&records, "missing.cc"), None);
}

#[test]
fn include_order_is_preserved() {
    let records = vec![record(
        "config.cc",
        "c++ -isystem /sys/inc -I/one -DFLAG -I/two -o out -isystem /sys/other config.cc",
    )];
    let includes = extract_includes(&records, "config.cc");
    assert_eq!(
        includes,
        Some(vec![
            "/sys/inc".to_string(),
            "/one".to_string(),
            "/two".to_string(),
            "/sys/other".to_string(),
        ])
    );
}

#[test]
fn trailing_isystem_without_argument_is_ignored() {
    let records = vec![record("config.cc", "cc -Ifoo -isystem")];
    assert_eq!(extract_includes(&records, "config.cc"), Some(vec!["foo".to_string()]));
}

#[test]
fn repeated_whitespace_does_not_create_tokens() {
    let records = vec![record("config.cc", "cc   -Ifoo\t-isystem\t bar  ")];
    assert_eq!(
        extract_includes(&records, "config.cc"),
        Some(vec!["foo".to_string(), "bar".to_string()])
    );
}
