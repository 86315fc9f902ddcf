use profcollectd::artifact::{
    add_extension, file_name_at, has_extension, join_path, replace_extension,
};

#[test]
fn join_adds_a_separator_where_the_directory_has_none() {
    assert_eq!(join_path("/data/trace", "a.etmtrace"), "/data/trace/a.etmtrace");
}

#[test]
fn join_keeps_the_separator_of_the_directory() {
    assert_eq!(join_path("/data/trace/", "a.etmtrace"), "/data/trace/a.etmtrace");
    assert_eq!(join_path("/", "a"), "/a");
}

#[test]
fn join_with_an_empty_directory_is_the_name() {
    assert_eq!(join_path("", "a"), "a");
}

#[test]
fn file_name_is_stamp_underscore_tag() {
    assert_eq!(file_name_at(1700000000, "boot"), "1700000000_boot");
    assert_eq!(file_name_at(0, "periodic"), "0_periodic");
}

#[test]
fn file_name_with_an_empty_tag_ends_in_the_underscore() {
    assert_eq!(file_name_at(12, ""), "12_");
}

#[test]
fn file_name_keeps_a_tag_with_dots_and_underscores() {
    assert_eq!(file_name_at(5, "a.b_c"), "5_a.b_c");
}

#[test]
fn add_extension_appends_after_a_dot() {
    assert_eq!(add_extension("1700000000_boot", "etmtrace"), "1700000000_boot.etmtrace");
    assert_eq!(add_extension("5_a.b", "etmtrace"), "5_a.b.etmtrace");
}

#[test]
fn extension_is_what_follows_the_last_dot() {
    assert!(has_extension("1_boot.etmtrace", "etmtrace"));
    assert!(has_extension("1_a.b.etmtrace", "etmtrace"));
    assert!(!has_extension("1_boot.etmtrace.bak", "etmtrace"));
    assert!(!has_extension("1_boot.etmtrace", "data"));
    assert!(!has_extension("1_boot.etmtrac", "etmtrace"));
    assert!(!has_extension("1_boot.xetmtrace", "etmtrace"));
}

#[test]
fn a_name_without_a_dot_has_no_extension() {
    assert!(!has_extension("etmtrace", "etmtrace"));
    assert!(!has_extension("", ""));
    assert!(!has_extension("abc", ""));
}

#[test]
fn a_leading_dot_starts_no_extension() {
    assert!(!has_extension(".etmtrace", "etmtrace"));
    assert!(has_extension(".a.etmtrace", "etmtrace"));
}

#[test]
fn a_trailing_dot_gives_the_empty_extension() {
    assert!(has_extension("abc.", ""));
    assert!(!has_extension("abc.", "abc"));
}

#[test]
fn replace_extension_trades_the_last_extension() {
    assert_eq!(replace_extension("1_boot.etmtrace", "data"), "1_boot.data");
    assert_eq!(replace_extension("1_a.b.etmtrace", "data"), "1_a.b.data");
}

#[test]
fn replace_extension_adds_one_where_there_is_none() {
    assert_eq!(replace_extension("noext", "data"), "noext.data");
    assert_eq!(replace_extension(".hidden", "data"), ".hidden.data");
    assert_eq!(replace_extension("", "data"), ".data");
}

#[test]
fn replace_extension_handles_other_scripts() {
    assert_eq!(replace_extension("trâce·1.etmtrace", "data"), "trâce·1.data");
    assert!(has_extension("trâce·1.etmtrace", "etmtrace"));
}

#[test]
fn profile_name_of_a_trace_keeps_stamp_and_tag() {
    let trace = add_extension(&file_name_at(1700000000, "manual"), "etmtrace");
    assert!(has_extension(&trace, "etmtrace"));
    assert_eq!(replace_extension(&trace, "data"), "1700000000_manual.data");
}
