use sctr::text::{has_dash_prefix, join_with_spaces, padded, str_eq};

#[test]
fn padding_fills_the_name_column() {
    assert_eq!(padded("app", 12), "app         ");
    assert_eq!(padded("", 3), "   ");
    assert_eq!(padded("restartable-long", 12), "restartable-long");
    assert_eq!(padded("twelve_chars", 12), "twelve_chars");
    assert_eq!(padded("é", 3), "é  ");
}

#[test]
fn joining_separates_words_with_single_spaces() {
    let words = |w: &[&str]| w.iter().map(|s| s.to_string()).collect::<Vec<String>>();
    assert_eq!(join_with_spaces(&words(&[])), "");
    assert_eq!(join_with_spaces(&words(&["app"])), "app");
    assert_eq!(join_with_spaces(&words(&["app", "start", "api"])), "app start api");
    assert_eq!(join_with_spaces(&words(&["", ""])), " ");
}

#[test]
fn dash_prefix_and_equality() {
    assert!(has_dash_prefix("-x"));
    assert!(has_dash_prefix("--help"));
    assert!(!has_dash_prefix("help"));
    assert!(!has_dash_prefix(""));
    assert!(str_eq("app", "app"));
    assert!(!str_eq("app", "App"));
    assert!(!str_eq("app", "apps"));
}
