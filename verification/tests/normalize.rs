use path_classifier::normalize_to_relative;

#[test]
fn strips_unix_root() {
    assert_eq!(normalize_to_relative("/repo/src/app.ts", "/repo"), "src/app.ts");
}

#[test]
fn strips_windows_root_and_rewrites_separators() {
    assert_eq!(normalize_to_relative("C:\\repo\\src\\app.ts", "C:\\repo"), "src/app.ts");
}

#[test]
fn relative_path_against_empty_root_is_unchanged() {
    assert_eq!(normalize_to_relative("src/app.ts", ""), "src/app.ts");
}

#[test]
fn normalizing_twice_changes_nothing() {
    let once = normalize_to_relative("C:\\repo\\\\src\\lib\\mod.rs", "C:\\repo");
    assert_eq!(once, "src/lib/mod.rs");
    let twice = normalize_to_relative(&once, "");
    assert_eq!(twice, once);
}

#[test]
fn path_equal_to_root_gives_empty_path() {
    assert_eq!(normalize_to_relative("/repo", "/repo"), "");
    assert_eq!(normalize_to_relative("/repo/", "/repo"), "");
    assert_eq!(normalize_to_relative("", ""), "");
}

#[test]
fn path_outside_root_is_kept_whole() {
    assert_eq!(normalize_to_relative("/other/src/app.ts", "/repo"), "/other/src/app.ts");
    assert_eq!(normalize_to_relative("D:\\work\\a.ts", "C:\\repo"), "D:/work/a.ts");
    assert_eq!(normalize_to_relative("src\\a.ts", "/repo"), "src/a.ts");
}

#[test]
fn root_longer_than_path_is_no_prefix() {
    assert_eq!(normalize_to_relative("/re", "/repo"), "/re");
    assert_eq!(normalize_to_relative("", "/repo"), "");
}

#[test]
fn every_leading_separator_is_dropped() {
    assert_eq!(normalize_to_relative("/repo///src/a.ts", "/repo"), "src/a.ts");
    assert_eq!(normalize_to_relative("/repo\\\\src\\a.ts", "/repo"), "src/a.ts");
    assert_eq!(normalize_to_relative("/repo/\\/\\src/a.ts", "/repo"), "src/a.ts");
    assert_eq!(normalize_to_relative("/repo\\/x", "/repo"), "x");
    assert_eq!(normalize_to_relative("/repo/\\/", "/repo"), "");
}

#[test]
fn leading_separator_goes_with_empty_root() {
    assert_eq!(normalize_to_relative("/src/app.ts", ""), "src/app.ts");
    assert_eq!(normalize_to_relative("\\src\\app.ts", ""), "src/app.ts");
}

#[test]
fn root_with_trailing_separator() {
    assert_eq!(normalize_to_relative("/repo/src/app.ts", "/repo/"), "src/app.ts");
    assert_eq!(normalize_to_relative("C:\\repo\\src\\app.ts", "C:\\repo\\"), "src/app.ts");
}

#[test]
fn prefix_is_textual_not_by_component() {
    assert_eq!(normalize_to_relative("/repository/a.ts", "/repo"), "sitory/a.ts");
}

#[test]
fn dot_segments_are_not_collapsed() {
    assert_eq!(normalize_to_relative("/repo/./src/../a.ts", "/repo"), "./src/../a.ts");
}

#[test]
fn inner_separators_are_kept() {
    assert_eq!(normalize_to_relative("/repo/src//a.ts", "/repo"), "src//a.ts");
    assert_eq!(normalize_to_relative("/repo/src\\\\a.ts", "/repo"), "src//a.ts");
}

#[test]
fn characters_beyond_ascii_are_kept() {
    assert_eq!(normalize_to_relative("/dépôt/src/é\\ü.ts", "/dépôt"), "src/é/ü.ts");
    assert_eq!(normalize_to_relative("/repo/日本語/ファイル.ts", "/repo"), "日本語/ファイル.ts");
    assert_eq!(normalize_to_relative("/dépot/a", "/dépôt"), "/dépot/a");
}

#[test]
fn result_under_root_is_relative() {
    let cases = [
        ("/repo/src/app.ts", "/repo"),
        ("C:\\repo\\src\\app.ts", "C:\\repo"),
        ("/repo//\\\\//x\\y", "/repo"),
        ("\\\\server\\share\\f", ""),
        ("/", ""),
        ("/repo", "/repo"),
    ];
    for (path, root) in cases {
        assert!(path.starts_with(root));
        let relative = normalize_to_relative(path, root);
        assert!(!relative.contains('\\'));
        assert!(!relative.starts_with('/'));
    }
}

#[test]
fn result_never_holds_a_backslash() {
    let relative = normalize_to_relative("\\\\a\\b\\", "/nowhere");
    assert_eq!(relative, "//a/b/");
}
