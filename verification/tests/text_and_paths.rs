use elowen_edge::paths;
use elowen_edge::paths::PathStyle;
use elowen_edge::text;
use std::path::Path;

const SAMPLES: [&str; 34] = [
    "", "/", "//", ".", "./", "..", "../", "a", "a/", "/a", "/a/", "a/b", "a//b", "a/./b", "./a",
    "./a/b", "/./a", "/a/./b/", "/..", "../a", "a/..", "a/../b", "/a/b/c", "a/b/c/", ".git",
    "/srv/repos/.git", "a b/c", "/tmp//x/./y/..", "...", "/...", "a.b", "/a.b/", "é/ü", "//a",
];

#[test]
fn white_space_is_that_of_the_standard_library() {
    for code in 0..=0x10ffffu32 {
        if let Some(c) = char::from_u32(code) {
            assert_eq!(text::is_space(c), c.is_whitespace(), "{code:x}");
        }
    }
}

#[test]
fn trimming_is_that_of_the_standard_library() {
    for s in ["", " ", "a", " a", "a ", "\t a b \n", "\u{2003}x\u{3000}", "\u{200b}x", "  \r\n "] {
        assert_eq!(text::trimmed_text(s), s.trim());
        assert_eq!(text::trimmed_end(s), s.trim_end());
        let once = text::trimmed_text(s);
        assert_eq!(text::trimmed_text(&once), once);
    }
}

#[test]
fn lines_are_those_of_the_standard_library() {
    for s in ["", "\n", "a", "a\n", "a\nb", "a\r\nb\r\n", "a\r", "\r\n", "a\n\nb", "\n\n", "a\r\r\n"] {
        let expected: Vec<String> = s.lines().map(|line| line.to_string()).collect();
        assert_eq!(text::text_lines(s), expected, "{s:?}");
        let pieces: Vec<String> = s.split('\n').map(|line| line.to_string()).collect();
        assert_eq!(text::split_text(s, '\n'), pieces, "{s:?}");
    }
}

#[test]
fn lower_case_folds_ascii_only() {
    for s in ["ABC", "AbC-1", "ÄÖ", "Zz[", "@A", ""] {
        assert_eq!(text::lowered(s), s.to_ascii_lowercase());
    }
}

#[test]
fn numbers_are_read_and_written() {
    for n in [0u64, 1, 9, 10, 99, 100, 12345, u64::MAX] {
        assert_eq!(text::decimal_text(n), n.to_string());
        assert_eq!(text::parse_u64(&text::decimal_text(n)), Some(n));
    }
    for s in ["", "+", "-1", "+7", "007", " 1", "1 ", "1x", "18446744073709551615",
        "18446744073709551616", "99999999999999999999", "++1"] {
        assert_eq!(text::parse_u64(s), s.parse::<u64>().ok(), "{s:?}");
    }
}

#[test]
fn search_and_order_are_those_of_the_standard_library() {
    let words = ["", "a", "ab", "b", "abc", "aab", "ba", "é", "z", "aé"];
    for a in words {
        for b in words {
            assert_eq!(text::text_before(a, b), a < b);
            assert_eq!(text::begins_with(a, b), a.starts_with(b));
            assert_eq!(text::has_text(a, b), a.contains(b));
            assert_eq!(
                text::without_prefix(a, b),
                a.strip_prefix(b).map(|rest| rest.to_string())
            );
        }
    }
    for s in ["", "x", "a->b", "a->b->c", "->", "a ->", "a-->b"] {
        assert_eq!(
            text::text_after_last(s, "->"),
            s.rsplit_once("->").map(|(_, rest)| rest.to_string()),
            "{s:?}"
        );
        for n in 0..6usize {
            assert_eq!(text::text_after_bytes(s, n), s.get(n..).map(|rest| rest.to_string()));
        }
    }
    for s in ["é", "aé", "aaé", "日本", "a日", "🦀x"] {
        for n in 0..8usize {
            assert_eq!(text::text_after_bytes(s, n), s.get(n..).map(|rest| rest.to_string()));
        }
    }
}

#[test]
fn long_texts_are_cut_with_an_ellipsis() {
    assert_eq!(text::truncate_text("abcdef", 3), "abc...");
    assert_eq!(text::truncate_text("abc", 3), "abc");
    assert_eq!(text::truncate_text("  abc  ", 3), "abc...");
    assert_eq!(text::truncate_text("  abc  ", 7), "abc");
    assert_eq!(text::truncate_text("äöü", 2), "äö...");
    assert_eq!(text::truncate_text("", 0), "");
}

#[test]
fn lists_are_trimmed_and_joined() {
    let list = vec![" a ".to_string(), "".to_string(), "b".to_string(), "  ".to_string()];
    assert_eq!(text::trim_entries(&list), vec!["a".to_string(), "b".to_string()]);
    assert_eq!(text::join_texts(&text::trim_entries(&list), ", "), "a, b");
    assert_eq!(text::join_texts(&Vec::new(), ", "), "");
    assert!(text::list_has(&list, "b"));
    assert!(!text::list_has(&list, "a"));
}

#[test]
fn paths_are_taken_apart_like_the_standard_library_does() {
    for s in SAMPLES {
        let path = Path::new(s);
        let expected: Vec<String> = path
            .components()
            .map(|part| part.as_os_str().to_str().unwrap().to_string())
            .collect();
        assert_eq!(paths::path_components(PathStyle::Posix, s), expected, "{s:?}");
        assert_eq!(paths::path_is_absolute(PathStyle::Posix, s), path.is_absolute(), "{s:?}");
        assert_eq!(
            paths::path_file_name(PathStyle::Posix, s),
            path.file_name().map(|name| name.to_str().unwrap().to_string()),
            "{s:?}"
        );
        assert_eq!(
            paths::path_parent(PathStyle::Posix, s),
            path.parent().map(|dir| dir.to_str().unwrap().to_string()),
            "{s:?}"
        );
    }
}

#[test]
fn paths_are_joined_and_compared_like_the_standard_library_does() {
    for a in SAMPLES {
        for b in SAMPLES {
            assert_eq!(
                paths::join_path(PathStyle::Posix, a, b),
                Path::new(a).join(b).to_str().unwrap(),
                "{a:?} {b:?}"
            );
            assert_eq!(
                paths::paths_match(PathStyle::Posix, a, b),
                Path::new(a) == Path::new(b),
                "{a:?} {b:?}"
            );
            assert_eq!(
                paths::path_within(PathStyle::Posix, a, b),
                Path::new(a).starts_with(b),
                "{a:?} {b:?}"
            );
        }
    }
}

#[test]
fn joined_paths_stay_within_their_base() {
    let style = PathStyle::Posix;
    for base in ["/srv", "/srv/", "repos", "./x"] {
        for name in ["a", "a/b", "."] {
            assert!(paths::path_within(style, &paths::join_path(style, base, name), base));
        }
        assert!(!paths::path_within(style, &paths::join_path(style, base, "/etc"), base));
    }
    let style = PathStyle::Windows;
    for base in [
        r"C:\w",
        r"C:\w\",
        "C:",
        r"\\server\share",
        r"\\server\share\x",
        r"\\?\C:\w",
        r"\\?\C:",
        r"\\?\UNC\server\share\w",
        r"\\.\COM1",
        r"a\b",
        "",
    ] {
        for name in ["a", r"a\b", "a/b", "."] {
            assert!(
                paths::path_within(style, &paths::join_path(style, base, name), base),
                "{base:?} {name:?}"
            );
        }
    }
    let bases = vec!["/srv/a".to_string(), "/srv/b".to_string()];
    assert!(paths::path_within_any(PathStyle::Posix, "/srv/b/c", &bases));
    assert!(!paths::path_within_any(PathStyle::Posix, "/srv/bc", &bases));
    assert!(!paths::path_within_any(PathStyle::Posix, "/srv", &Vec::new()));
}

fn windows_parts(path: &str) -> String {
    paths::path_components(PathStyle::Windows, path).join(" ")
}

#[test]
fn windows_paths_are_taken_apart() {
    assert_eq!(windows_parts(r"C:\a\b"), r"C: \ a b");
    assert_eq!(windows_parts("c:/a/./b//"), r"C: \ a b");
    assert_eq!(windows_parts("C:a"), "C: a");
    assert_eq!(windows_parts("C:"), "C:");
    assert_eq!(windows_parts("C:."), "C:");
    assert_eq!(windows_parts(r"\a"), r"\ a");
    assert_eq!(windows_parts(r".\a"), ". a");
    assert_eq!(windows_parts(r"a\..\b"), "a .. b");
    assert_eq!(windows_parts(""), "");
    assert_eq!(windows_parts(r"\\server\share\a"), r"//server/share \ a");
    assert_eq!(windows_parts(r"\\server\share"), r"//server/share \");
    assert_eq!(windows_parts("//server/share/a"), r"//server/share \ a");
    assert_eq!(windows_parts(r"\\server"), r"\ server");
    assert_eq!(windows_parts(r"\\.\COM1"), r"\\.\COM1 \");
    assert_eq!(windows_parts(r"\\?\c:\a\.\b/c"), r"\\?\C: \ a . b/c");
    assert_eq!(windows_parts(r"\\?\UNC\server\share\a"), r"\\?\UNC\server\share \ a");
    assert_eq!(windows_parts(r"\\?\pictures\a"), r"\\?\pictures \ a");
    assert_eq!(windows_parts("//?/C:/a"), r"//?/C: \ a");
}

#[test]
fn windows_paths_are_absolute_with_a_volume_and_a_root() {
    let absolute = |path: &str| paths::path_is_absolute(PathStyle::Windows, path);
    for path in [r"C:\", "c:/a", r"\\server\share", r"\\?\C:", r"\\.\COM1", r"\\?\a"] {
        assert!(absolute(path), "{path:?}");
    }
    for path in ["", "a", r"\a", "/a", "C:a", "C:", r"\\server", "ab:/c", "1:/c"] {
        assert!(!absolute(path), "{path:?}");
    }
}

#[test]
fn windows_paths_are_joined() {
    let join = |base: &str, path: &str| paths::join_path(PathStyle::Windows, base, path);
    assert_eq!(join(r"C:\base", r"C:\x"), r"C:\x");
    assert_eq!(join(r"C:\base", r"D:x"), "D:x");
    assert_eq!(join(r"C:\base", "x"), r"C:\base\x");
    assert_eq!(join(r"C:\base\", "x"), r"C:\base\x");
    assert_eq!(join("C:/base/", "x/y"), "C:/base/x/y");
    assert_eq!(join("C:", "x"), "C:x");
    assert_eq!(join(r"C:\base", r"\x"), r"C:\x");
    assert_eq!(join(r"\\server\share\a", "/x"), r"\\server\share/x");
    assert_eq!(join("a", "b"), r"a\b");
    assert_eq!(join("", "b"), "b");
    assert_eq!(join("a", ""), r"a\");
    assert_eq!(join(r"\\?\C:\base", "x/y"), r"\\?\C:\base\x\y");
    assert_eq!(join(r"\\?\C:\base\a", r"..\x"), r"\\?\C:\base\x");
    assert_eq!(join(r"\\?\C:\", r"..\x"), r"\\?\C:\x");
    assert_eq!(join(r"\\?\C:\base", r"\x"), r"\\?\C:\x");
    assert_eq!(join(r"\\?\C:\base", r".\x"), r"\\?\C:\base\x");
    assert_eq!(join(r"\\?\C:\base", ""), r"\\?\C:\base\");
}

#[test]
fn windows_paths_have_parents_and_names() {
    let parent = |path: &str| paths::path_parent(PathStyle::Windows, path);
    assert_eq!(parent(r"C:\dir\edge.toml").as_deref(), Some(r"C:\dir"));
    assert_eq!(parent("C:/dir//edge.toml/").as_deref(), Some("C:/dir"));
    assert_eq!(parent(r"C:\a").as_deref(), Some(r"C:\"));
    assert_eq!(parent("C:a").as_deref(), Some("C:"));
    assert_eq!(parent(r"C:\"), None);
    assert_eq!(parent("C:"), None);
    assert_eq!(parent(r"\\server\share\a").as_deref(), Some(r"\\server\share\"));
    assert_eq!(parent(r"\\server\share"), None);
    assert_eq!(parent(r"\\?\C:\a\b").as_deref(), Some(r"\\?\C:\a"));
    assert_eq!(parent(r"\a").as_deref(), Some(r"\"));
    assert_eq!(parent("a").as_deref(), Some(""));
    assert_eq!(parent(".").as_deref(), Some(""));
    assert_eq!(parent(""), None);

    let name = |path: &str| paths::path_file_name(PathStyle::Windows, path);
    assert_eq!(name(r"C:\tools\cargo.exe").as_deref(), Some("cargo.exe"));
    assert_eq!(name("C:cargo.exe").as_deref(), Some("cargo.exe"));
    assert_eq!(name(r"C:\"), None);
    assert_eq!(name(r"\\server\share"), None);
    assert_eq!(name(r"a\.."), None);
    assert_eq!(name(r"\\?\C:\a\."), None);
    assert_eq!(name(r"\\?\C:\a/b").as_deref(), Some("a/b"));
}

#[test]
fn windows_paths_are_compared() {
    let style = PathStyle::Windows;
    assert!(paths::paths_match(style, r"c:\a\b", "C:/a//b/"));
    assert!(!paths::paths_match(style, r"C:\a", r"C:\A"));
    assert!(!paths::paths_match(style, r"C:\a", "C:a"));
    assert!(!paths::paths_match(style, r"C:\a", r"\\?\C:\a"));
    assert!(!paths::paths_match(style, "//?/share/a", r"\\?\share\a"));
    assert!(paths::path_within(style, r"\\?\C:\w\x", r"\\?\C:\w"));
    assert!(!paths::path_within(style, r"\\?\C:\wx", r"\\?\C:\w"));
    assert!(!paths::path_within(style, r"\\?\D:\w\x", r"\\?\C:\w"));
    assert!(!paths::path_within(PathStyle::Posix, r"\\?\C:\w\x", r"\\?\C:\w"));
    let bases = vec![r"C:\srv\a".to_string()];
    assert!(paths::path_within_any(style, r"C:\srv\a\private", &bases));
    assert!(!paths::path_within_any(style, r"C:\srv\ab", &bases));
}
