use flus::paths::{join_path, remove_extension, to_chars, trim};

#[test]
fn join_relative_adds_separator() {
    assert_eq!(join_path("project", "lib"), "project/lib");
}

#[test]
fn join_keeps_existing_separator() {
    assert_eq!(join_path("project/", "lib"), "project/lib");
}

#[test]
fn join_onto_empty_base() {
    assert_eq!(join_path("", "lib"), "lib");
}

#[test]
fn join_absolute_replaces_base() {
    assert_eq!(join_path("project", "/etc/hosts"), "/etc/hosts");
}

#[test]
fn join_empty_path_ends_with_separator() {
    assert_eq!(join_path("project", ""), "project/");
}

#[test]
fn join_agrees_with_std() {
    for (base, path) in [("a", "b"), ("a/", "b/c"), ("", "x"), ("/", "y"), ("a", "/z"), ("a//", "b")] {
        let expected = std::path::Path::new(base).join(path).display().to_string();
        assert_eq!(join_path(base, path), expected);
    }
}

#[test]
fn remove_extension_drops_last_extension_only() {
    assert_eq!(remove_extension("auth/login.dart.tera"), "auth/login.dart");
}

#[test]
fn remove_extension_keeps_hidden_file() {
    assert_eq!(remove_extension("dir/.hidden"), "dir/.hidden");
}

#[test]
fn remove_extension_ignores_dots_in_directories() {
    assert_eq!(remove_extension("dir.x/file"), "dir.x/file");
}

#[test]
fn remove_extension_of_trailing_dot() {
    assert_eq!(remove_extension("name."), "name");
}

#[test]
fn remove_extension_keeps_parent_dir() {
    assert_eq!(remove_extension("a/.."), "a/..");
}

#[test]
fn remove_extension_agrees_with_std() {
    for p in ["x.tar.gz", "a/b/c.txt", "noext", ".bashrc", "a/.x.y", "...", "a..b"] {
        let mut expected = std::path::PathBuf::from(p);
        expected.set_extension("");
        assert_eq!(remove_extension(p), expected.display().to_string());
    }
}

#[test]
fn remove_extension_of_paths_without_plain_file_name() {
    assert_eq!(remove_extension("a/b.txt/"), "a/b");
    assert_eq!(remove_extension("a/b.txt/."), "a/b");
    assert_eq!(remove_extension("."), ".");
    assert_eq!(remove_extension("/"), "/");
    assert_eq!(remove_extension(""), "");
}

#[test]
fn remove_extension_agrees_with_std_everywhere() {
    for p in [
        "", ".", "./", "/", "//", "..", "a/..", "a/../", "a/b.txt/", "a/b.txt//", "a/b.txt/./",
        "./x.y", "/x.y", "x/.hidden.tar", "a/./", ".//.", "a.b/./.", "a/.../", "x./",
    ] {
        let mut expected = std::path::PathBuf::from(p);
        expected.set_extension("");
        assert_eq!(remove_extension(p), expected.display().to_string(), "path {:?}", p);
    }
}

#[test]
fn trim_removes_unicode_whitespace() {
    assert_eq!(trim("  hi there \n"), "hi there");
    assert_eq!(trim("\u{3000}x\u{85}"), "x");
    assert_eq!(trim(" \t\n "), "");
}

#[test]
fn trim_agrees_with_std() {
    for s in ["", " a ", "\u{2028}b\u{a0}", "c\r\n", "\u{200b}d"] {
        assert_eq!(trim(s), s.trim());
    }
}

#[test]
fn trim_is_idempotent() {
    let once = trim("\t x y \u{1680}");
    assert_eq!(trim(&once), once);
}

#[test]
fn chars_of_string() {
    assert_eq!(to_chars("añb"), vec!['a', 'ñ', 'b']);
}
