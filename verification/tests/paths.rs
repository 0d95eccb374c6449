use filewatcher::encoding::encode_path;
use filewatcher::paths::{change_to, current_file_url, fix_path, seen_change, url_of_slashed, Platform};
use filewatcher::task::Change;
use filewatcher::text::decimal_text;

#[test]
fn parts_of_paths_are_encoded() {
    assert_eq!(encode_path(""), "");
    assert_eq!(encode_path("/"), "/");
    assert_eq!(encode_path("/home/me/a-b_c.d~1"), "/home/me/a-b_c.d~1");
    assert_eq!(encode_path("a b//c?d/"), "a%20b//c%3Fd/");
    assert_eq!(encode_path("C:/x"), "C%3A/x");
    assert_eq!(encode_path("ü/€/😀"), "%C3%BC/%E2%82%AC/%F0%9F%98%80");
    assert_eq!(encode_path("100%"), "100%25");
}

#[test]
fn encoded_paths_decode_to_the_path() {
    for path in ["/tmp/a b/%41/ü.py", "", "///", "'\"<>&+"] {
        let encoded = encode_path(path);
        assert_eq!(urlencoding::decode(&encoded).unwrap(), path);
        assert_eq!(encoded.matches('/').count(), path.matches('/').count());
        for special in ['\'', '"', '<', '>', '&'] {
            assert!(!encoded.contains(special));
        }
    }
}

#[test]
fn files_have_urls() {
    assert_eq!(
        current_file_url("/tmp/my dir/test.py"),
        "/fw/fsc//tmp/my%20dir/test.py"
    );
    // The named parts are kept, whatever separators there are.
    for path in ["/a/./b//c", r"\\?\C:\Users\me\x.py", r"C:\a\..\b.py", "./x"] {
        let url = current_file_url(path);
        let slashed = urlencoding::decode(url.strip_prefix("/fw/fsc/").unwrap()).unwrap();
        let named = |path: &str| -> Vec<String> {
            path.split(['/', '\\'])
                .filter(|part| !part.is_empty() && *part != ".")
                .map(str::to_string)
                .collect()
        };
        let given = path.strip_prefix(r"\\?\").unwrap_or(path);
        assert!(named(&slashed) == named(path) || named(&slashed) == named(given));
    }
    assert_eq!(url_of_slashed("C:/a/b.c"), "/fw/fsc/C%3A/a/b.c");
    assert_eq!(url_of_slashed(""), "/fw/fsc/");
}

#[test]
fn paths_are_fixed_for_the_platform() {
    assert_eq!(fix_path(Platform::Unix, "a").as_deref(), Some("/a"));
    assert_eq!(fix_path(Platform::Unix, "").as_deref(), Some("/"));
    assert_eq!(fix_path(Platform::Windows, "").as_deref(), None);
    assert_eq!(fix_path(Platform::Windows, "c:").as_deref(), Some("c:/"));
    assert_eq!(fix_path(Platform::Windows, "c:/").as_deref(), Some("c:/"));
    assert_eq!(fix_path(Platform::Windows, "c").as_deref(), Some("c"));
}

#[test]
fn changes_are_judged_by_their_only_path() {
    let path = |path: &str| Some(path.to_string());
    let change = |modified, watched| Change { modified, watched };
    assert_eq!(change_to("/a/b", true, &vec![path("/a/b")]), change(true, true));
    assert_eq!(change_to("/a/b", false, &vec![path("/a/b")]), change(false, true));
    assert_eq!(change_to("/a/b", true, &vec![path("/a/c")]), change(true, false));
    assert_eq!(change_to("/a/b", true, &vec![]), change(true, false));
    assert_eq!(
        change_to("/a/b", true, &vec![path("/a/b"), path("/a/b")]),
        change(true, false)
    );
    assert_eq!(change_to("/a/b", true, &vec![None]), change(true, false));
    let windows = r"\\?\C:\a\b.py";
    assert_eq!(
        change_to(windows, true, &vec![path(windows)]),
        change(true, true)
    );
    assert_eq!(
        change_to(windows, true, &vec![path(r"\\?\C:\a\c.py")]),
        change(true, false)
    );
    assert_eq!(change_to("/a:b", true, &vec![path("/a:c")]), change(true, false));
    assert_eq!(change_to("/a/b", true, &vec![path("/a//./b/")]), change(true, true));
    assert_eq!(seen_change(true, 1, true), change(true, true));
    assert_eq!(seen_change(true, 1, false), change(true, false));
    assert_eq!(seen_change(true, 2, true), change(true, false));
}

#[test]
fn spellings_of_a_path_are_the_same_path() {
    let same = |watched: &str, path: &str| change_to(watched, true, &vec![Some(path.to_string())]).watched;
    for path in ["/a/b", "/a//b", "/a/b/", "/a/./b", "/./a/b/.", "/a/b//"] {
        assert!(same("/a/b", path), "{path}");
        assert!(same(path, "/a/b"), "{path}");
    }
    for path in ["a/b", "./a/b", "/a/b/..", "/a/B", "/a/b/c", "/ab", "/a", "/"] {
        assert!(!same("/a/b", path), "{path}");
    }
    assert!(same("a/b", "a//./b/"));
    assert!(same("./a", ".//a/."));
    assert!(same(".", "./"));
    assert!(same("/", "/."));
    assert!(!same("a", "./a"));
    assert!(!same("", "."));
}

#[test]
fn only_windows_has_its_own_separators() {
    let path = r"\\?\UNC\server\share\f";
    let url = current_file_url(path);
    let slashed = urlencoding::decode(url.strip_prefix("/fw/fsc/").unwrap()).unwrap();
    if std::path::MAIN_SEPARATOR == '\\' {
        assert_eq!(slashed, r"\\?\UNC\server\share/f");
    } else {
        assert_eq!(slashed, path);
    }
}

#[test]
fn numbers_are_written_in_decimal() {
    assert_eq!(decimal_text(0), "0");
    assert_eq!(decimal_text(9), "9");
    assert_eq!(decimal_text(10), "10");
    assert_eq!(decimal_text(1203), "1203");
    assert_eq!(decimal_text(u32::MAX), "4294967295");
}
