use std::path::PathBuf;

use filewatcher::browser::{
    dir_listing, filewatcher_root_fs_redirect, list_drives, serve_filewatcher_fs, Destination, Found, Scan,
    ScanEvent, ScanStep, Visit, VisitAction,
};
use filewatcher::names::{sort_names, FileName};
use filewatcher::paths::{fix_path, Platform};
use filewatcher::serving::HttpReply;

fn text(name: &str) -> FileName {
    FileName::Text(name.to_string())
}

fn raw(bytes: &[u8], shown: &str) -> FileName {
    FileName::Raw {
        bytes: bytes.to_vec(),
        shown: shown.to_string(),
    }
}

fn scan(platform: Platform, web_path: &str, dirs: Vec<FileName>, files: Vec<FileName>) -> HttpReply {
    let mut scan = Scan::new(platform, web_path.to_string(), "/shown".to_string());
    let entries = dirs
        .into_iter()
        .map(|name| (name, false))
        .chain(files.into_iter().map(|name| (name, true)));
    for (name, is_file) in entries {
        scan = match dir_listing(scan, ScanEvent::Entry { name, is_file }) {
            ScanStep::Next(scan) => scan,
            ScanStep::Reply(reply) => panic!("unexpected {reply:?}"),
        };
    }
    end(scan, ScanEvent::End)
}

fn end(scan: Scan, event: ScanEvent) -> HttpReply {
    match dir_listing(scan, event) {
        ScanStep::Reply(reply) => reply,
        ScanStep::Next(scan) => panic!("unexpected {scan:?}"),
    }
}

fn not_found(body: &str) -> HttpReply {
    HttpReply::NotFound(body.to_string())
}

#[test]
fn the_root_redirects_to_the_browser() {
    assert_eq!(
        filewatcher_root_fs_redirect(),
        HttpReply::Redirect("/fw/fsb/".to_string())
    );
}

#[test]
fn visits_resolve_paths() {
    let visit = |platform, web_path: &str| {
        let visit = Visit::Requested {
            platform,
            web_path: web_path.to_string(),
        };
        match serve_filewatcher_fs(visit) {
            VisitAction::Resolve(destination) => {
                assert_eq!(destination.platform, platform);
                assert_eq!(destination.web_path, web_path);
                destination.fixed_path
            }
            other => panic!("unexpected {other:?}"),
        }
    };
    let resolve = |path: &str| path.to_string();
    assert_eq!(visit(Platform::Unix, ""), resolve("/"));
    assert_eq!(
        visit(Platform::Unix, "a/path/to/file.txt"),
        resolve("/a/path/to/file.txt")
    );
    assert_eq!(visit(Platform::Unix, "C:"), resolve("/C:"));
    assert_eq!(
        serve_filewatcher_fs(Visit::Requested {
            platform: Platform::Windows,
            web_path: "".to_string()
        }),
        VisitAction::ListDrives
    );
    assert_eq!(visit(Platform::Windows, "C:"), resolve("C:/"));
    assert_eq!(visit(Platform::Windows, "z:"), resolve("z:/"));
    assert_eq!(visit(Platform::Windows, "C:\n"), resolve("C:\n"));
    assert_eq!(visit(Platform::Windows, "CC:"), resolve("CC:"));
    assert_eq!(visit(Platform::Windows, "C:/a"), resolve("C:/a"));
    assert_eq!(visit(Platform::Windows, "1:"), resolve("1:"));
    assert_eq!(visit(Platform::Windows, "é:"), resolve("é:"));
}

#[test]
fn visits_end_with_what_was_found() {
    let visit = |found| {
        serve_filewatcher_fs(Visit::Resolved {
            destination: Destination {
                platform: Platform::Unix,
                web_path: "a".to_string(),
                fixed_path: "/a".to_string(),
            },
            found,
        })
    };
    assert_eq!(
        visit(Found::Directory {
            path: PathBuf::from("/canonical"),
            shown_path: "/shown".to_string()
        }),
        VisitAction::ListDirectory {
            path: PathBuf::from("/canonical"),
            scan: Scan::new(Platform::Unix, "a".to_string(), "/shown".to_string())
        }
    );
    assert_eq!(
        visit(Found::File {
            path: PathBuf::from("/canonical.py")
        }),
        VisitAction::OpenFile {
            path: PathBuf::from("/canonical.py"),
            websocket: "fw/ws".to_string()
        }
    );
    assert_eq!(
        visit(Found::NotValid("gone".to_string())),
        VisitAction::Reply(not_found(
            "<p>The requested path <code>/a</code> is not valid: gone.</p>"
        ))
    );
    assert_eq!(
        visit(Found::Other("/dev/x".to_string())),
        VisitAction::Reply(not_found(
            "<p>The requested path <code>/dev/x</code> is not a directory or a file.</p>"
        ))
    );
}

#[test]
fn directories_are_listed_for_the_path_as_it_came() {
    for (web_path, canonical) in [("", "/"), ("home/u", "/home/u")] {
        let requested = Visit::Requested {
            platform: Platform::Unix,
            web_path: web_path.to_string(),
        };
        let destination = match serve_filewatcher_fs(requested) {
            VisitAction::Resolve(destination) => destination,
            other => panic!("unexpected {other:?}"),
        };
        assert_eq!(destination.fixed_path, canonical);
        let found = Found::Directory {
            path: PathBuf::from(canonical),
            shown_path: canonical.to_string(),
        };
        assert_eq!(
            serve_filewatcher_fs(Visit::Resolved { destination, found }),
            VisitAction::ListDirectory {
                path: PathBuf::from(canonical),
                scan: Scan::new(Platform::Unix, web_path.to_string(), canonical.to_string())
            }
        );
    }
}

#[test]
fn drives_are_listed() {
    assert_eq!(
        list_drives(Ok(vec!['C', 'D'])),
        HttpReply::Page(
            "<h1>Drives</h1>\n<ul>\n<li><a href='/fw/fsb/C:/'>C:</a></li>\n<li><a href='/fw/fsb/D:/'>D:</a></li>\n\n</ul>\n".to_string()
        )
    );
    assert_eq!(
        list_drives(Ok(vec![])),
        HttpReply::Page("<h1>Drives</h1>\n<ul>\n\n</ul>\n".to_string())
    );
    assert_eq!(
        list_drives(Err("denied".to_string())),
        not_found("Unable to list drive letters: denied.")
    );
}

#[test]
fn directories_are_listed() {
    assert_eq!(
        scan(
            Platform::Unix,
            "home/me",
            vec![text("src"), text("a b")],
            vec![text("z.txt"), text("Ü&'.rs")]
        ),
        HttpReply::Page(
            "<h1>Directory /shown</h1>
<h2>Subdirectories</h2>
<ul>
<li><a href='/fw/fsb/home/me/a%20b'>a b</a></li>
<li><a href='/fw/fsb/home/me/src'>src</a></li>

</ul>
<h2>Files</h2>
<ul>
<li><a href=\"/fw/fsb/home/me/z.txt\" target=\"_blank\">z.txt</a></li>
<li><a href=\"/fw/fsb/home/me/%C3%9C%26%27.rs\" target=\"_blank\">Ü&'.rs</a></li>

</ul>
"
            .to_string()
        )
    );
}

#[test]
fn slashes_are_not_doubled_for_subdirectories() {
    let link = |web_path: &str| match scan(Platform::Unix, web_path, vec![text("d")], vec![]) {
        HttpReply::Page(body) => body.lines().nth(3).unwrap().to_string(),
        other => panic!("unexpected {other:?}"),
    };
    assert_eq!(link(""), "<li><a href='/fw/fsb/d'>d</a></li>");
    assert_eq!(link("C:/"), "<li><a href='/fw/fsb/C:/d'>d</a></li>");
    assert_eq!(link("C:/a"), "<li><a href='/fw/fsb/C:/a/d'>d</a></li>");
}

/// The path in the file system that the only link of a page leads to.
fn target(platform: Platform, reply: HttpReply, quote: char) -> String {
    let HttpReply::Page(page) = reply else {
        panic!("{reply:?}")
    };
    let start = format!("<li><a href={quote}/fw/fsb/");
    let (_, rest) = page.split_once(start.as_str()).unwrap();
    let (link, _) = rest.split_once(quote).unwrap();
    fix_path(platform, &urlencoding::decode(link).unwrap()).unwrap()
}

#[test]
fn links_lead_to_subdirectories() {
    let below = |platform, web_path: &str, name: &str| {
        target(platform, scan(platform, web_path, vec![text(name)], vec![]), '\'')
    };
    assert_eq!(below(Platform::Unix, "", "d"), "/d");
    assert_eq!(below(Platform::Unix, "a", "it's"), "/a/it's");
    assert_eq!(below(Platform::Unix, "a/", "d e"), "/a/d e");
    assert_eq!(below(Platform::Windows, "C:", "d"), "C:/d");
    assert_eq!(below(Platform::Windows, "C:/", "d"), "C:/d");
    assert_eq!(below(Platform::Windows, "C:/a", "100%"), "C:/a/100%");
}

#[test]
fn links_lead_to_files() {
    let below = |platform, web_path: &str, name: &str| {
        target(platform, scan(platform, web_path, vec![], vec![text(name)]), '"')
    };
    assert_eq!(below(Platform::Unix, "", "f"), "//f");
    assert_eq!(below(Platform::Unix, "a", "\"f\""), "/a/\"f\"");
    assert_eq!(below(Platform::Unix, "a/", "f"), "/a//f");
    assert_eq!(below(Platform::Windows, "C:", "f g"), "C:/f g");
    assert_eq!(below(Platform::Windows, "C:/", "f"), "C://f");
    assert_eq!(below(Platform::Windows, "C:/a", "ü"), "C:/a/ü");
}

#[test]
fn the_order_of_entries_does_not_matter() {
    let names = ["b", "a", "ab", "B", "é", "a.", "", "zz"];
    let forward: Vec<FileName> = names.iter().map(|name| text(name)).collect();
    let backward: Vec<FileName> = names.iter().rev().map(|name| text(name)).collect();
    let sorted: Vec<FileName> = ["", "B", "a", "a.", "ab", "b", "zz", "é"]
        .iter()
        .map(|name| text(name))
        .collect();
    assert_eq!(sort_names(Platform::Unix, forward), sorted);
    assert_eq!(sort_names(Platform::Unix, backward), sorted);
    let first = scan(Platform::Unix, "a", vec![text("y"), text("x")], vec![]);
    let second = scan(Platform::Unix, "a", vec![text("x"), text("y")], vec![]);
    assert_eq!(first, second);
}

#[test]
fn sorting_agrees_with_std() {
    let names = ["x", "\u{ffff}", "\u{10000}", "ab", "a", "Z", "~", "\u{7f}", "ß"];
    let mut expected: Vec<String> = names.iter().map(|name| name.to_string()).collect();
    expected.sort_unstable();
    let sorted = sort_names(Platform::Unix, names.iter().map(|name| text(name)).collect());
    let expected: Vec<FileName> = expected.into_iter().map(FileName::Text).collect();
    assert_eq!(sorted, expected);
}

#[test]
fn case_makes_no_difference_on_windows() {
    let names = vec![text("b"), text("C"), text("a"), text("Ä"), text("Z")];
    assert_eq!(
        sort_names(Platform::Windows, names),
        vec![text("a"), text("b"), text("C"), text("Z"), text("Ä")]
    );
    let mut names = vec![text("ä"), text("Ö")];
    names.reverse();
    assert_eq!(
        sort_names(Platform::Windows, names),
        vec![text("ä"), text("Ö")]
    );
}

#[test]
fn names_that_are_not_unicode_are_refused() {
    assert_eq!(
        scan(
            Platform::Unix,
            "a",
            vec![raw(&[0xff], "\"\\xFF\""), raw(&[0xfe], "\"\\xFE\""), text("z")],
            vec![raw(&[0x80], "\"\\x80\"")]
        ),
        not_found("<p>Unable to decode directory name '\"\\xFE\"' as UTF-8.")
    );
    assert_eq!(
        scan(
            Platform::Unix,
            "a",
            vec![text("z")],
            vec![raw(&[0x80], "\"\\x80\""), text("a")]
        ),
        not_found("<p>Unable to decode file name \"\\x80\" as UTF-8.")
    );
}

#[test]
fn failures_to_read_a_directory_are_told() {
    let scan = || Scan::new(Platform::Unix, "a".to_string(), "/a".to_string());
    assert_eq!(
        end(scan(), ScanEvent::NotListed("denied".to_string())),
        not_found("<p>Unable to list the directory /a: denied/</p>")
    );
    assert_eq!(
        end(scan(), ScanEvent::NotRead("io".to_string())),
        not_found("<p>Unable to read file in directory: io.")
    );
    assert_eq!(
        end(
            scan(),
            ScanEvent::NotTyped {
                shown_path: "/a/b".to_string(),
                error: "io".to_string()
            }
        ),
        not_found("<p>Unable to determine the type of /a/b: io.")
    );
}
