//! Paths: from a URL to a file, and from a file to its URL.

use crate::encoding;
use crate::encoding::encode_path;
use crate::path_laws;
use crate::task::Change;
use path_slash::PathExt;
use std::path::Path;
use vstd::prelude::*;

verus! {

/// The kind of operating system whose files are served.
#[derive(Debug, Clone, Copy, PartialEq, Eq)]
pub enum Platform {
    /// Paths start with a drive letter.
    Windows,
    /// Paths start with a slash.
    Unix,
}

/// Matches a bare drive letter. Only needed on Windows.
pub const DRIVE_LETTER_REGEX: &'static str = "^[a-zA-Z]:$";

/// Whether a character is an ASCII letter.
pub open spec fn is_letter(c: char) -> bool {
    'a' <= c <= 'z' || 'A' <= c <= 'Z'
}

/// Whether a path is a bare drive letter, such as `C:`.
pub open spec fn is_drive(path: Seq<char>) -> bool {
    path.len() == 2 && is_letter(path[0]) && path[1] == ':'
}

/// Calls `regex::Regex::new` and `Regex::is_match`. The pattern for a drive
/// letter is valid, and matches the texts that are one ASCII letter and a
/// colon from their start to their end.
#[verifier::external_body]
fn regex_is_match(pattern: &str, path: &str) -> (matched: bool)
    requires
        pattern@ == DRIVE_LETTER_REGEX@,
    ensures
        matched == is_drive(path@),
{
    regex::Regex::new(pattern).unwrap().is_match(path)
}

/// The path in the file system that a path in a URL stands for. `None` is the
/// list of all drives.
pub open spec fn file_system_path(platform: Platform, web_path: Seq<char>) -> Option<Seq<char>> {
    match platform {
        Platform::Windows => if is_drive(web_path) {
            Some(web_path + "/"@)
        } else if web_path.len() == 0 {
            None
        } else {
            Some(web_path)
        },
        Platform::Unix => Some("/"@ + web_path),
    }
}

/// Finds the path in the file system that a path in a URL stands for.
///
/// On Windows a drive letter needs a slash appended, and there is no path as
/// long as no drive is selected. Elsewhere `a/path/to/file.txt` becomes
/// `/a/path/to/file.txt`.
pub fn fix_path(platform: Platform, web_path: &str) -> (fixed: Option<String>)
    ensures
        match fixed {
            Some(path) => file_system_path(platform, web_path@) == Some(path@),
            None => file_system_path(platform, web_path@) is None,
        },
        match platform {
            Platform::Unix => fixed matches Some(path) && path@ == "/"@ + web_path@,
            Platform::Windows => match fixed {
                Some(path) => {
                    &&& web_path@.len() > 0
                    &&& path@ == web_path@ + if is_drive(web_path@) {
                        "/"@
                    } else {
                        ""@
                    }
                },
                None => web_path@.len() == 0,
            },
        },
{
    proof {
        reveal_strlit("");
        assert(web_path@ + ""@ =~= web_path@);
    }
    match platform {
        Platform::Windows => {
            if regex_is_match(DRIVE_LETTER_REGEX, web_path) {
                Some(web_path.to_string().concat("/"))
            } else if web_path.is_empty() {
                None
            } else {
                Some(web_path.to_string())
            }
        },
        Platform::Unix => Some("/".to_string().concat(web_path)),
    }
}

/// Whether a path starts the way that Windows has for paths to be taken
/// literally.
pub open spec fn is_verbatim(path: Seq<char>) -> bool {
    r"\\?\"@.is_prefix_of(path)
}

/// Whether the second path is a simpler form of the first: the same, or, for a
/// path on a drive, without the start that marks it as literal.
pub open spec fn simplifies_to(path: Seq<char>, simple: Seq<char>) -> bool {
    simple == path || {
        &&& is_verbatim(path)
        &&& path.len() >= 6
        &&& is_drive(path.subrange(4, 6))
        &&& simple == path.skip(4)
    }
}

/// Calls `dunce::simplified`. On Windows it strips the four characters that
/// mark a path on a drive as literal where the path means the same without
/// them. It changes no other path, and none on other platforms. On which of
/// these paths it does so on Windows is not stated.
#[verifier::external_body]
fn simplified(path: &str) -> (simple: String)
    ensures
        simplifies_to(path@, simple@),
{
    dunce::simplified(Path::new(path)).to_str().unwrap().to_string()
}

/// Whether a character separates the parts of a path on some platform.
pub open spec fn is_separator(c: char) -> bool {
    c == '/' || c == '\\'
}

/// Whether a part of a path ends before here.
pub open spec fn ends_part(path: Seq<char>, i: int) -> bool {
    i == path.len() || is_separator(path[i])
}

/// Whether a path starts with a drive letter.
pub open spec fn has_drive(path: Seq<char>) -> bool {
    path.len() >= 2 && is_drive(path.take(2))
}

/// Whether a text starts with a part that is a single dot.
pub open spec fn starts_with_dot(text: Seq<char>) -> bool {
    text.len() > 0 && text[0] == '.' && ends_part(text, 1)
}

/// A path with slashes for backslashes.
pub open spec fn with_slashes(path: Seq<char>) -> Seq<char> {
    path.map_values(
        |c: char|
            if c == '\\' {
                '/'
            } else {
                c
            },
    )
}

/// Whether a part of a path says something: it is neither empty nor a single
/// dot.
pub open spec fn is_name(part: Seq<char>) -> bool {
    part.len() > 0 && part != "."@
}

/// The parts of a text that say something, whichever separators stand between
/// them.
pub open spec fn names_in(text: Seq<char>) -> Seq<Seq<char>> {
    encoding::parts(with_slashes(text)).filter(|part: Seq<char>| is_name(part))
}

/// A path with its drive letter, if it has one, as a part of its own.
pub open spec fn detached(path: Seq<char>) -> Seq<char> {
    if has_drive(path) {
        path.take(2) + seq!['/'] + path.skip(2)
    } else {
        path
    }
}

/// The parts of a path that say something; a drive letter is one.
pub open spec fn named_parts(path: Seq<char>) -> Seq<Seq<char>> {
    names_in(detached(path))
}

/// Whether a path starts with two separators, as the paths of network shares
/// and devices do on Windows.
pub open spec fn starts_with_two(path: Seq<char>) -> bool {
    path.len() >= 2 && is_separator(path[0]) && is_separator(path[1])
}

/// A text with small letters for ASCII capitals.
pub open spec fn folded(text: Seq<char>) -> Seq<char> {
    text.map_values(
        |c: char|
            if 'A' <= c <= 'Z' {
                (c as int + 32) as char
            } else {
                c
            },
    )
}

/// How many parts the prefix of a path has on Windows, if the path starts with
/// two separators and names in full what should follow: a server and a share, a
/// device, or, taken literally, one part or a server and a share behind `UNC`.
/// The two empty parts at the start count.
pub open spec fn prefix_parts(path: Seq<char>) -> Option<nat> {
    let parts = encoding::parts(with_slashes(path));
    if !is_verbatim(path) {
        if parts.len() >= 4 && parts[2].len() > 0 && parts[3].len() > 0 {
            Some(4)
        } else {
            None
        }
    } else if path.contains('/') || parts[3].len() == 0 {
        None
    } else if folded(parts[3]) != "unc"@ {
        Some(4)
    } else if parts[3] == "UNC"@ && parts.len() >= 6 && parts[4].len() > 0 && parts[5].len() > 0 {
        Some(6)
    } else {
        None
    }
}

/// Whether what Windows takes for the prefix of a path can be this long: two
/// characters for a drive letter, some whole parts behind two separators, and
/// nothing for other paths.
pub open spec fn ends_prefix(path: Seq<char>, n: int) -> bool {
    if starts_with_two(path) {
        match prefix_parts(path) {
            Some(count) => {
                &&& 2 <= n <= path.len()
                &&& ends_part(path, n)
                &&& encoding::parts(with_slashes(path.take(n))).len() == count
            },
            None => n == 0 || (2 <= n <= path.len() && ends_part(path, n)),
        }
    } else if has_drive(path) {
        n == 2
    } else {
        n == 0
    }
}

/// A path without the drive letter at its start, if it has one.
pub open spec fn past_drive(path: Seq<char>) -> Seq<char> {
    if has_drive(path) {
        path.skip(2)
    } else {
        path
    }
}

/// Whether a path has no parts that say nothing: behind the drive letter, none
/// is empty but for a first one, and none is a single dot.
pub open spec fn is_normal(path: Seq<char>) -> bool {
    let parts = encoding::parts(with_slashes(past_drive(path)));
    &&& !starts_with_two(path)
    &&& parts[0] != "."@
    &&& forall|i: int| 0 < i < parts.len() ==> is_name(#[trigger] parts[i])
}

/// What stands before the names behind a prefix, with slashes as separators.
pub open spec fn lead(rest: Seq<char>) -> Seq<char> {
    if rest.len() > 0 && is_separator(rest[0]) {
        seq!['/']
    } else if starts_with_dot(rest) {
        seq!['.', '/']
    } else {
        seq![]
    }
}

/// A path with a prefix of this length as it came, and behind it its names with
/// slashes between them. One slash starts the names if a separator started
/// them, and one ends them if the path ended in a backslash.
pub open spec fn names_slashed(path: Seq<char>, n: int) -> Seq<char> {
    let rest = path.skip(n);
    let whole = path.take(n) + lead(rest) + encoding::slashed(names_in(rest));
    if whole.len() > 1 && whole.last() == '/' && path.last() != '\\' {
        whole.drop_last()
    } else {
        whole
    }
}

/// Whether Windows has one view of what follows a prefix of this length: it
/// follows something, no dot stands right behind a drive letter, and a path
/// that is taken literally has no slashes and no single dots there.
pub open spec fn is_settled(path: Seq<char>, n: int) -> bool {
    let rest = path.skip(n);
    &&& starts_with_two(path) ==> rest.len() > 0
    &&& has_drive(path) ==> !starts_with_dot(rest)
    &&& is_verbatim(path) ==> !rest.contains('/') && !encoding::parts(with_slashes(rest)).contains(
        "."@,
    )
}

/// Whether the second path can be the first with slashes as separators. It has
/// the same named parts. It is the path as it came, or, on Windows, the prefix
/// as it came and the names behind it with slashes between them.
pub open spec fn slashes_to(path: Seq<char>, slashed: Seq<char>) -> bool {
    &&& named_parts(slashed) == named_parts(path)
    &&& slashed == path || exists|n: int| #[trigger]
        ends_prefix(path, n) && path.take(n).is_prefix_of(slashed) && (is_settled(path, n)
            ==> slashed == names_slashed(path, n))
}

/// Calls `to_slash` of `path_slash::PathExt`, which puts slashes for the
/// separators of a path. On Windows it goes by the components of the path: it
/// writes the prefix as it came, and then the others with slashes between
/// them. Empty parts are no components, and neither are single dots but for a
/// first one. A slash stays at the end where the path ends in a backslash. On
/// other platforms the path stays as it is. How far the prefix of a path with
/// two separators at its start reaches is stated only where all that belongs to
/// a prefix is there. What becomes of a dot behind a drive letter, or of slashes
/// and dots in a path that is taken literally, is not stated.
#[verifier::external_body]
fn to_slash(path: &str) -> (slashed: String)
    ensures
        slashes_to(path@, slashed@),
{
    Path::new(path).to_slash().unwrap().into_owned()
}

/// The URL of the file at a path whose separators are slashes.
pub open spec fn file_url(slashed: Seq<char>) -> Seq<char> {
    "/fw/fsc/"@ + encoding::encoded_path(slashed)
}

/// Whether this can be the URL of the file at this path.
pub open spec fn is_file_url(path: Seq<char>, url: Seq<char>) -> bool {
    exists|simple: Seq<char>, slashed: Seq<char>|
        simplifies_to(path, simple) && #[trigger] slashes_to(simple, slashed) && url == file_url(
            slashed,
        )
}

/// Whether a path is written in the same way on every platform: it is normal,
/// and has no backslashes and no colons.
pub open spec fn is_plain(path: Seq<char>) -> bool {
    is_normal(path) && !path.contains('\\') && !path.contains(':')
}

/// Gives the URL of the file at a path whose separators are slashes. Each part
/// of the path is encoded; the slashes are not.
pub fn url_of_slashed(slashed: &str) -> (url: String)
    ensures
        url@ == file_url(slashed@),
        url@ == "/fw/fsc/"@ + encoding::encoded_path(slashed@),
{
    "/fw/fsc/".to_string().concat(encode_path(slashed).as_str())
}

/// Gives the URL of the file at a path.
pub fn current_file_url(path: &str) -> (url: String)
    ensures
        is_file_url(path@, url@),
        is_plain(path@) ==> url@ == file_url(path@),
        exists|slashed: Seq<char>|
            url@ == #[trigger] file_url(slashed) && (named_parts(slashed) == named_parts(path@) || (
            is_verbatim(path@) && named_parts(slashed) == named_parts(path@.skip(4)))),
{
    let simple = simplified(path);
    let slashed = to_slash(simple.as_str());
    proof {
        assert(slashes_to(simple@, slashed@));
        assert(is_file_url(path@, file_url(slashed@)));
        path_laws::law_plain_path_has_one_url(path@, file_url(slashed@));
    }
    url_of_slashed(slashed.as_str())
}

/// Whether two paths can be the same: they have the same named parts, but for
/// the case of ASCII letters.
pub open spec fn can_be_same(a: Seq<char>, b: Seq<char>) -> bool {
    named_parts(folded(a)) == named_parts(folded(b))
}

/// Whether a path has slashes alone as separators on every platform, and no
/// prefix on Windows: it has no backslashes, and starts neither with a drive
/// letter nor with two slashes.
pub open spec fn is_slashed(path: Seq<char>) -> bool {
    !path.contains('\\') && !has_drive(path) && !starts_with_two(path)
}

/// Whether a path starts with a slash that is its root on every platform.
pub open spec fn is_rooted(path: Seq<char>) -> bool {
    path.len() > 0 && path[0] == '/' && !starts_with_two(path)
}

/// The parts of a path between slashes that say something.
pub open spec fn slash_names(path: Seq<char>) -> Seq<Seq<char>> {
    encoding::parts(path).filter(|part: Seq<char>| is_name(part))
}

/// Whether two such paths are the same: both or neither start with a slash,
/// both or neither start with a single dot, and they have the same named parts.
pub open spec fn are_same(a: Seq<char>, b: Seq<char>) -> bool {
    lead(a) == lead(b) && named_parts(a) == named_parts(b)
}

/// Calls `==` of `std::path::Path`, which compares paths component by
/// component; on Windows it disregards the case of drive letters. Empty parts
/// are no components, and neither are single dots but for a first one. So a
/// path is the same as itself, paths with different named parts are not the
/// same, and paths with slashes alone are the same just if they start the same
/// way and have the same named parts. Paths from the root are the same if they
/// have the same names between slashes, whether or not a backslash in a name
/// separates parts of it. Which other paths with the same named parts are the
/// same depends on the platform, and is not stated.
#[verifier::external_body]
fn same_path(a: &str, b: &str) -> (same: bool)
    ensures
        a@ == b@ ==> same,
        same ==> can_be_same(a@, b@),
        is_slashed(a@) && is_slashed(b@) ==> same == are_same(a@, b@),
        is_rooted(a@) && is_rooted(b@) && slash_names(a@) == slash_names(b@) ==> same,
{
    Path::new(a) == Path::new(b)
}

/// Judges a change to so many paths, given whether the first is that of the
/// watched file.
pub fn seen_change(modified: bool, path_count: usize, same: bool) -> (change: Change)
    ensures
        change == (Change { modified, watched: path_count == 1 && same }),
{
    Change { modified, watched: path_count == 1 && same }
}

/// Judges a change to these paths, while the file at the first path is watched.
/// `None` is a path that is not Unicode.
pub fn change_to(watched: &str, modified: bool, paths: &Vec<Option<String>>) -> (change: Change)
    ensures
        change.modified == modified,
        paths.len() != 1 ==> !change.watched,
        paths.len() == 1 ==> match paths[0] {
            None => !change.watched,
            Some(path) => {
                &&& path@ == watched@ ==> change.watched
                &&& change.watched ==> can_be_same(path@, watched@)
                &&& is_slashed(path@) && is_slashed(watched@) ==> change.watched == are_same(
                    path@,
                    watched@,
                )
                &&& is_rooted(path@) && is_rooted(watched@) && slash_names(path@) == slash_names(
                    watched@,
                ) ==> change.watched
                &&& is_plain(path@) && is_plain(watched@) ==> change.watched == (path@ == watched@)
            },
        },
{
    let mut same = false;
    if paths.len() == 1 {
        if let Some(path) = &paths[0] {
            same = same_path(path.as_str(), watched);
            proof {
                if is_plain(path@) && is_plain(watched@) {
                    path_laws::law_plain_paths_are_the_same_text(path@, watched@);
                }
            }
        }
    }
    seen_change(modified, paths.len(), same)
}

} // verus!
