//! What holds of the pages of the file browser.

use crate::browser;
use crate::browser::{DestinationView, FoundView, ScanView, VisitActionView, VisitView};
use crate::encoding;
use crate::encoding_laws;
use crate::names;
use crate::names::FileNameView;
use crate::path_laws;
use crate::paths;
use crate::paths::Platform;
use crate::serving::HttpReplyView;
use std::path::PathBuf;
use vstd::prelude::*;

verus! {

/// However the entries of a directory come in, the page that lists them is the
/// same, as long as their sort keys tell them apart.
pub proof fn law_listing_is_stable(
    scan: ScanView,
    other: ScanView,
    reply: HttpReplyView,
    other_reply: HttpReplyView,
)
    requires
        other.platform == scan.platform,
        other.web_path == scan.web_path,
        other.shown_path == scan.shown_path,
        other.dirs.to_multiset() == scan.dirs.to_multiset(),
        other.files.to_multiset() == scan.files.to_multiset(),
        names::keys_differ(scan.platform, scan.dirs),
        names::keys_differ(scan.platform, scan.files),
        browser::lists(scan, reply),
        browser::lists(other, other_reply),
    ensures
        reply == other_reply,
{
    let platform = scan.platform;
    let (dirs, files) = choose|dirs: Seq<FileNameView>, files: Seq<FileNameView>|
        {
            &&& #[trigger] names::is_sorted_form(scan.platform, scan.dirs, dirs)
            &&& #[trigger] names::is_sorted_form(scan.platform, scan.files, files)
            &&& reply == browser::directory_reply(scan.web_path, scan.shown_path, dirs, files)
        };
    let (other_dirs, other_files) = choose|dirs: Seq<FileNameView>, files: Seq<FileNameView>|
        {
            &&& #[trigger] names::is_sorted_form(other.platform, other.dirs, dirs)
            &&& #[trigger] names::is_sorted_form(other.platform, other.files, files)
            &&& other_reply == browser::directory_reply(
                other.web_path,
                other.shown_path,
                dirs,
                files,
            )
        };
    names::law_order_of_entries_does_not_matter(
        platform,
        scan.dirs,
        other.dirs,
        dirs,
        other_dirs,
    );
    names::law_order_of_entries_does_not_matter(
        platform,
        scan.files,
        other.files,
        files,
        other_files,
    );
}

/// Whether a text occurs in another.
pub open spec fn occurs(part: Seq<char>, text: Seq<char>) -> bool {
    exists|i: int|
        0 <= i <= text.len() - part.len() && part == #[trigger] text.subrange(i, i + part.len())
}

/// What occurs in a text occurs in a longer one.
proof fn lemma_occurs_within(part: Seq<char>, before: Seq<char>, text: Seq<char>, after: Seq<char>)
    requires
        occurs(part, text),
    ensures
        occurs(part, before + text + after),
{
    let i = choose|i: int|
        0 <= i <= text.len() - part.len() && part == #[trigger] text.subrange(i, i + part.len());
    let whole = before + text + after;
    let j = before.len() + i;
    assert(whole.subrange(j, j + part.len()) =~= text.subrange(i, i + part.len()));
    assert(part == whole.subrange(j, j + part.len()));
}

/// A text occurs in itself.
proof fn lemma_occurs_itself(part: Seq<char>)
    ensures
        occurs(part, part),
{
    assert(part.subrange(0, 0int + part.len()) =~= part);
}

/// The line of each name is among the lines.
proof fn lemma_item_occurs(
    is_file: bool,
    web_path: Seq<char>,
    names: Seq<FileNameView>,
    name: Seq<char>,
)
    requires
        names.contains(FileNameView::Text(name)),
        browser::entry_items(is_file, web_path, names) is Ok,
    ensures
        occurs(
            browser::entry_item(is_file, web_path, name),
            browser::entry_items(is_file, web_path, names)->Ok_0,
        ),
    decreases names.len(),
{
    let item = browser::entry_item(is_file, web_path, name);
    let all = browser::entry_items(is_file, web_path, names)->Ok_0;
    let front = names.drop_last();
    let items = browser::entry_items(is_file, web_path, front)->Ok_0;
    let last = browser::entry_item(is_file, web_path, names.last()->Text_0);
    assert(all == items + last);
    if names.last() == FileNameView::Text(name) {
        lemma_occurs_itself(item);
        lemma_occurs_within(item, items, item, Seq::empty());
        assert(items + item + Seq::empty() =~= all);
    } else {
        let k = choose|k: int| 0 <= k < names.len() && names[k] == FileNameView::Text(name);
        assert(front[k] == FileNameView::Text(name));
        lemma_item_occurs(is_file, web_path, front, name);
        lemma_occurs_within(item, Seq::empty(), items, last);
        assert(Seq::<char>::empty() + items + last =~= all);
    }
}

/// Lines can be written exactly for names that are all Unicode text.
proof fn lemma_items_of_text(is_file: bool, web_path: Seq<char>, names: Seq<FileNameView>)
    ensures
        browser::entry_items(is_file, web_path, names) is Ok <==> forall|i: int|
            0 <= i < names.len() ==> #[trigger] names[i] is Text,
    decreases names.len(),
{
    if names.len() > 0 {
        let front = names.drop_last();
        lemma_items_of_text(is_file, web_path, front);
        assert(forall|i: int| 0 <= i < front.len() ==> #[trigger] front[i] == names[i]);
        if browser::entry_items(is_file, web_path, names) is Ok {
            assert forall|i: int| 0 <= i < names.len() implies #[trigger] names[i] is Text by {
                if i < front.len() {
                    assert(front[i] is Text);
                }
            }
        }
        if forall|i: int| 0 <= i < names.len() ==> #[trigger] names[i] is Text {
            assert forall|i: int| 0 <= i < front.len() implies #[trigger] front[i] is Text by {
                assert(names[i] is Text);
            }
            assert(names[names.len() - 1] is Text);
        }
    }
}

/// A list and its sorted form hold the same names.
proof fn lemma_sorted_contains(
    platform: Platform,
    names: Seq<FileNameView>,
    sorted: Seq<FileNameView>,
    name: FileNameView,
)
    requires
        names::is_sorted_form(platform, names, sorted),
    ensures
        names.contains(name) <==> sorted.contains(name),
{
    broadcast use vstd::seq_lib::group_to_multiset_ensures;

    assert(names.contains(name) <==> names.to_multiset().count(name) > 0);
    assert(sorted.contains(name) <==> sorted.to_multiset().count(name) > 0);
}

/// Whether names are all Unicode text.
pub open spec fn all_text(names: Seq<FileNameView>) -> bool {
    forall|name: FileNameView| #[trigger] names.contains(name) ==> name is Text
}

/// Sorting keeps names Unicode text.
proof fn lemma_sorted_text(
    platform: Platform,
    is_file: bool,
    web_path: Seq<char>,
    names: Seq<FileNameView>,
    sorted: Seq<FileNameView>,
)
    requires
        names::is_sorted_form(platform, names, sorted),
    ensures
        browser::entry_items(is_file, web_path, sorted) is Ok <==> all_text(names),
{
    lemma_items_of_text(is_file, web_path, sorted);
    if all_text(names) {
        assert forall|i: int| 0 <= i < sorted.len() implies #[trigger] sorted[i] is Text by {
            assert(sorted.contains(sorted[i]));
            lemma_sorted_contains(platform, names, sorted, sorted[i]);
        }
    }
    if forall|i: int| 0 <= i < sorted.len() ==> #[trigger] sorted[i] is Text {
        assert forall|name: FileNameView| #[trigger] names.contains(name) implies name is Text by {
            lemma_sorted_contains(platform, names, sorted, name);
            let k = choose|k: int| 0 <= k < sorted.len() && sorted[k] == name;
            assert(sorted[k] is Text);
        }
    }
}

/// A sorted list of Unicode names is made of Unicode names.
pub(crate) proof fn lemma_sorted_is_text(
    platform: Platform,
    names: Seq<FileNameView>,
    sorted: Seq<FileNameView>,
)
    requires
        names::is_sorted_form(platform, names, sorted),
        all_text(names),
    ensures
        all_text(sorted),
{
    assert forall|name: FileNameView| #[trigger] sorted.contains(name) implies name is Text by {
        lemma_sorted_contains(platform, names, sorted, name);
    }
}

/// A directory is listed exactly when all names in it are Unicode text; if not,
/// the reply is that the page is not found.
pub proof fn law_unicode_is_listed(scan: ScanView, reply: HttpReplyView)
    requires
        browser::lists(scan, reply),
    ensures
        reply is Page <==> all_text(scan.dirs) && all_text(scan.files),
        reply is Page || reply is NotFound,
{
    let (dirs, files) = choose|dirs: Seq<FileNameView>, files: Seq<FileNameView>|
        {
            &&& #[trigger] names::is_sorted_form(scan.platform, scan.dirs, dirs)
            &&& #[trigger] names::is_sorted_form(scan.platform, scan.files, files)
            &&& reply == browser::directory_reply(scan.web_path, scan.shown_path, dirs, files)
        };
    lemma_sorted_text(scan.platform, false, scan.web_path, scan.dirs, dirs);
    lemma_sorted_text(scan.platform, true, scan.web_path, scan.files, files);
}

/// Every subdirectory and every file has its line on the page.
pub proof fn law_every_entry_is_listed(scan: ScanView, body: Seq<char>, name: Seq<char>)
    requires
        browser::lists(scan, HttpReplyView::Page(body)),
    ensures
        scan.dirs.contains(FileNameView::Text(name)) ==> occurs(
            browser::dir_item(scan.web_path, name),
            body,
        ),
        scan.files.contains(FileNameView::Text(name)) ==> occurs(
            browser::file_item(scan.web_path, name),
            body,
        ),
{
    let reply = HttpReplyView::Page(body);
    let (dirs, files) = choose|dirs: Seq<FileNameView>, files: Seq<FileNameView>|
        {
            &&& #[trigger] names::is_sorted_form(scan.platform, scan.dirs, dirs)
            &&& #[trigger] names::is_sorted_form(scan.platform, scan.files, files)
            &&& reply == browser::directory_reply(scan.web_path, scan.shown_path, dirs, files)
        };
    let dir_items = browser::entry_items(false, scan.web_path, dirs)->Ok_0;
    let file_items = browser::entry_items(true, scan.web_path, files)->Ok_0;
    let head = "<h1>Directory "@ + scan.shown_path + "</h1>\n<h2>Subdirectories</h2>\n<ul>\n"@;
    let middle = "\n</ul>\n<h2>Files</h2>\n<ul>\n"@;
    let tail = "\n</ul>\n"@;
    assert(body == browser::directory_page(scan.shown_path, dir_items, file_items));
    if scan.dirs.contains(FileNameView::Text(name)) {
        lemma_sorted_contains(scan.platform, scan.dirs, dirs, FileNameView::Text(name));
        lemma_item_occurs(false, scan.web_path, dirs, name);
        lemma_occurs_within(
            browser::dir_item(scan.web_path, name),
            head,
            dir_items,
            middle + file_items + tail,
        );
        assert(body =~= head + dir_items + (middle + file_items + tail));
    }
    if scan.files.contains(FileNameView::Text(name)) {
        lemma_sorted_contains(scan.platform, scan.files, files, FileNameView::Text(name));
        lemma_item_occurs(true, scan.web_path, files, name);
        lemma_occurs_within(
            browser::file_item(scan.web_path, name),
            head + dir_items + middle,
            file_items,
            tail,
        );
        assert(body =~= (head + dir_items + middle) + file_items + tail);
    }
}

/// A visitor who requests a path that stands for a directory gets the list of
/// that directory, for the path as it came. On Unix the empty path is the root.
pub proof fn law_directory_is_listed(
    platform: Platform,
    web_path: Seq<char>,
    path: PathBuf,
    shown_path: Seq<char>,
)
    requires
        paths::file_system_path(platform, web_path) is Some,
    ensures
        ({
            let requested = VisitView::Requested { platform, web_path };
            let found = FoundView::Directory { path, shown_path };
            &&& browser::visit_action(requested) matches VisitActionView::Resolve(destination)
            &&& paths::file_system_path(platform, web_path) == Some(destination.fixed_path)
            &&& browser::visit_action(VisitView::Resolved { destination, found })
                == VisitActionView::ListDirectory {
                path,
                scan: ScanView { platform, web_path, shown_path, dirs: seq![], files: seq![] },
            }
        }),
        paths::file_system_path(Platform::Unix, ""@) == Some("/"@),
{
    reveal_strlit("");
    assert("/"@ + ""@ =~= "/"@);
}

/// A visitor who requests a path that stands for a file gets the file opened in
/// the client, whatever the path is.
pub proof fn law_file_is_opened(platform: Platform, web_path: Seq<char>, path: PathBuf)
    requires
        paths::file_system_path(platform, web_path) is Some,
    ensures
        ({
            let requested = VisitView::Requested { platform, web_path };
            let found = FoundView::File { path };
            &&& browser::visit_action(requested) matches VisitActionView::Resolve(destination)
            &&& browser::visit_action(VisitView::Resolved { destination, found })
                == VisitActionView::OpenFile { path, websocket: "fw/ws"@ }
        }),
{
    law_found_decides(DestinationView { platform, web_path, fixed_path: paths::file_system_path(
        platform,
        web_path,
    )->Some_0 }, FoundView::File { path });
}

/// What is found at a path decides what a visitor gets. A directory is listed
/// from its beginning, for the path as it came; a file is opened; and all else
/// is not found, with the reason.
pub proof fn law_found_decides(destination: DestinationView, found: FoundView)
    ensures
        match browser::visit_action(VisitView::Resolved { destination, found }) {
            VisitActionView::OpenFile { path, websocket } => {
                &&& found == FoundView::File { path }
                &&& websocket == "fw/ws"@
            },
            VisitActionView::ListDirectory { path, scan } => {
                &&& found == FoundView::Directory { path, shown_path: scan.shown_path }
                &&& scan.platform == destination.platform
                &&& scan.web_path == destination.web_path
                &&& scan.dirs.len() == 0
                &&& scan.files.len() == 0
            },
            VisitActionView::Reply(HttpReplyView::NotFound(body)) => match found {
                FoundView::NotValid(error) => body == "<p>The requested path <code>"@
                    + destination.fixed_path + "</code> is not valid: "@ + error + ".</p>"@,
                FoundView::Other(shown) => body == "<p>The requested path <code>"@ + shown
                    + "</code> is not a directory or a file.</p>"@,
                _ => false,
            },
            _ => false,
        },
{
}

/// A requested path is looked up in the file system as it came. The drives are
/// listed just if there is no path on Windows, where a drive must come first.
pub proof fn law_path_is_looked_up(platform: Platform, web_path: Seq<char>)
    ensures
        match browser::visit_action(VisitView::Requested { platform, web_path }) {
            VisitActionView::Resolve(destination) => {
                &&& destination.platform == platform
                &&& destination.web_path == web_path
                &&& match platform {
                    Platform::Unix => destination.fixed_path == seq!['/'] + web_path,
                    Platform::Windows => {
                        let bare_drive = web_path.len() == 2 && paths::is_letter(web_path[0])
                            && web_path[1] == ':';
                        &&& web_path.len() > 0
                        &&& bare_drive ==> destination.fixed_path == web_path.push('/')
                        &&& !bare_drive ==> destination.fixed_path == web_path
                    },
                }
            },
            VisitActionView::ListDrives => platform == Platform::Windows && web_path.len() == 0,
            _ => false,
        },
{
    reveal_strlit("/");
    assert("/"@ =~= seq!['/']);
    assert(web_path + seq!['/'] =~= web_path.push('/'));
}

/// The page of drives has a line with a link for each drive, in their order, and
/// nothing else.
pub proof fn law_every_drive_is_listed(drives: Seq<char>)
    ensures
        browser::drives_page(drives) == "<h1>Drives</h1>\n<ul>\n"@ + drives.map_values(
            |drive: char|
                "<li><a href='/fw/fsb/"@ + seq![drive] + ":/'>"@ + seq![drive] + ":</a></li>\n"@,
        ).flatten() + "\n</ul>\n"@,
{
    lemma_drive_lines(drives);
}

/// The lines of drives, one after the other.
proof fn lemma_drive_lines(drives: Seq<char>)
    ensures
        browser::drive_items(drives) == drives.map_values(
            |drive: char|
                "<li><a href='/fw/fsb/"@ + seq![drive] + ":/'>"@ + seq![drive] + ":</a></li>\n"@,
        ).flatten(),
    decreases drives.len(),
{
    let line = |drive: char|
        "<li><a href='/fw/fsb/"@ + seq![drive] + ":/'>"@ + seq![drive] + ":</a></li>\n"@;
    if drives.len() > 0 {
        let front = drives.drop_last();
        lemma_drive_lines(front);
        front.map_values(line).lemma_flatten_push(line(drives.last()));
        assert(drives.map_values(line) =~= front.map_values(line).push(line(drives.last())));
    }
}

/// A path in a URL that goes on with a slash and a name stands for what is right
/// below the path: on every platform, whether or not the path ended in a slash.
proof fn lemma_leads_below(platform: Platform, web_path: Seq<char>, name: Seq<char>)
    requires
        paths::file_system_path(platform, web_path) is Some,
    ensures
        ({
            let parent = paths::file_system_path(platform, web_path)->Some_0;
            let child = paths::file_system_path(platform, web_path + seq!['/'] + name);
            &&& parent.len() > 0
            &&& parent.last() == '/' <==> (web_path.len() == 0 || web_path.last() == '/' || (
            platform == Platform::Windows && paths::is_drive(web_path)))
            &&& child == Some(
                if platform == Platform::Windows && paths::is_drive(web_path) {
                    parent + name
                } else {
                    parent + seq!['/'] + name
                },
            )
            &&& web_path.len() == 0 || web_path.last() == '/' ==> paths::file_system_path(
                platform,
                web_path + name,
            ) == Some(parent + name)
        }),
{
    reveal_strlit("/");
    assert("/"@ =~= seq!['/']);
    let parent = paths::file_system_path(platform, web_path)->Some_0;
    let path = web_path + seq!['/'] + name;
    match platform {
        Platform::Windows => {
            if paths::is_drive(path) {
                assert(path[1] == ':' && paths::is_letter(path[0]));
                assert(path[web_path.len() as int] == '/');
            }
            if web_path.last() == '/' && paths::is_drive(web_path + name) {
                assert((web_path + name)[web_path.len() - 1] == '/');
            }
            if paths::is_drive(web_path) {
                assert(path =~= parent + name);
            }
        },
        Platform::Unix => {
            assert("/"@ + path =~= parent + seq!['/'] + name);
            assert("/"@ + (web_path + name) =~= parent + name);
        },
    }
}

/// The link of a subdirectory leads to the subdirectory. It goes on behind the
/// path of the directory with one slash and with what is decoded to the name,
/// and so stands for the path right below that of the directory, with one slash
/// between.
pub proof fn law_link_leads_to_subdirectory(
    platform: Platform,
    web_path: Seq<char>,
    name: Seq<char>,
)
    requires
        paths::file_system_path(platform, web_path) is Some,
    ensures
        ({
            let encoded = encoding::percent_encoded(name);
            let link = "<li><a href='/fw/fsb/"@ + web_path + browser::separator(web_path) + encoded;
            &&& (link + seq!['\'']).is_prefix_of(browser::dir_item(web_path, name))
            &&& !encoded.contains('\'')
            &&& encoding_laws::percent_decoded(encoded) == vstd::utf8::encode_utf8(name)
        }),
        ({
            let parent = paths::file_system_path(platform, web_path)->Some_0;
            let child = paths::file_system_path(
                platform,
                web_path + browser::separator(web_path) + name,
            );
            &&& child == Some(
                if parent.last() == '/' {
                    parent + name
                } else {
                    parent + seq!['/'] + name
                },
            )
            &&& paths::named_parts(child->Some_0) == paths::named_parts(parent) + paths::names_in(
                name,
            )
        }),
{
    encoding_laws::law_decoding_undoes_encoding(name);
    encoding_laws::law_encoded_is_harmless(name);
    lemma_leads_below(platform, web_path, name);
    path_laws::law_names_below(paths::file_system_path(platform, web_path)->Some_0, name);
    reveal_strlit("/");
    reveal_strlit("");
    assert("/"@ =~= seq!['/']);
    let link = "<li><a href='/fw/fsb/"@ + web_path + browser::separator(web_path)
        + encoding::percent_encoded(name) + seq!['\''];
    let item = browser::dir_item(web_path, name);
    reveal_strlit("'>");
    assert(link =~= item.take(link.len() as int));
    assert(web_path + ""@ + name =~= web_path + name);
}

/// The link of a file leads to the file. It goes on behind the path of the
/// directory with a slash and with what is decoded to the name, and so stands
/// for a path whose names are those of the directory and then that of the file.
/// Only on a bare drive letter, which gets a slash of its own, is that slash the
/// one that ends the path of the directory.
pub proof fn law_link_leads_to_file(platform: Platform, web_path: Seq<char>, name: Seq<char>)
    requires
        paths::file_system_path(platform, web_path) is Some,
    ensures
        ({
            let encoded = encoding::percent_encoded(name);
            let link = "<li><a href=\"/fw/fsb/"@ + web_path + "/"@ + encoded;
            &&& (link + seq!['"']).is_prefix_of(browser::file_item(web_path, name))
            &&& !encoded.contains('"')
            &&& encoding_laws::percent_decoded(encoded) == vstd::utf8::encode_utf8(name)
        }),
        ({
            let parent = paths::file_system_path(platform, web_path)->Some_0;
            let child = paths::file_system_path(platform, web_path + "/"@ + name);
            &&& child == Some(
                if platform == Platform::Windows && paths::is_drive(web_path) {
                    parent + name
                } else {
                    parent + seq!['/'] + name
                },
            )
            &&& paths::named_parts(child->Some_0) == paths::named_parts(parent) + paths::names_in(
                name,
            )
        }),
{
    encoding_laws::law_decoding_undoes_encoding(name);
    encoding_laws::law_encoded_is_harmless(name);
    lemma_leads_below(platform, web_path, name);
    path_laws::law_names_below(paths::file_system_path(platform, web_path)->Some_0, name);
    reveal_strlit("/");
    assert("/"@ =~= seq!['/']);
    let link = "<li><a href=\"/fw/fsb/"@ + web_path + "/"@ + encoding::percent_encoded(name)
        + seq!['"'];
    let item = browser::file_item(web_path, name);
    reveal_strlit("\" target=\"_blank\">");
    assert(link =~= item.take(link.len() as int));
}

} // verus!
