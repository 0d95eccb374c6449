//! What holds of the lists of directories.

use crate::browser;
use crate::browser::{ScanEvent, ScanStepView, ScanView};
use crate::browser_laws;
use crate::encoding;
use crate::names;
use crate::names::{FileName, FileNameView};
use crate::serving::HttpReplyView;
use vstd::prelude::*;

verus! {

/// An entry that was read: its name, and whether it is a file.
pub struct Entry {
    pub name: FileName,
    pub is_file: bool,
}

/// The names among some entries of the files, or of all that are not files, as
/// they came.
pub open spec fn names_read(entries: Seq<Entry>, files: bool) -> Seq<FileNameView> {
    entries.filter(|entry: Entry| entry.is_file == files).map_values(|entry: Entry| entry.name@)
}

/// Whether these are the scans of a directory while these entries are read: the
/// first one before any of them, and one more after each.
pub open spec fn reads(scans: Seq<ScanView>, entries: Seq<Entry>) -> bool {
    &&& scans.len() == entries.len() + 1
    &&& scans[0].dirs.len() == 0
    &&& scans[0].files.len() == 0
    &&& forall|i: int|
        0 <= i < entries.len() ==> browser::scan_step(
            scans[i],
            ScanEvent::Entry { name: (#[trigger] entries[i]).name, is_file: entries[i].is_file },
            ScanStepView::Next(scans[i + 1]),
        )
}

/// Reading an entry never ends the list, and loses nothing: a file is put behind
/// the files, and anything else behind the subdirectories.
pub proof fn law_entry_is_kept(scan: ScanView, entry: Entry, step: ScanStepView)
    requires
        browser::scan_step(
            scan,
            ScanEvent::Entry { name: entry.name, is_file: entry.is_file },
            step,
        ),
    ensures
        match step {
            ScanStepView::Next(next) => {
                &&& next.platform == scan.platform
                &&& next.web_path == scan.web_path
                &&& next.shown_path == scan.shown_path
                &&& entry.is_file ==> next.dirs == scan.dirs && next.files == scan.files.push(
                    entry.name@,
                )
                &&& !entry.is_file ==> next.files == scan.files && next.dirs == scan.dirs.push(
                    entry.name@,
                )
            },
            ScanStepView::Reply(_) => false,
        },
{
}

/// However many entries are read, the files are just the names that came for
/// files, and the subdirectories just the others, each as often and in the order
/// in which they came.
pub proof fn law_entries_are_gathered(scans: Seq<ScanView>, entries: Seq<Entry>)
    requires
        reads(scans, entries),
    ensures
        scans.last().files == names_read(entries, true),
        scans.last().dirs == names_read(entries, false),
        scans.last().platform == scans[0].platform,
        scans.last().web_path == scans[0].web_path,
        scans.last().shown_path == scans[0].shown_path,
    decreases entries.len(),
{
    let is_file = |entry: Entry| entry.is_file == true;
    let is_dir = |entry: Entry| entry.is_file == false;
    if entries.len() == 0 {
        reveal(Seq::filter);
        assert(names_read(entries, true) =~= Seq::empty());
        assert(names_read(entries, false) =~= Seq::empty());
        assert(scans[0].files =~= Seq::empty());
        assert(scans[0].dirs =~= Seq::empty());
    } else {
        let n = entries.len() - 1;
        let front = entries.drop_last();
        let entry = entries.last();
        let before = scans.drop_last();
        assert forall|i: int| 0 <= i < front.len() implies browser::scan_step(
            before[i],
            ScanEvent::Entry { name: (#[trigger] front[i]).name, is_file: front[i].is_file },
            ScanStepView::Next(before[i + 1]),
        ) by {
            assert(front[i] == entries[i]);
        }
        law_entries_are_gathered(before, front);
        assert(entries[n] == entry);
        law_entry_is_kept(scans[n], entry, ScanStepView::Next(scans[n + 1]));
        assert(entries =~= front.push(entry));
        front.lemma_filter_push(entry, is_file);
        front.lemma_filter_push(entry, is_dir);
        assert(scans.last().files =~= names_read(entries, true));
        assert(scans.last().dirs =~= names_read(entries, false));
    }
}

/// The lines of names that are all Unicode text, one after the other. Each has
/// a link that goes by the path of the directory and the encoded name.
pub proof fn law_lines_of_subdirectories(web_path: Seq<char>, names: Seq<FileNameView>)
    requires
        browser_laws::all_text(names),
    ensures
        browser::entry_items(false, web_path, names) == Ok::<Seq<char>, Seq<char>>(
            names.map_values(
                |name: FileNameView|
                    "<li><a href='/fw/fsb/"@ + web_path + (if web_path.len() == 0
                        || web_path.last() == '/' {
                        ""@
                    } else {
                        "/"@
                    }) + encoding::percent_encoded(name->Text_0) + "'>"@ + name->Text_0
                        + "</a></li>\n"@,
            ).flatten(),
        ),
    decreases names.len(),
{
    let line = |name: FileNameView|
        "<li><a href='/fw/fsb/"@ + web_path + (if web_path.len() == 0 || web_path.last() == '/' {
            ""@
        } else {
            "/"@
        }) + encoding::percent_encoded(name->Text_0) + "'>"@ + name->Text_0 + "</a></li>\n"@;
    if names.len() > 0 {
        let front = names.drop_last();
        lemma_front_is_text(names);
        law_lines_of_subdirectories(web_path, front);
        front.map_values(line).lemma_flatten_push(line(names.last()));
        assert(names.map_values(line) =~= front.map_values(line).push(line(names.last())));
    }
}

/// The same of files, which open in a window of their own.
pub proof fn law_lines_of_files(web_path: Seq<char>, names: Seq<FileNameView>)
    requires
        browser_laws::all_text(names),
    ensures
        browser::entry_items(true, web_path, names) == Ok::<Seq<char>, Seq<char>>(
            names.map_values(
                |name: FileNameView|
                    "<li><a href=\"/fw/fsb/"@ + web_path + "/"@ + encoding::percent_encoded(
                        name->Text_0,
                    ) + "\" target=\"_blank\">"@ + name->Text_0 + "</a></li>\n"@,
            ).flatten(),
        ),
    decreases names.len(),
{
    let line = |name: FileNameView|
        "<li><a href=\"/fw/fsb/"@ + web_path + "/"@ + encoding::percent_encoded(name->Text_0)
            + "\" target=\"_blank\">"@ + name->Text_0 + "</a></li>\n"@;
    if names.len() > 0 {
        let front = names.drop_last();
        lemma_front_is_text(names);
        law_lines_of_files(web_path, front);
        front.map_values(line).lemma_flatten_push(line(names.last()));
        assert(names.map_values(line) =~= front.map_values(line).push(line(names.last())));
    }
}

/// Of names that are all Unicode text, so are all but the last, and the last.
proof fn lemma_front_is_text(names: Seq<FileNameView>)
    requires
        names.len() > 0,
        browser_laws::all_text(names),
    ensures
        browser_laws::all_text(names.drop_last()),
        names.last() is Text,
{
    let front = names.drop_last();
    assert(names.contains(names[names.len() - 1]));
    assert forall|name: FileNameView| #[trigger] front.contains(name) implies name is Text by {
        let k = choose|k: int| 0 <= k < front.len() && front[k] == name;
        assert(names[k] == name);
        assert(names.contains(name));
    }
}

/// Names are refused just if one is not Unicode text, and what is said names the
/// first of those.
pub proof fn law_first_unreadable_name_is_told(
    is_file: bool,
    web_path: Seq<char>,
    names: Seq<FileNameView>,
    first: int,
)
    requires
        0 <= first < names.len(),
        browser_laws::all_text(names.take(first)),
        names[first] is Raw,
    ensures
        browser::entry_items(is_file, web_path, names) == Err::<Seq<char>, Seq<char>>(
            if is_file {
                "<p>Unable to decode file name "@ + names[first]->shown + " as UTF-8."@
            } else {
                "<p>Unable to decode directory name '"@ + names[first]->shown + "' as UTF-8."@
            },
        ),
    decreases names.len(),
{
    let front = names.drop_last();
    if first == names.len() - 1 {
        assert(front =~= names.take(first));
        if is_file {
            law_lines_of_files(web_path, front);
        } else {
            law_lines_of_subdirectories(web_path, front);
        }
    } else {
        assert(front.take(first) =~= names.take(first));
        law_first_unreadable_name_is_told(is_file, web_path, front, first);
    }
}

/// A directory is refused for its first name that is not Unicode text; those of
/// files come after all others.
pub proof fn law_unreadable_name_refuses_the_directory(
    web_path: Seq<char>,
    shown_path: Seq<char>,
    dirs: Seq<FileNameView>,
    files: Seq<FileNameView>,
    first: int,
)
    ensures
        0 <= first < dirs.len() && browser_laws::all_text(dirs.take(first)) && dirs[first] is Raw
            ==> browser::directory_reply(web_path, shown_path, dirs, files)
            == HttpReplyView::NotFound(
            "<p>Unable to decode directory name '"@ + dirs[first]->shown + "' as UTF-8."@,
        ),
        browser_laws::all_text(dirs) && 0 <= first < files.len() && browser_laws::all_text(
            files.take(first),
        ) && files[first] is Raw ==> browser::directory_reply(web_path, shown_path, dirs, files)
            == HttpReplyView::NotFound(
            "<p>Unable to decode file name "@ + files[first]->shown + " as UTF-8."@,
        ),
{
    if 0 <= first < dirs.len() && browser_laws::all_text(dirs.take(first)) && dirs[first] is Raw {
        law_first_unreadable_name_is_told(false, web_path, dirs, first);
    }
    if browser_laws::all_text(dirs) && 0 <= first < files.len() && browser_laws::all_text(
        files.take(first),
    ) && files[first] is Raw {
        law_lines_of_subdirectories(web_path, dirs);
        law_first_unreadable_name_is_told(true, web_path, files, first);
        if first < dirs.len() && dirs[first] is Raw {
            assert(dirs.contains(dirs[first]));
        }
    }
}

/// Whether two lists have the same names, each as often.
pub open spec fn same_names(a: Seq<FileNameView>, b: Seq<FileNameView>) -> bool {
    a.to_multiset() == b.to_multiset()
}

/// A directory whose entries were read, and whose names are all Unicode text, is
/// listed on a page. The page says which directory it is, and then has a line
/// for each entry that was read, just as often: first all but the files, and
/// then the files, each in order.
pub proof fn law_page_lists_what_was_read(
    scans: Seq<ScanView>,
    entries: Seq<Entry>,
    step: ScanStepView,
)
    requires
        reads(scans, entries),
        browser_laws::all_text(names_read(entries, true)),
        browser_laws::all_text(names_read(entries, false)),
        browser::scan_step(scans.last(), ScanEvent::End, step),
    ensures
        ({
            let web_path = scans[0].web_path;
            let dir_line = |name: FileNameView|
                "<li><a href='/fw/fsb/"@ + web_path + (if web_path.len() == 0 || web_path.last()
                    == '/' {
                    ""@
                } else {
                    "/"@
                }) + encoding::percent_encoded(name->Text_0) + "'>"@ + name->Text_0
                    + "</a></li>\n"@;
            let file_line = |name: FileNameView|
                "<li><a href=\"/fw/fsb/"@ + web_path + "/"@ + encoding::percent_encoded(
                    name->Text_0,
                ) + "\" target=\"_blank\">"@ + name->Text_0 + "</a></li>\n"@;
            exists|dirs: Seq<FileNameView>, files: Seq<FileNameView>|
                {
                    &&& #[trigger] same_names(dirs, names_read(entries, false))
                    &&& #[trigger] same_names(files, names_read(entries, true))
                    &&& names::in_order(scans[0].platform, dirs)
                    &&& names::in_order(scans[0].platform, files)
                    &&& step == ScanStepView::Reply(
                        HttpReplyView::Page(
                            "<h1>Directory "@ + scans[0].shown_path
                                + "</h1>\n<h2>Subdirectories</h2>\n<ul>\n"@ + dirs.map_values(
                                dir_line,
                            ).flatten() + "\n</ul>\n<h2>Files</h2>\n<ul>\n"@ + files.map_values(
                                file_line,
                            ).flatten() + "\n</ul>\n"@,
                        ),
                    )
                }
        }),
{
    law_entries_are_gathered(scans, entries);
    let scan = scans.last();
    let reply = step->Reply_0;
    let (dirs, files) = choose|dirs: Seq<FileNameView>, files: Seq<FileNameView>|
        {
            &&& #[trigger] names::is_sorted_form(scan.platform, scan.dirs, dirs)
            &&& #[trigger] names::is_sorted_form(scan.platform, scan.files, files)
            &&& reply == browser::directory_reply(scan.web_path, scan.shown_path, dirs, files)
        };
    browser_laws::lemma_sorted_is_text(scan.platform, scan.dirs, dirs);
    browser_laws::lemma_sorted_is_text(scan.platform, scan.files, files);
    law_lines_of_subdirectories(scan.web_path, dirs);
    law_lines_of_files(scan.web_path, files);
    assert(same_names(dirs, names_read(entries, false)));
    assert(same_names(files, names_read(entries, true)));
}

/// A directory that cannot be read through is not listed: the reply says what
/// could not be read, and why.
pub proof fn law_failure_is_told(scan: ScanView, event: ScanEvent, step: ScanStepView)
    requires
        browser::scan_step(scan, event, step),
    ensures
        match event {
            ScanEvent::NotListed(error) => step == ScanStepView::Reply(
                HttpReplyView::NotFound(
                    "<p>Unable to list the directory "@ + scan.shown_path + ": "@ + error@
                        + "/</p>"@,
                ),
            ),
            ScanEvent::NotRead(error) => step == ScanStepView::Reply(
                HttpReplyView::NotFound("<p>Unable to read file in directory: "@ + error@ + "."@),
            ),
            ScanEvent::NotTyped { shown_path, error } => step == ScanStepView::Reply(
                HttpReplyView::NotFound(
                    "<p>Unable to determine the type of "@ + shown_path@ + ": "@ + error@ + "."@,
                ),
            ),
            ScanEvent::Entry { .. } => step is Next,
            ScanEvent::End => step is Reply,
        },
{
}

} // verus!
