//! The file browser: a very crude interface to select a file for editing.

use crate::encoding;
use crate::encoding::encode;
use crate::names;
use crate::names::{sort_names, FileName, FileNameView};
use crate::paths;
use crate::paths::{fix_path, Platform};
use crate::serving::{HttpReply, HttpReplyView};
use std::path::PathBuf;
use vstd::prelude::*;

verus! {

/// Redirects from the root of the file system to where it is browsed.
pub fn filewatcher_root_fs_redirect() -> (reply: HttpReply)
    ensures
        reply@ == HttpReplyView::Redirect("/fw/fsb/"@),
        reply matches HttpReply::Redirect(location) && location@ == "/fw/fsb/"@,
{
    HttpReply::Redirect("/fw/fsb/".to_string())
}

/// A path as the operating system has it. It is carried through and not looked
/// into.
#[verifier::external_type_specification]
#[verifier::external_body]
pub struct ExPathBuf(std::path::PathBuf);

/// What stands at a path in the file system.
#[derive(Debug, PartialEq, Eq)]
pub enum Found {
    /// The path is not valid, for this reason.
    NotValid(String),
    /// A directory: its canonical path, and how the path is shown.
    Directory { path: PathBuf, shown_path: String },
    /// A file: its canonical path.
    File { path: PathBuf },
    /// Something else, whose path is shown like this.
    Other(String),
}

/// [`Found`] with texts in place of strings.
pub enum FoundView {
    NotValid(Seq<char>),
    Directory { path: PathBuf, shown_path: Seq<char> },
    File { path: PathBuf },
    Other(Seq<char>),
}

impl View for Found {
    type V = FoundView;

    open spec fn view(&self) -> FoundView {
        match *self {
            Found::NotValid(error) => FoundView::NotValid(error@),
            Found::Directory { path, shown_path } => FoundView::Directory {
                path,
                shown_path: shown_path@,
            },
            Found::File { path } => FoundView::File { path },
            Found::Other(shown) => FoundView::Other(shown@),
        }
    }
}

/// Where a visitor is going.
#[derive(Debug, PartialEq, Eq)]
pub struct Destination {
    /// The platform.
    pub platform: Platform,
    /// The path in the URL, as it came.
    pub web_path: String,
    /// The path in the file system that it stands for.
    pub fixed_path: String,
}

/// [`Destination`] with texts in place of strings.
pub struct DestinationView {
    pub platform: Platform,
    pub web_path: Seq<char>,
    pub fixed_path: Seq<char>,
}

impl View for Destination {
    type V = DestinationView;

    open spec fn view(&self) -> DestinationView {
        DestinationView {
            platform: self.platform,
            web_path: self.web_path@,
            fixed_path: self.fixed_path@,
        }
    }
}

/// How far browsing to a path has come.
#[derive(Debug, PartialEq, Eq)]
pub enum Visit {
    /// This path in a URL was requested.
    Requested { platform: Platform, web_path: String },
    /// This was found there.
    Resolved { destination: Destination, found: Found },
}

/// [`Visit`] with texts in place of strings.
pub enum VisitView {
    Requested { platform: Platform, web_path: Seq<char> },
    Resolved { destination: DestinationView, found: FoundView },
}

impl View for Visit {
    type V = VisitView;

    open spec fn view(&self) -> VisitView {
        match *self {
            Visit::Requested { platform, web_path } => VisitView::Requested {
                platform,
                web_path: web_path@,
            },
            Visit::Resolved { destination, found } => VisitView::Resolved {
                destination: destination@,
                found: found@,
            },
        }
    }
}

/// What is to be done next for a visitor.
#[derive(Debug, PartialEq, Eq)]
pub enum VisitAction {
    /// List the drives.
    ListDrives,
    /// Find out what stands at the path in the file system.
    Resolve(Destination),
    /// Read the directory at this path, from this scan on.
    ListDirectory { path: PathBuf, scan: Scan },
    /// Start a task for the file at this path, and serve the client that
    /// reaches the task at this websocket.
    OpenFile { path: PathBuf, websocket: String },
    /// Send this reply.
    Reply(HttpReply),
}

/// [`VisitAction`] with texts in place of strings.
pub enum VisitActionView {
    ListDrives,
    Resolve(DestinationView),
    ListDirectory { path: PathBuf, scan: ScanView },
    OpenFile { path: PathBuf, websocket: Seq<char> },
    Reply(HttpReplyView),
}

impl View for VisitAction {
    type V = VisitActionView;

    open spec fn view(&self) -> VisitActionView {
        match *self {
            VisitAction::ListDrives => VisitActionView::ListDrives,
            VisitAction::Resolve(destination) => VisitActionView::Resolve(destination@),
            VisitAction::ListDirectory { path, scan } => VisitActionView::ListDirectory {
                path,
                scan: scan@,
            },
            VisitAction::OpenFile { path, websocket } => VisitActionView::OpenFile {
                path,
                websocket: websocket@,
            },
            VisitAction::Reply(reply) => VisitActionView::Reply(reply@),
        }
    }
}

/// A directory of which nothing has been read yet.
pub open spec fn empty_scan(
    platform: Platform,
    web_path: Seq<char>,
    shown_path: Seq<char>,
) -> ScanView {
    ScanView { platform, web_path, shown_path, dirs: seq![], files: seq![] }
}

/// What is done for a visitor.
pub open spec fn visit_action(visit: VisitView) -> VisitActionView {
    match visit {
        VisitView::Requested { platform, web_path } => match paths::file_system_path(
            platform,
            web_path,
        ) {
            Some(fixed_path) => VisitActionView::Resolve(
                DestinationView { platform, web_path, fixed_path },
            ),
            None => VisitActionView::ListDrives,
        },
        VisitView::Resolved { destination, found } => match found {
            FoundView::NotValid(error) => VisitActionView::Reply(
                HttpReplyView::NotFound(
                    "<p>The requested path <code>"@ + destination.fixed_path
                        + "</code> is not valid: "@ + error + ".</p>"@,
                ),
            ),
            // The links on the page go by the path in the URL.
            FoundView::Directory { path, shown_path } => VisitActionView::ListDirectory {
                path,
                scan: empty_scan(destination.platform, destination.web_path, shown_path),
            },
            FoundView::File { path } => VisitActionView::OpenFile { path, websocket: "fw/ws"@ },
            FoundView::Other(shown) => VisitActionView::Reply(
                HttpReplyView::NotFound(
                    "<p>The requested path <code>"@ + shown
                        + "</code> is not a directory or a file.</p>"@,
                ),
            ),
        },
    }
}

/// Tells what to do for a visitor of the file browser: a directory is listed, a
/// file is opened in the client, and anything else is refused.
pub fn serve_filewatcher_fs(visit: Visit) -> (action: VisitAction)
    ensures
        action@ == visit_action(visit@),
        match visit {
            Visit::Requested { platform, web_path } => match action {
                VisitAction::Resolve(destination) => {
                    &&& destination.platform == platform
                    &&& destination.web_path@ == web_path@
                    &&& paths::file_system_path(platform, web_path@) == Some(
                        destination.fixed_path@,
                    )
                },
                VisitAction::ListDrives => platform == Platform::Windows && web_path@.len() == 0,
                _ => false,
            },
            Visit::Resolved { found: Found::Directory { path, shown_path }, destination } => {
                &&& action matches VisitAction::ListDirectory { path: listed, scan }
                &&& listed == path
                &&& scan.platform == destination.platform
                &&& scan.web_path@ == destination.web_path@
                &&& scan.shown_path@ == shown_path@
                &&& scan.dirs@.len() == 0
                &&& scan.files@.len() == 0
            },
            Visit::Resolved { found: Found::File { path }, .. } => {
                &&& action matches VisitAction::OpenFile { path: opened, websocket }
                &&& opened == path
                &&& websocket@ == "fw/ws"@
            },
            Visit::Resolved { found: Found::NotValid(error), destination } => {
                &&& action matches VisitAction::Reply(HttpReply::NotFound(body))
                &&& body@ == "<p>The requested path <code>"@ + destination.fixed_path@
                    + "</code> is not valid: "@ + error@ + ".</p>"@
            },
            Visit::Resolved { found: Found::Other(shown), .. } => {
                &&& action matches VisitAction::Reply(HttpReply::NotFound(body))
                &&& body@ == "<p>The requested path <code>"@ + shown@
                    + "</code> is not a directory or a file.</p>"@
            },
        },
{
    match visit {
        Visit::Requested { platform, web_path } => match fix_path(platform, web_path.as_str()) {
            Some(fixed_path) => VisitAction::Resolve(
                Destination { platform, web_path, fixed_path },
            ),
            None => VisitAction::ListDrives,
        },
        Visit::Resolved { destination, found } => match found {
            Found::NotValid(error) => {
                let mut body = "<p>The requested path <code>".to_string();
                body.append(destination.fixed_path.as_str());
                body.append("</code> is not valid: ");
                body.append(error.as_str());
                body.append(".</p>");
                VisitAction::Reply(HttpReply::NotFound(body))
            },
            Found::Directory { path, shown_path } => {
                let scan = Scan::new(destination.platform, destination.web_path, shown_path);
                VisitAction::ListDirectory { path, scan }
            },
            Found::File { path } => VisitAction::OpenFile { path, websocket: "fw/ws".to_string() },
            Found::Other(shown) => {
                let mut body = "<p>The requested path <code>".to_string();
                body.append(shown.as_str());
                body.append("</code> is not a directory or a file.</p>");
                VisitAction::Reply(HttpReply::NotFound(body))
            },
        },
    }
}

/// The line of a drive.
pub open spec fn drive_item(drive: char) -> Seq<char> {
    "<li><a href='/fw/fsb/"@ + seq![drive] + ":/'>"@ + seq![drive] + ":</a></li>\n"@
}

/// The lines of drives.
pub open spec fn drive_items(drives: Seq<char>) -> Seq<char>
    decreases drives.len(),
{
    if drives.len() == 0 {
        seq![]
    } else {
        drive_items(drives.drop_last()) + drive_item(drives.last())
    }
}

/// The page that lists drives.
pub open spec fn drives_page(drives: Seq<char>) -> Seq<char> {
    "<h1>Drives</h1>\n<ul>\n"@ + drive_items(drives) + "\n</ul>\n"@
}

/// Lists drives, or tells why they cannot be listed.
pub fn list_drives(drives: Result<Vec<char>, String>) -> (reply: HttpReply)
    ensures
        reply@ == match drives {
            Ok(drives) => HttpReplyView::Page(drives_page(drives@)),
            Err(error) => HttpReplyView::NotFound(
                "Unable to list drive letters: "@ + error@ + "."@,
            ),
        },
        match drives {
            Ok(drives) => {
                &&& reply matches HttpReply::Page(body)
                &&& body@ == drives_page(drives@)
            },
            Err(error) => {
                &&& reply matches HttpReply::NotFound(body)
                &&& body@ == "Unable to list drive letters: "@ + error@ + "."@
            },
        },
{
    match drives {
        Err(error) => {
            let mut body = "Unable to list drive letters: ".to_string();
            body.append(error.as_str());
            body.append(".");
            HttpReply::NotFound(body)
        },
        Ok(drives) => {
            let mut items = String::new();
            let mut i: usize = 0;
            while i < drives.len()
                invariant
                    i <= drives.len(),
                    items@ == drive_items(drives@.take(i as int)),
                decreases drives.len() - i,
            {
                let mut letter = String::new();
                letter.push(drives[i]);
                let mut item = "<li><a href='/fw/fsb/".to_string();
                item.append(letter.as_str());
                item.append(":/'>");
                item.append(letter.as_str());
                item.append(":</a></li>\n");
                items.append(item.as_str());
                proof {
                    assert(letter@ =~= seq![drives[i as int]]);
                    assert(drives@.take(i + 1).drop_last() =~= drives@.take(i as int));
                }
                i = i + 1;
            }
            proof {
                assert(drives@.take(i as int) =~= drives@);
            }
            let mut body = "<h1>Drives</h1>\n<ul>\n".to_string();
            body.append(items.as_str());
            body.append("\n</ul>\n");
            HttpReply::Page(body)
        },
    }
}

/// What stands between the path of a directory and the names in it. A drive
/// such as `C:/` and the root path end with a slash already; the root path is
/// empty in a URL.
pub open spec fn separator(web_path: Seq<char>) -> Seq<char> {
    if web_path.len() == 0 || web_path.last() == '/' {
        ""@
    } else {
        "/"@
    }
}

/// The line of a subdirectory.
pub open spec fn dir_item(web_path: Seq<char>, name: Seq<char>) -> Seq<char> {
    "<li><a href='/fw/fsb/"@ + web_path + separator(web_path) + encoding::percent_encoded(name)
        + "'>"@ + name + "</a></li>\n"@
}

/// The line of a file. It opens in a window of its own.
pub open spec fn file_item(web_path: Seq<char>, name: Seq<char>) -> Seq<char> {
    "<li><a href=\"/fw/fsb/"@ + web_path + "/"@ + encoding::percent_encoded(name)
        + "\" target=\"_blank\">"@ + name + "</a></li>\n"@
}

/// The line of a subdirectory or a file.
pub open spec fn entry_item(is_file: bool, web_path: Seq<char>, name: Seq<char>) -> Seq<char> {
    if is_file {
        file_item(web_path, name)
    } else {
        dir_item(web_path, name)
    }
}

/// What is said of a name that is not Unicode text.
pub open spec fn name_error(is_file: bool, shown: Seq<char>) -> Seq<char> {
    if is_file {
        "<p>Unable to decode file name "@ + shown + " as UTF-8."@
    } else {
        "<p>Unable to decode directory name '"@ + shown + "' as UTF-8."@
    }
}

/// The lines of subdirectories or files, or what is said of the first name that
/// is not Unicode text.
pub open spec fn entry_items(
    is_file: bool,
    web_path: Seq<char>,
    names: Seq<FileNameView>,
) -> Result<Seq<char>, Seq<char>>
    decreases names.len(),
{
    if names.len() == 0 {
        Ok(seq![])
    } else {
        match entry_items(is_file, web_path, names.drop_last()) {
            Err(error) => Err(error),
            Ok(items) => match names.last() {
                FileNameView::Text(name) => Ok(items + entry_item(is_file, web_path, name)),
                FileNameView::Raw { shown, .. } => Err(name_error(is_file, shown)),
            },
        }
    }
}

/// The page that lists a directory.
pub open spec fn directory_page(
    shown_path: Seq<char>,
    dir_items: Seq<char>,
    file_items: Seq<char>,
) -> Seq<char> {
    "<h1>Directory "@ + shown_path + "</h1>\n<h2>Subdirectories</h2>\n<ul>\n"@ + dir_items
        + "\n</ul>\n<h2>Files</h2>\n<ul>\n"@ + file_items + "\n</ul>\n"@
}

/// The reply that lists these subdirectories and these files, in this order.
pub open spec fn directory_reply(
    web_path: Seq<char>,
    shown_path: Seq<char>,
    dirs: Seq<FileNameView>,
    files: Seq<FileNameView>,
) -> HttpReplyView {
    match entry_items(false, web_path, dirs) {
        Err(error) => HttpReplyView::NotFound(error),
        Ok(dir_items) => match entry_items(true, web_path, files) {
            Err(error) => HttpReplyView::NotFound(error),
            Ok(file_items) => HttpReplyView::Page(
                directory_page(shown_path, dir_items, file_items),
            ),
        },
    }
}

/// A directory whose entries are being gathered.
#[derive(Debug, PartialEq, Eq)]
pub struct Scan {
    /// The platform, which decides on the order of the entries.
    pub platform: Platform,
    /// The path of the directory in URLs.
    pub web_path: String,
    /// The path of the directory as it is shown.
    pub shown_path: String,
    /// The subdirectories so far; symbolic links are among them.
    pub dirs: Vec<FileName>,
    /// The files so far.
    pub files: Vec<FileName>,
}

/// [`Scan`] with texts in place of strings.
pub struct ScanView {
    pub platform: Platform,
    pub web_path: Seq<char>,
    pub shown_path: Seq<char>,
    pub dirs: Seq<FileNameView>,
    pub files: Seq<FileNameView>,
}

impl View for Scan {
    type V = ScanView;

    open spec fn view(&self) -> ScanView {
        ScanView {
            platform: self.platform,
            web_path: self.web_path@,
            shown_path: self.shown_path@,
            dirs: names::names_view(self.dirs@),
            files: names::names_view(self.files@),
        }
    }
}

/// What comes of reading a directory.
#[derive(Debug, PartialEq, Eq)]
pub enum ScanEvent {
    /// The directory cannot be listed, for this reason.
    NotListed(String),
    /// An entry cannot be read, for this reason.
    NotRead(String),
    /// The kind of the entry whose path is shown like this is not known, for
    /// this reason.
    NotTyped { shown_path: String, error: String },
    /// An entry.
    Entry { name: FileName, is_file: bool },
    /// There are no more entries.
    End,
}

/// What is to be done next for a directory.
#[derive(Debug, PartialEq, Eq)]
pub enum ScanStep {
    /// Read the next entry.
    Next(Scan),
    /// Send this reply.
    Reply(HttpReply),
}

/// [`ScanStep`] with texts in place of strings.
pub enum ScanStepView {
    Next(ScanView),
    Reply(HttpReplyView),
}

impl View for ScanStep {
    type V = ScanStepView;

    open spec fn view(&self) -> ScanStepView {
        match *self {
            ScanStep::Next(scan) => ScanStepView::Next(scan@),
            ScanStep::Reply(reply) => ScanStepView::Reply(reply@),
        }
    }
}

/// Whether this reply lists the directory: with its entries sorted.
pub open spec fn lists(scan: ScanView, reply: HttpReplyView) -> bool {
    exists|dirs: Seq<FileNameView>, files: Seq<FileNameView>|
        {
            &&& #[trigger] names::is_sorted_form(scan.platform, scan.dirs, dirs)
            &&& #[trigger] names::is_sorted_form(scan.platform, scan.files, files)
            &&& reply == directory_reply(scan.web_path, scan.shown_path, dirs, files)
        }
}

/// What may be done next for a directory.
pub open spec fn scan_step(scan: ScanView, event: ScanEvent, step: ScanStepView) -> bool {
    match event {
        ScanEvent::NotListed(error) => step == ScanStepView::Reply(
            HttpReplyView::NotFound(
                "<p>Unable to list the directory "@ + scan.shown_path + ": "@ + error@ + "/</p>"@,
            ),
        ),
        ScanEvent::NotRead(error) => step == ScanStepView::Reply(
            HttpReplyView::NotFound("<p>Unable to read file in directory: "@ + error@ + "."@),
        ),
        ScanEvent::NotTyped { shown_path, error } => step == ScanStepView::Reply(
            HttpReplyView::NotFound(
                "<p>Unable to determine the type of "@ + shown_path@ + ": "@ + error@ + "."@,
            ),
        ),
        ScanEvent::Entry { name, is_file } => step == ScanStepView::Next(
            if is_file {
                ScanView { files: scan.files.push(name@), ..scan }
            } else {
                ScanView { dirs: scan.dirs.push(name@), ..scan }
            },
        ),
        ScanEvent::End => {
            &&& step matches ScanStepView::Reply(reply)
            &&& lists(scan, reply)
        },
    }
}

/// Writes the line of a subdirectory or a file.
fn write_item(is_file: bool, web_path: &str, name: &str) -> (item: String)
    ensures
        item@ == entry_item(is_file, web_path@, name@),
{
    let encoded = encode(name);
    if is_file {
        let mut item = "<li><a href=\"/fw/fsb/".to_string();
        item.append(web_path);
        item.append("/");
        item.append(encoded.as_str());
        item.append("\" target=\"_blank\">");
        item.append(name);
        item.append("</a></li>\n");
        item
    } else {
        let mut item = "<li><a href='/fw/fsb/".to_string();
        item.append(web_path);
        item.append(
            if ends_open(web_path) {
                ""
            } else {
                "/"
            },
        );
        item.append(encoded.as_str());
        item.append("'>");
        item.append(name);
        item.append("</a></li>\n");
        item
    }
}

/// Whether names can follow a path as it is.
fn ends_open(web_path: &str) -> (open: bool)
    ensures
        open == (web_path@.len() == 0 || web_path@.last() == '/'),
{
    let length = web_path.unicode_len();
    length == 0 || web_path.get_char(length - 1) == '/'
}

/// Words what is said of a name that is not Unicode text.
fn describe_name_error(is_file: bool, shown: &str) -> (description: String)
    ensures
        description@ == name_error(is_file, shown@),
{
    if is_file {
        let mut description = "<p>Unable to decode file name ".to_string();
        description.append(shown);
        description.append(" as UTF-8.");
        description
    } else {
        let mut description = "<p>Unable to decode directory name '".to_string();
        description.append(shown);
        description.append("' as UTF-8.");
        description
    }
}

/// A name that is not Unicode text keeps the names before it from being listed.
proof fn lemma_error_stays(
    is_file: bool,
    web_path: Seq<char>,
    names: Seq<FileNameView>,
    shorter: int,
)
    requires
        0 <= shorter <= names.len(),
        entry_items(is_file, web_path, names.take(shorter)) is Err,
    ensures
        entry_items(is_file, web_path, names) == entry_items(
            is_file,
            web_path,
            names.take(shorter),
        ),
    decreases names.len(),
{
    if shorter == names.len() {
        assert(names.take(shorter) =~= names);
    } else {
        assert(names.drop_last().take(shorter) =~= names.take(shorter));
        lemma_error_stays(is_file, web_path, names.drop_last(), shorter);
    }
}

/// Writes the lines of subdirectories or files.
fn write_items(is_file: bool, web_path: &str, names: &Vec<FileName>) -> (items: Result<
    String,
    String,
>)
    ensures
        match items {
            Ok(items) => entry_items(is_file, web_path@, names::names_view(names@)) == Ok::<
                Seq<char>,
                Seq<char>,
            >(items@),
            Err(error) => entry_items(is_file, web_path@, names::names_view(names@)) == Err::<
                Seq<char>,
                Seq<char>,
            >(error@),
        },
{
    let ghost all = names::names_view(names@);
    let mut items = String::new();
    let mut i: usize = 0;
    while i < names.len()
        invariant
            i <= names.len(),
            all == names::names_view(names@),
            entry_items(is_file, web_path@, all.take(i as int)) == Ok::<Seq<char>, Seq<char>>(
                items@,
            ),
        decreases names.len() - i,
    {
        proof {
            assert(all.take(i + 1).drop_last() =~= all.take(i as int));
        }
        match &names[i] {
            FileName::Text(name) => {
                items.append(write_item(is_file, web_path, name.as_str()).as_str());
            },
            FileName::Raw { shown, .. } => {
                let error = describe_name_error(is_file, shown.as_str());
                proof {
                    lemma_error_stays(is_file, web_path@, all, i + 1);
                }
                return Err(error);
            },
        }
        i = i + 1;
    }
    proof {
        assert(all.take(i as int) =~= all);
    }
    Ok(items)
}

/// Writes the page that lists a directory.
fn write_directory(scan: Scan) -> (reply: HttpReply)
    ensures
        lists(scan@, reply@),
{
    let dirs = sort_names(scan.platform, scan.dirs);
    let files = sort_names(scan.platform, scan.files);
    let ghost sorted_dirs = names::names_view(dirs@);
    let ghost sorted_files = names::names_view(files@);
    proof {
        assert(names::is_sorted_form(scan@.platform, scan@.dirs, sorted_dirs));
        assert(names::is_sorted_form(scan@.platform, scan@.files, sorted_files));
    }
    let dir_items = match write_items(false, scan.web_path.as_str(), &dirs) {
        Ok(items) => items,
        Err(error) => {
            return HttpReply::NotFound(error);
        },
    };
    let file_items = match write_items(true, scan.web_path.as_str(), &files) {
        Ok(items) => items,
        Err(error) => {
            return HttpReply::NotFound(error);
        },
    };
    let mut body = "<h1>Directory ".to_string();
    body.append(scan.shown_path.as_str());
    body.append("</h1>\n<h2>Subdirectories</h2>\n<ul>\n");
    body.append(dir_items.as_str());
    body.append("\n</ul>\n<h2>Files</h2>\n<ul>\n");
    body.append(file_items.as_str());
    body.append("\n</ul>\n");
    HttpReply::Page(body)
}

impl Scan {
    /// A directory of which nothing has been read yet.
    pub fn new(platform: Platform, web_path: String, shown_path: String) -> (scan: Scan)
        ensures
            scan@ == empty_scan(platform, web_path@, shown_path@),
            scan.platform == platform,
            scan.web_path@ == web_path@,
            scan.shown_path@ == shown_path@,
            scan.dirs@.len() == 0,
            scan.files@.len() == 0,
    {
        let scan = Scan { platform, web_path, shown_path, dirs: Vec::new(), files: Vec::new() };
        proof {
            assert(scan@.dirs =~= seq![]);
            assert(scan@.files =~= seq![]);
        }
        scan
    }
}

/// Gathers the entries of a directory, and makes a web page of them: first the
/// subdirectories, then the files, with a link for each.
pub fn dir_listing(scan: Scan, event: ScanEvent) -> (step: ScanStep)
    ensures
        scan_step(scan@, event, step@),
        match event {
            ScanEvent::Entry { name, is_file } => {
                &&& step matches ScanStep::Next(next)
                &&& next.platform == scan.platform
                &&& next.web_path == scan.web_path
                &&& next.shown_path == scan.shown_path
                &&& next.files@ == if is_file {
                    scan.files@.push(name)
                } else {
                    scan.files@
                }
                &&& next.dirs@ == if is_file {
                    scan.dirs@
                } else {
                    scan.dirs@.push(name)
                }
            },
            ScanEvent::End => step matches ScanStep::Reply(reply) && lists(scan@, reply@),
            ScanEvent::NotListed(error) => {
                &&& step matches ScanStep::Reply(HttpReply::NotFound(body))
                &&& body@ == "<p>Unable to list the directory "@ + scan.shown_path@ + ": "@ + error@
                    + "/</p>"@
            },
            ScanEvent::NotRead(error) => {
                &&& step matches ScanStep::Reply(HttpReply::NotFound(body))
                &&& body@ == "<p>Unable to read file in directory: "@ + error@ + "."@
            },
            ScanEvent::NotTyped { shown_path, error } => {
                &&& step matches ScanStep::Reply(HttpReply::NotFound(body))
                &&& body@ == "<p>Unable to determine the type of "@ + shown_path@ + ": "@ + error@
                    + "."@
            },
        },
{
    match event {
        ScanEvent::NotListed(error) => {
            let mut body = "<p>Unable to list the directory ".to_string();
            body.append(scan.shown_path.as_str());
            body.append(": ");
            body.append(error.as_str());
            body.append("/</p>");
            ScanStep::Reply(HttpReply::NotFound(body))
        },
        ScanEvent::NotRead(error) => {
            let mut body = "<p>Unable to read file in directory: ".to_string();
            body.append(error.as_str());
            body.append(".");
            ScanStep::Reply(HttpReply::NotFound(body))
        },
        ScanEvent::NotTyped { shown_path, error } => {
            let mut body = "<p>Unable to determine the type of ".to_string();
            body.append(shown_path.as_str());
            body.append(": ");
            body.append(error.as_str());
            body.append(".");
            ScanStep::Reply(HttpReply::NotFound(body))
        },
        ScanEvent::Entry { name, is_file } => {
            let mut scan = scan;
            let ghost before = scan@;
            if is_file {
                scan.files.push(name);
                proof {
                    assert(scan@.files =~= before.files.push(name@));
                }
            } else {
                scan.dirs.push(name);
                proof {
                    assert(scan@.dirs =~= before.dirs.push(name@));
                }
            }
            ScanStep::Next(scan)
        },
        ScanEvent::End => ScanStep::Reply(write_directory(scan)),
    }
}

} // verus!
