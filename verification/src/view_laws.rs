//! What the views keep of a value: its kind, and all that it holds.

use crate::browser::{
    Destination, Found, FoundView, Scan, ScanStep, ScanStepView, Visit, VisitAction,
    VisitActionView, VisitView,
};
use crate::message::{
    EditorMessage, EditorMessageContents, EditorMessageContentsView,
};
use crate::names::{FileName, FileNameView};
use crate::serving::{
    FileRead, FileReadView, HttpReply, HttpReplyView, RequestOutcome, RequestOutcomeView,
    SimpleHttpResponse, SimpleHttpResponseView,
};
use crate::task::{Note, Reaction, TaskAction, TaskEvent, TaskState};
use crate::task_model;
use crate::task_model::{TaskActionView, TaskEventView, TaskStateView};
use vstd::prelude::*;

verus! {

/// Of what came of reading a file.
pub proof fn law_view_of_file_read(read: FileRead)
    ensures
        match read@ {
            FileReadView::NotOpened(error) => read matches FileRead::NotOpened(e) && e@ == error,
            FileReadView::NotText(partial) => read matches FileRead::NotText(p) && p@ == partial,
            FileReadView::Text(text) => read matches FileRead::Text(t) && t@ == text,
        },
{
}

/// Of a response.
pub proof fn law_view_of_response(response: SimpleHttpResponse)
    ensures
        match response@ {
            SimpleHttpResponseView::Html(document) => {
                &&& response matches SimpleHttpResponse::Html(d)
                &&& d@ == document
            },
            SimpleHttpResponseView::Error(error) => {
                &&& response matches SimpleHttpResponse::Error(e)
                &&& e@ == error
            },
            SimpleHttpResponseView::Raw(body, content_type) => {
                &&& response matches SimpleHttpResponse::Raw(b, t)
                &&& b@ == body
                &&& t@ == content_type
            },
            SimpleHttpResponseView::Bin(path) => {
                &&& response matches SimpleHttpResponse::Bin(p)
                &&& p@ == path
            },
        },
{
}

/// Of a reply.
pub proof fn law_view_of_reply(reply: HttpReply)
    ensures
        match reply@ {
            HttpReplyView::Redirect(location) => reply matches HttpReply::Redirect(l) && l@
                == location,
            HttpReplyView::Page(body) => reply matches HttpReply::Page(b) && b@ == body,
            HttpReplyView::NotFound(body) => reply matches HttpReply::NotFound(b) && b@ == body,
            HttpReplyView::Html(document) => reply matches HttpReply::Html(d) && d@ == document,
            HttpReplyView::Raw(body, content_type) => {
                &&& reply matches HttpReply::Raw(b, t)
                &&& b@ == body
                &&& t@ == content_type
            },
            HttpReplyView::File(path) => reply matches HttpReply::File(p) && p@ == path,
        },
{
}

/// Of what came of a request.
pub proof fn law_view_of_outcome(outcome: RequestOutcome)
    ensures
        match outcome@ {
            RequestOutcomeView::NoTask => outcome is NoTask,
            RequestOutcomeView::NotQueued(error) => {
                &&& outcome matches RequestOutcome::NotQueued(e)
                &&& e@ == error
            },
            RequestOutcomeView::Answered(response) => {
                &&& outcome matches RequestOutcome::Answered(r)
                &&& r@ == response
            },
            RequestOutcomeView::NotAnswered(error) => {
                &&& outcome matches RequestOutcome::NotAnswered(e)
                &&& e@ == error
            },
        },
{
}

/// Of what was found at a path.
pub proof fn law_view_of_found(found: Found)
    ensures
        match found@ {
            FoundView::NotValid(error) => found matches Found::NotValid(e) && e@ == error,
            FoundView::Directory { path, shown_path } => {
                &&& found matches Found::Directory { path: p, shown_path: s }
                &&& p == path
                &&& s@ == shown_path
            },
            FoundView::File { path } => found matches Found::File { path: p } && p == path,
            FoundView::Other(shown) => found matches Found::Other(s) && s@ == shown,
        },
{
}

/// Of a visit, and of where it goes.
pub proof fn law_view_of_visit(visit: Visit, destination: Destination)
    ensures
        match visit@ {
            VisitView::Requested { platform, web_path } => {
                &&& visit matches Visit::Requested { platform: p, web_path: w }
                &&& p == platform
                &&& w@ == web_path
            },
            VisitView::Resolved { destination, found } => {
                &&& visit matches Visit::Resolved { destination: d, found: f }
                &&& d@ == destination
                &&& f@ == found
            },
        },
        destination@.platform == destination.platform,
        destination@.web_path == destination.web_path@,
        destination@.fixed_path == destination.fixed_path@,
{
}

/// Of what is done for a visitor.
pub proof fn law_view_of_visit_action(action: VisitAction)
    ensures
        match action@ {
            VisitActionView::ListDrives => action is ListDrives,
            VisitActionView::Resolve(destination) => {
                &&& action matches VisitAction::Resolve(d)
                &&& d@ == destination
            },
            VisitActionView::ListDirectory { path, scan } => {
                &&& action matches VisitAction::ListDirectory { path: p, scan: s }
                &&& p == path
                &&& s@ == scan
            },
            VisitActionView::OpenFile { path, websocket } => {
                &&& action matches VisitAction::OpenFile { path: p, websocket: w }
                &&& p == path
                &&& w@ == websocket
            },
            VisitActionView::Reply(reply) => action matches VisitAction::Reply(r) && r@ == reply,
        },
{
}

/// Of a name.
pub proof fn law_view_of_name(name: FileName)
    ensures
        match name@ {
            FileNameView::Text(text) => name matches FileName::Text(t) && t@ == text,
            FileNameView::Raw { bytes, shown } => {
                &&& name matches FileName::Raw { bytes: b, shown: s }
                &&& b@ == bytes
                &&& s@ == shown
            },
        },
{
}

/// Of a directory whose entries are gathered: none is left out.
pub proof fn law_view_of_scan(scan: Scan)
    ensures
        scan@.platform == scan.platform,
        scan@.web_path == scan.web_path@,
        scan@.shown_path == scan.shown_path@,
        scan@.dirs.len() == scan.dirs@.len(),
        scan@.files.len() == scan.files@.len(),
        forall|i: int| 0 <= i < scan.dirs@.len() ==> #[trigger] scan@.dirs[i] == scan.dirs@[i]@,
        forall|i: int| 0 <= i < scan.files@.len() ==> #[trigger] scan@.files[i] == scan.files@[i]@,
{
}

/// Of what is done next for a directory.
pub proof fn law_view_of_scan_step(step: ScanStep)
    ensures
        match step@ {
            ScanStepView::Next(scan) => step matches ScanStep::Next(s) && s@ == scan,
            ScanStepView::Reply(reply) => step matches ScanStep::Reply(r) && r@ == reply,
        },
{
}

/// Of a message.
pub proof fn law_view_of_message(message: EditorMessage)
    ensures
        message@.id == message.id,
        message@.message == message.message@,
{
}

/// Of the body of a message.
pub proof fn law_view_of_contents(contents: EditorMessageContents)
    ensures
        match contents@ {
            EditorMessageContentsView::Opened(ide) => contents == EditorMessageContents::Opened(
                ide,
            ),
            EditorMessageContentsView::Update(update) => contents == EditorMessageContents::Update(
                update,
            ),
            EditorMessageContentsView::ClientHtml(html) => {
                &&& contents matches EditorMessageContents::ClientHtml(h)
                &&& h@ == html
            },
            EditorMessageContentsView::CurrentFile(url) => {
                &&& contents matches EditorMessageContents::CurrentFile(u)
                &&& u@ == url
            },
            EditorMessageContentsView::LoadFile(path) => {
                &&& contents matches EditorMessageContents::LoadFile(p)
                &&& p@ == path
            },
            EditorMessageContentsView::RequestClose => contents is RequestClose,
            EditorMessageContentsView::Closed => contents is Closed,
            EditorMessageContentsView::Result(error) => {
                &&& contents matches EditorMessageContents::Result(e)
                &&& e@ == error
            },
        },
{
}

/// Of an attempt: whether it failed, and why.
pub proof fn law_view_of_attempt(result: Result<(), String>)
    ensures
        match task_model::outcome(result) {
            Ok(_) => result is Ok,
            Err(error) => result matches Err(e) && e@ == error,
        },
{
}

/// Of errors: none is left out.
pub proof fn law_view_of_errors(errors: Seq<String>)
    ensures
        task_model::texts(errors).len() == errors.len(),
        forall|i: int| 0 <= i < errors.len() ==> #[trigger] task_model::texts(errors)[i] == errors[i]@,
{
}

/// Of what a task waits for. Of the errors to report, those that are still to
/// come.
pub proof fn law_view_of_state(state: TaskState)
    ensures
        match state@ {
            TaskStateView::Creating => state is Creating,
            TaskStateView::Watching => state is Watching,
            TaskStateView::Connecting => state is Connecting,
            TaskStateView::Announcing => state is Announcing,
            TaskStateView::Listening => state is Listening,
            TaskStateView::Idle => state is Idle,
            TaskStateView::Reporting { errors } => {
                &&& state matches TaskState::Reporting { errors: e, next }
                &&& errors == task_model::texts(e@.skip(next as int))
            },
            TaskStateView::Reading { more } => {
                &&& state matches TaskState::Reading { more: m }
                &&& m == more
            },
            TaskStateView::Closing { more, contents } => {
                &&& state matches TaskState::Closing { more: m, contents: c }
                &&& m == more
                &&& c@ == contents
            },
            TaskStateView::Translating { more } => {
                &&& state matches TaskState::Translating { more: m }
                &&& m == more
            },
            TaskStateView::Notifying { more } => {
                &&& state matches TaskState::Notifying { more: m }
                &&& m == more
            },
            TaskStateView::Fetching { url, is_toc } => {
                &&& state matches TaskState::Fetching { url: u, is_toc: t }
                &&& u@ == url
                &&& t == is_toc
            },
            TaskStateView::Serving => state is Serving,
            TaskStateView::Updating { response } => {
                &&& state matches TaskState::Updating { response: r }
                &&& r@ == response
            },
            TaskStateView::Answering => state is Answering,
            TaskStateView::Decoding { id } => state == (TaskState::Decoding { id }),
            TaskStateView::Unwatching { id, contents } => {
                &&& state matches TaskState::Unwatching { id: i, contents: c }
                &&& i == id
                &&& c@ == contents
            },
            TaskStateView::Saving { id } => state == (TaskState::Saving { id }),
            TaskStateView::Rewatching { id } => state == (TaskState::Rewatching { id }),
            TaskStateView::Responding => state is Responding,
            TaskStateView::Draining => state is Draining,
            TaskStateView::Stopped => state is Stopped,
        },
{
}

/// Of what a task is told.
pub proof fn law_view_of_event(event: TaskEvent)
    ensures
        match event@ {
            TaskEventView::WatcherCreated(created) => event == TaskEvent::WatcherCreated(created),
            TaskEventView::Watched(result) => {
                &&& event matches TaskEvent::Watched(r)
                &&& task_model::outcome(r) == result
            },
            TaskEventView::Unwatched(result) => {
                &&& event matches TaskEvent::Unwatched(r)
                &&& task_model::outcome(r) == result
            },
            TaskEventView::Connected => event is Connected,
            TaskEventView::Listening => event is Listening,
            TaskEventView::Sent(sent) => event == TaskEvent::Sent(sent),
            TaskEventView::Responded => event is Responded,
            TaskEventView::WatcherErrors(errors) => {
                &&& event matches TaskEvent::WatcherErrors(e)
                &&& task_model::texts(e@) == errors
            },
            TaskEventView::Changes(changes) => event matches TaskEvent::Changes(c) && c@ == changes,
            TaskEventView::Request { url, is_toc } => {
                &&& event matches TaskEvent::Request { url: u, is_toc: t }
                &&& u@ == url
                &&& t == is_toc
            },
            TaskEventView::Message(message) => event matches TaskEvent::Message(m) && m@ == message,
            TaskEventView::Disconnected => event is Disconnected,
            TaskEventView::FileRead(read) => event matches TaskEvent::FileRead(r) && r@ == read,
            TaskEventView::Translated(file) => event == TaskEvent::Translated(file),
            TaskEventView::Served { response, update } => {
                &&& event matches TaskEvent::Served { response: r, update: u }
                &&& r@ == response
                &&& u == update
            },
            TaskEventView::Decoded(Ok(source)) => {
                &&& event matches TaskEvent::Decoded(Ok(s))
                &&& s@ == source
            },
            TaskEventView::Decoded(Err(error)) => {
                &&& event matches TaskEvent::Decoded(Err(e))
                &&& e@ == error
            },
            TaskEventView::Written(result) => {
                &&& event matches TaskEvent::Written(r)
                &&& task_model::outcome(r) == result
            },
            TaskEventView::Drained => event is Drained,
        },
{
}

/// Of what a task asks for.
pub proof fn law_view_of_action(action: TaskAction)
    ensures
        match action@ {
            TaskActionView::CreateWatcher => action is CreateWatcher,
            TaskActionView::Watch => action is Watch,
            TaskActionView::Unwatch => action is Unwatch,
            TaskActionView::Connect => action is Connect,
            TaskActionView::Listen => action is Listen,
            TaskActionView::Await => action is Await,
            TaskActionView::Send(message) => action matches TaskAction::Send(m) && m@ == message,
            TaskActionView::Respond(message) => {
                &&& action matches TaskAction::Respond(m)
                &&& m@ == message
            },
            TaskActionView::ReadFile => action is ReadFile,
            TaskActionView::Translate(contents) => {
                &&& action matches TaskAction::Translate(c)
                &&& c@ == contents
            },
            TaskActionView::Fetch(url) => action matches TaskAction::Fetch(u) && u@ == url,
            TaskActionView::Serve { url, contents, is_toc } => {
                &&& action matches TaskAction::Serve { url: u, contents: c, is_toc: t }
                &&& u@ == url
                &&& c@ == contents
                &&& t == is_toc
            },
            TaskActionView::Answer(response) => {
                &&& action matches TaskAction::Answer(r)
                &&& r@ == response
            },
            TaskActionView::Decode(file) => action == TaskAction::Decode(file),
            TaskActionView::Write(contents) => {
                &&& action matches TaskAction::Write(c)
                &&& c@ == contents
            },
            TaskActionView::Drain => action is Drain,
            TaskActionView::Stop => action is Stop,
        },
{
}

/// Of a reaction: the line in the log and the action.
pub proof fn law_view_of_reaction(reaction: Reaction)
    ensures
        reaction@.action == reaction.action@,
        match reaction@.log {
            Some(line) => reaction.log matches Some(l) && l@ == line,
            None => reaction.log is None,
        },
{
}

/// Of a note.
pub proof fn law_view_of_note(note: Option<Note>)
    ensures
        match task_model::note_view(note) {
            Some((level, text)) => note matches Some(n) && n.level == level && n.text@ == text,
            None => note is None,
        },
{
}

} // verus!
