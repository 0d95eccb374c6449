//! The task that stands between one open file, its client and HTTP requests.
//!
//! The task is a state machine. It names one action at a time; whoever runs it
//! performs the action and hands back, as an event, what came of it.

use crate::message::{
    answer_unsupported, update_message, CodeChatForWeb, EditorMessage, EditorMessageContents,
    EditorMessageView, UpdateMessageContents,
};
use crate::path_laws;
use crate::paths;
use crate::paths::current_file_url;
use crate::serving::{smart_read, FileRead, SimpleHttpResponse};
use crate::task_model;
use crate::task_model::{OwnFile, ReactionView, TaskActionView, TaskStateView, TaskView};
use crate::text::{debug_of, decimal_text};
use vstd::prelude::*;

verus! {

/// A change that the watcher has seen.
#[derive(Debug, Clone, Copy, PartialEq, Eq)]
pub struct Change {
    /// Whether something was modified.
    pub modified: bool,
    /// Whether the change is to the task's file, and to nothing else.
    pub watched: bool,
}

/// What the task waits for.
#[derive(Debug, PartialEq, Eq)]
pub enum TaskState {
    /// The watcher, to be created.
    Creating,
    /// The first watch on the file.
    Watching,
    /// The websocket's queues, to be set up.
    Connecting,
    /// The client's being told which file is open.
    Announcing,
    /// The queue of HTTP requests, to be set up.
    Listening,
    /// The next change, request or message.
    Idle,
    /// A watcher error's being reported; these errors are still to report,
    /// from this one on.
    Reporting { errors: Vec<String>, next: usize },
    /// The changed file's contents; so many changes come after this one.
    Reading { more: usize },
    /// The client's being told that the changed file is not readable, after
    /// this much of it was read.
    Closing { more: usize, contents: String },
    /// The changed file, to be translated for the client.
    Translating { more: usize },
    /// The client's being told what became of the changed file.
    Notifying { more: usize },
    /// The contents of a requested file.
    Fetching { url: String, is_toc: bool },
    /// The response that serves a requested file.
    Serving,
    /// The client's being sent the file that this response serves.
    Updating { response: SimpleHttpResponse },
    /// A response's being sent.
    Answering,
    /// A client's file, to be translated to source.
    Decoding { id: u32 },
    /// The watch, to be lifted so that this source can be saved.
    Unwatching { id: u32, contents: String },
    /// The source's being saved.
    Saving { id: u32 },
    /// The watch, to be restored.
    Rewatching { id: u32 },
    /// A client's being answered.
    Responding,
    /// The queue of messages, to be closed and emptied.
    Draining,
    /// Nothing more.
    Stopped,
}

/// What the task is told.
#[derive(Debug, PartialEq, Eq)]
pub enum TaskEvent {
    /// Whether a watcher could be created.
    WatcherCreated(bool),
    /// What came of watching the file.
    Watched(Result<(), String>),
    /// What came of lifting the watch.
    Unwatched(Result<(), String>),
    /// The websocket's queues are set up.
    Connected,
    /// The queue of HTTP requests is set up.
    Listening,
    /// Whether a message or a response could be put on its queue.
    Sent(bool),
    /// An answer went out, or was lost.
    Responded,
    /// The watcher failed, in these ways.
    WatcherErrors(Vec<String>),
    /// The watcher saw these changes.
    Changes(Vec<Change>),
    /// A file is requested.
    Request { url: String, is_toc: bool },
    /// The client sent a message.
    Message(EditorMessage),
    /// Nobody is left to send anything.
    Disconnected,
    /// What came of reading a file.
    FileRead(FileRead),
    /// The changed file for the client, if it is one for the client to edit.
    Translated(Option<CodeChatForWeb>),
    /// The response that serves a requested file, and the file for the client,
    /// if it is the one that the client edits.
    Served { response: SimpleHttpResponse, update: Option<CodeChatForWeb> },
    /// The source of a client's file.
    Decoded(Result<String, String>),
    /// What came of saving the file.
    Written(Result<(), String>),
    /// The queue of messages is closed and empty.
    Drained,
}

/// What the task asks for.
#[derive(Debug, PartialEq, Eq)]
pub enum TaskAction {
    /// Create a watcher.
    CreateWatcher,
    /// Watch the task's file.
    Watch,
    /// Stop watching the task's file.
    Unwatch,
    /// Set up the websocket's queues.
    Connect,
    /// Set up the queue of HTTP requests.
    Listen,
    /// Wait for a change, a request or a message.
    Await,
    /// Send a message to the client.
    Send(EditorMessage),
    /// Send a message to the client; it does not matter if it is lost.
    Respond(EditorMessage),
    /// Read the task's file.
    ReadFile,
    /// Translate these contents of the task's file for the client.
    Translate(String),
    /// Read the file at this path.
    Fetch(String),
    /// Serve the file at this path, which has these contents.
    Serve { url: String, contents: String, is_toc: bool },
    /// Send this response to the request.
    Answer(SimpleHttpResponse),
    /// Translate a client's file to source.
    Decode(CodeChatForWeb),
    /// Replace the contents of the task's file.
    Write(String),
    /// Close the queue of messages and drop what is on it.
    Drain,
    /// End the task.
    Stop,
}

/// What the task does on an event.
#[derive(Debug, PartialEq, Eq)]
pub struct Reaction {
    /// An error to log.
    pub log: Option<String>,
    /// What is to be done next.
    pub action: TaskAction,
}

/// The task of one open file.
#[derive(Debug, PartialEq, Eq)]
pub struct Task {
    /// The file's path.
    path: String,
    /// What the task waits for.
    state: TaskState,
}

impl View for Task {
    type V = TaskView;

    closed spec fn view(&self) -> TaskView {
        TaskView { path: self.path@, state: self.state@ }
    }
}

/// How much a note in the log matters.
#[derive(Debug, Clone, Copy, PartialEq, Eq)]
pub enum NoteLevel {
    /// Something is not as it should be.
    Warning,
    /// For information.
    Info,
}

/// A note in the log, on something that is no error.
#[derive(Debug, PartialEq, Eq)]
pub struct Note {
    pub level: NoteLevel,
    pub text: String,
}

/// Names the note on a change, given how the change is shown to a developer.
pub fn note_change(change: Change, shown: &str) -> (note: Option<Note>)
    ensures
        task_model::note_view(note) == task_model::change_note(change, shown@),
        match note {
            None => change.modified && change.watched,
            Some(note) => if change.modified {
                &&& !change.watched
                &&& note.level == NoteLevel::Warning
                &&& note.text@ == "TODO: Modification to different file."@
            } else {
                &&& note.level == NoteLevel::Info
                &&& note.text@ == "Watcher event: "@ + shown@ + "."@
            },
        },
{
    if !change.modified {
        let mut text = "Watcher event: ".to_string();
        text.append(shown);
        text.append(".");
        Some(Note { level: NoteLevel::Info, text })
    } else if !change.watched {
        let text = "TODO: Modification to different file.".to_string();
        Some(Note { level: NoteLevel::Warning, text })
    } else {
        None
    }
}

/// Names the note on a message of the client's.
pub fn note_message(message: &EditorMessage) -> (note: Option<Note>)
    ensures
        task_model::note_view(note) == task_model::message_note(message@),
        match message.message {
            EditorMessageContents::Closed => {
                &&& note matches Some(note)
                &&& note.level == NoteLevel::Info
                &&& note.text@ == "Filewatcher closing"@
            },
            EditorMessageContents::CurrentFile(url) => {
                &&& note matches Some(note)
                &&& note.level == NoteLevel::Warning
                &&& note.text@ == "Unhandled message CurrentFile("@ + crate::text::debug_text(url@)
                    + ")"@
            },
            EditorMessageContents::LoadFile(path) => {
                &&& note matches Some(note)
                &&& note.level == NoteLevel::Warning
                &&& note.text@ == "Unhandled message LoadFile("@ + crate::text::debug_text(path@)
                    + ")"@
            },
            _ => note is None,
        },
{
    match &message.message {
        EditorMessageContents::Closed => Some(
            Note { level: NoteLevel::Info, text: "Filewatcher closing".to_string() },
        ),
        EditorMessageContents::CurrentFile(url) => {
            let mut text = "Unhandled message CurrentFile(".to_string();
            text.append(debug_of(url.as_str()).as_str());
            text.append(")");
            Some(Note { level: NoteLevel::Warning, text })
        },
        EditorMessageContents::LoadFile(path) => {
            let mut text = "Unhandled message LoadFile(".to_string();
            text.append(debug_of(path.as_str()).as_str());
            text.append(")");
            Some(Note { level: NoteLevel::Warning, text })
        },
        _ => None,
    }
}

/// Waits for what comes of an action.
fn go_on(path: String, state: TaskState, action: TaskAction) -> (step: (Task, Reaction))
    ensures
        step.0@.path == path@,
        (step.0@.state, step.1@) == task_model::on(state@, action@),
        step.1 == (Reaction { log: None, action }),
{
    (Task { path, state }, Reaction { log: None, action })
}

/// Waits for the next change, request or message.
fn go_rest(path: String) -> (step: (Task, Reaction))
    ensures
        step.0@.path == path@,
        (step.0@.state, step.1@) == task_model::rest(),
{
    go_on(path, TaskState::Idle, TaskAction::Await)
}

/// Takes nothing more in.
fn go_drain(path: String) -> (step: (Task, Reaction))
    ensures
        step.0@.path == path@,
        (step.0@.state, step.1@) == task_model::drain(),
{
    go_on(path, TaskState::Draining, TaskAction::Drain)
}

/// Ends the task, with a line in the log.
fn go_give_up(path: String, line: String) -> (step: (Task, Reaction))
    ensures
        step.0@.path == path@,
        (step.0@.state, step.1@) == task_model::give_up(line@),
{
    (
        Task { path, state: TaskState::Stopped },
        Reaction { log: Some(line), action: TaskAction::Stop },
    )
}

/// Answers the client's message with this id.
fn go_respond(path: String, id: u32, text: String) -> (step: (Task, Reaction))
    ensures
        step.0@.path == path@,
        (step.0@.state, step.1@) == task_model::respond(id, text@),
{
    let message = EditorMessage { id, message: EditorMessageContents::Result(text) };
    go_on(path, TaskState::Responding, TaskAction::Respond(message))
}

/// Sends the client a message for its own sake.
fn go_send(path: String, state: TaskState, contents: EditorMessageContents) -> (step: (
    Task,
    Reaction,
))
    ensures
        step.0@.path == path@,
        (step.0@.state, step.1@) == task_model::on(
            state@,
            TaskActionView::Send(EditorMessageView { id: 0, message: contents@ }),
        ),
        step.1.action == TaskAction::Send(EditorMessage { id: 0, message: contents }),
{
    go_on(path, state, TaskAction::Send(EditorMessage { id: 0, message: contents }))
}

/// Reports watcher errors, from this one on.
fn go_report(path: String, errors: Vec<String>, next: usize) -> (step: (Task, Reaction))
    requires
        next <= errors.len(),
    ensures
        step.0@.path == path@,
        (step.0@.state, step.1@) == task_model::report(task_model::texts(errors@.skip(next as int))),
        step.0.wf(),
{
    if next == errors.len() {
        return go_rest(path);
    }
    let mut line = "Watcher error: ".to_string();
    line.append(errors[next].as_str());
    let mut answer = "Watcher error: ".to_string();
    answer.append(errors[next].as_str());
    let message = EditorMessage { id: 0, message: EditorMessageContents::Result(answer) };
    proof {
        assert(task_model::texts(errors@.skip(next as int)).skip(1) =~= task_model::texts(errors@.skip(next + 1)));
    }
    (
        Task { path, state: TaskState::Reporting { errors, next: next + 1 } },
        Reaction { log: Some(line), action: TaskAction::Respond(message) },
    )
}

/// Counts the changes that call for reading the file again.
fn count_relevant(changes: &Vec<Change>) -> (count: usize)
    ensures
        count == task_model::relevant(changes@),
{
    let ghost is_rel = |change: Change| task_model::is_relevant(change);
    let mut count: usize = 0;
    let mut i: usize = 0;
    proof {
        reveal(Seq::filter);
    }
    while i < changes.len()
        invariant
            i <= changes.len(),
            count <= i,
            is_rel == (|change: Change| task_model::is_relevant(change)),
            count == changes@.take(i as int).filter(is_rel).len(),
        decreases changes.len() - i,
    {
        proof {
            reveal(Seq::filter);
            assert(changes@.take(i + 1).drop_last() =~= changes@.take(i as int));
        }
        if changes[i].modified && changes[i].watched {
            count = count + 1;
        }
        i = i + 1;
    }
    proof {
        assert(changes@.take(i as int) =~= changes@);
    }
    count
}

/// Changes call for reading the file again just if one of them does.
proof fn lemma_relevant(changes: Seq<Change>)
    ensures
        task_model::relevant(changes) > 0 <==> exists|i: int|
            0 <= i < changes.len() && (#[trigger] changes[i]).modified && changes[i].watched,
    decreases changes.len(),
{
    reveal(Seq::filter);
    if changes.len() > 0 {
        let front = changes.drop_last();
        lemma_relevant(front);
        assert(changes[changes.len() - 1] == changes.last());
        if task_model::relevant(front) > 0 {
            let i = choose|i: int|
                0 <= i < front.len() && (#[trigger] front[i]).modified && front[i].watched;
            assert(changes[i].modified && changes[i].watched);
        }
        if exists|i: int|
            0 <= i < changes.len() && (#[trigger] changes[i]).modified && changes[i].watched {
            let i = choose|i: int|
                0 <= i < changes.len() && (#[trigger] changes[i]).modified && changes[i].watched;
            if i < front.len() {
                assert(front[i].modified && front[i].watched);
            }
        }
    }
}

/// Reads the file again for each of so many changes.
fn go_reread(path: String, changes: usize) -> (step: (Task, Reaction))
    ensures
        step.0@.path == path@,
        (step.0@.state, step.1@) == task_model::reread(changes as nat),
{
    if changes == 0 {
        go_rest(path)
    } else {
        go_on(path, TaskState::Reading { more: changes - 1 }, TaskAction::ReadFile)
    }
}

/// Words what could not be done with the file.
fn describe_file_error(deed: &str, path: &str, error: &str) -> (description: String)
    ensures
        description@ == task_model::file_error(deed@, path@, error@),
{
    let mut description = "Unable to ".to_string();
    description.append(deed);
    description.append(" file '");
    description.append(path);
    description.append("': ");
    description.append(error);
    description.append(".");
    description
}

/// Deals with a message of the client's.
fn go_receive(path: String, message: EditorMessage) -> (step: (Task, Reaction))
    ensures
        step.0@.path == path@,
        (step.0@.state, step.1@) == task_model::receive(message@),
        step.0.wf(),
        message.message matches EditorMessageContents::Update(update) ==> (update.contents matches
            Some(file) ==> step.1.action == TaskAction::Decode(file)),
{
    let id = message.id;
    match message.message {
        EditorMessageContents::Update(update) => match update.contents {
            None => go_respond(path, id, "".to_string()),
            Some(file) => go_on(path, TaskState::Decoding { id }, TaskAction::Decode(file)),
        },
        EditorMessageContents::Result(error) => {
            if error.as_str().is_empty() {
                go_rest(path)
            } else {
                let mut line = "Error in message ".to_string();
                line.append(decimal_text(id).as_str());
                line.append(": ");
                line.append(error.as_str());
                line.append(".");
                (
                    Task { path, state: TaskState::Idle },
                    Reaction { log: Some(line), action: TaskAction::Await },
                )
            }
        },
        EditorMessageContents::Closed => go_drain(path),
        EditorMessageContents::CurrentFile(_) | EditorMessageContents::LoadFile(_) => go_rest(path),
        contents => {
            let refused = EditorMessage { id, message: contents };
            let line = answer_unsupported(&refused);
            let answer = EditorMessage {
                id,
                message: EditorMessageContents::Result(answer_unsupported(&refused)),
            };
            (
                Task { path, state: TaskState::Responding },
                Reaction { log: Some(line), action: TaskAction::Respond(answer) },
            )
        },
    }
}

impl Task {
    /// Errors to report are counted within bounds.
    pub closed spec fn wf(&self) -> bool {
        match self.state {
            TaskState::Reporting { errors, next } => next <= errors.len(),
            _ => true,
        }
    }

    /// A new task for the file at this path, and the first thing to do.
    pub fn new(path: String) -> (step: (Task, Reaction))
        ensures
            step.0.wf(),
            step.0@ == (TaskView { path: path@, state: TaskStateView::Creating }),
            step.1@ == (ReactionView { log: None, action: TaskActionView::CreateWatcher }),
            step.1 == (Reaction { log: None, action: TaskAction::CreateWatcher }),
    {
        go_on(path, TaskState::Creating, TaskAction::CreateWatcher)
    }

    /// What the task waits for.
    pub fn state(&self) -> (state: &TaskState)
        ensures
            state@ == self@.state,
    {
        &self.state
    }

    /// Whether this is one of the events that the task waits for.
    pub fn accepts(&self, event: &TaskEvent) -> (accepted: bool)
        ensures
            accepted == task_model::accepts(self@.state, event@),
    {
        match self.state {
            TaskState::Creating => matches!(event, TaskEvent::WatcherCreated(_)),
            TaskState::Watching | TaskState::Rewatching { .. } => matches!(
                event,
                TaskEvent::Watched(_)
            ),
            TaskState::Connecting => matches!(event, TaskEvent::Connected),
            TaskState::Announcing | TaskState::Closing { .. } | TaskState::Notifying { .. }
            | TaskState::Updating { .. } | TaskState::Answering => matches!(
                event,
                TaskEvent::Sent(_)
            ),
            TaskState::Listening => matches!(event, TaskEvent::Listening),
            TaskState::Idle => matches!(
                event,
                TaskEvent::WatcherErrors(_) | TaskEvent::Changes(_) | TaskEvent::Request { .. }
                | TaskEvent::Message(_) | TaskEvent::Disconnected
            ),
            TaskState::Reporting { .. } | TaskState::Responding => matches!(
                event,
                TaskEvent::Responded
            ),
            TaskState::Reading { .. } | TaskState::Fetching { .. } => matches!(
                event,
                TaskEvent::FileRead(_)
            ),
            TaskState::Translating { .. } => matches!(event, TaskEvent::Translated(_)),
            TaskState::Serving => matches!(event, TaskEvent::Served { .. }),
            TaskState::Decoding { .. } => matches!(event, TaskEvent::Decoded(_)),
            TaskState::Unwatching { .. } => matches!(event, TaskEvent::Unwatched(_)),
            TaskState::Saving { .. } => matches!(event, TaskEvent::Written(_)),
            TaskState::Draining => matches!(event, TaskEvent::Drained),
            TaskState::Stopped => false,
        }
    }
}

/// Moves a task on: takes an event that the task waits for, and tells what is
/// to be done next.
pub fn processing_task(task: Task, event: TaskEvent) -> (step: (Task, Reaction))
    requires
        task.wf(),
        task_model::accepts(task@.state, event@),
    ensures
        step.0.wf(),
        step.0@.path == task@.path,
        exists|own: OwnFile|
            {
                &&& own.path == task@.path
                &&& own.wf()
                &&& (step.0@.state, step.1@) == #[trigger] task_model::transition(
                    own,
                    task@.state,
                    event@,
                )
            },
        task@.state is Connecting ==> exists|url: Seq<char>|
            #[trigger] paths::is_file_url(task@.path, url) && step.1@.action
                == TaskActionView::Send(task_model::file_is_open(url)),
        match event {
            TaskEvent::Connected => {
                &&& step.1.action matches TaskAction::Send(message)
                &&& message.id == 0
                &&& message.message matches EditorMessageContents::CurrentFile(url)
                &&& paths::is_file_url(task@.path, url@)
            },
            TaskEvent::Translated(Some(file)) => step.1.action == TaskAction::Send(
                EditorMessage {
                    id: 0,
                    message: EditorMessageContents::Update(
                        UpdateMessageContents {
                            contents: Some(file),
                            cursor_position: None,
                            scroll_position: None,
                        },
                    ),
                },
            ),
            TaskEvent::Translated(None) => step.1.action == TaskAction::Send(
                EditorMessage { id: 0, message: EditorMessageContents::Closed },
            ),
            TaskEvent::FileRead(read) => match task@.state {
                TaskStateView::Fetching { url, is_toc } => match read {
                    FileRead::Text(text) => {
                        &&& step.1.action matches TaskAction::Serve {
                            url: served,
                            contents,
                            is_toc: as_toc,
                        }
                        &&& served@ == url
                        &&& contents@ == text@
                        &&& as_toc == is_toc
                    },
                    FileRead::NotText(_) => {
                        &&& step.1.action matches TaskAction::Answer(SimpleHttpResponse::Bin(sent))
                        &&& sent@ == url
                    },
                    FileRead::NotOpened(reason) => {
                        &&& step.1.action matches TaskAction::Answer(
                            SimpleHttpResponse::Error(error),
                        )
                        &&& error@ == "<p>Error opening file "@ + url + ": "@ + reason@ + "."@
                    },
                },
                _ => match read {
                    FileRead::Text(text) => {
                        &&& step.1.action matches TaskAction::Translate(contents)
                        &&& contents@ == text@
                    },
                    _ => step.1.action == TaskAction::Send(
                        EditorMessage { id: 0, message: EditorMessageContents::Closed },
                    ),
                },
            },
            TaskEvent::Request { url, .. } => {
                &&& step.1.action matches TaskAction::Fetch(fetched)
                &&& fetched@ == url@
            },
            TaskEvent::Served { response, update: None } => step.1.action == TaskAction::Answer(
                response,
            ),
            TaskEvent::Served { update: Some(file), .. } => step.1.action == TaskAction::Send(
                EditorMessage {
                    id: 0,
                    message: EditorMessageContents::Update(
                        UpdateMessageContents {
                            contents: Some(file),
                            cursor_position: None,
                            scroll_position: None,
                        },
                    ),
                },
            ),
            TaskEvent::Message(message) => match message.message {
                EditorMessageContents::Update(update) => match update.contents {
                    Some(file) => step.1.action == TaskAction::Decode(file),
                    None => {
                        &&& step.1.action matches TaskAction::Respond(answer)
                        &&& answer.id == message.id
                        &&& answer.message matches EditorMessageContents::Result(error)
                        &&& error@ == ""@
                    },
                },
                EditorMessageContents::Closed => step.1.action is Drain,
                EditorMessageContents::Result(_) | EditorMessageContents::CurrentFile(_)
                | EditorMessageContents::LoadFile(_) => step.1.action is Await,
                _ => {
                    &&& step.1.action matches TaskAction::Respond(answer)
                    &&& answer.id == message.id
                    &&& answer.message is Result
                },
            },
            TaskEvent::Decoded(Ok(source)) => {
                &&& step.1.action is Unwatch
                &&& step.0@.state matches TaskStateView::Unwatching { contents, .. }
                &&& contents == source@
            },
            TaskEvent::Unwatched(Ok(_)) => {
                &&& step.1.action matches TaskAction::Write(written)
                &&& task@.state matches TaskStateView::Unwatching { contents, .. }
                &&& written@ == contents
            },
            TaskEvent::Decoded(Err(_)) | TaskEvent::Unwatched(Err(_))
            | TaskEvent::Written(Err(_)) => {
                &&& step.1.action matches TaskAction::Respond(answer)
                &&& answer.message matches EditorMessageContents::Result(error)
                &&& error@.len() > 0
            },
            TaskEvent::Written(Ok(_)) => step.1.action is Watch,
            TaskEvent::Changes(changes) => step.1.action is ReadFile <==> exists|i: int|
                0 <= i < changes@.len() && (#[trigger] changes@[i]).modified && changes@[i].watched,
            TaskEvent::Disconnected => step.1.action is Drain,
            TaskEvent::Drained => step.1.action is Stop,
            _ => true,
        },
{
    let path = task.path;
    let ghost mut own = OwnFile { path: path@, url: paths::file_url(path@) };
    proof {
        path_laws::law_every_path_has_a_url(path@);
    }
    let step = match (task.state, event) {
        (TaskState::Creating, TaskEvent::WatcherCreated(created)) => {
            if created {
                go_on(path, TaskState::Watching, TaskAction::Watch)
            } else {
                go_give_up(path, "Unable to create debouncer.".to_string())
            }
        },
        (TaskState::Watching, TaskEvent::Watched(watched)) => match watched {
            Ok(()) => go_on(path, TaskState::Connecting, TaskAction::Connect),
            Err(error) => {
                let mut line = "Unable to watch file: ".to_string();
                line.append(error.as_str());
                go_give_up(path, line)
            },
        },
        (TaskState::Connecting, TaskEvent::Connected) => {
            let url = current_file_url(path.as_str());
            proof {
                own = OwnFile { path: path@, url: url@ };
            }
            go_send(path, TaskState::Announcing, EditorMessageContents::CurrentFile(url))
        },
        (TaskState::Announcing, TaskEvent::Sent(sent)) => {
            if sent {
                go_on(path, TaskState::Listening, TaskAction::Listen)
            } else {
                go_on(path, TaskState::Stopped, TaskAction::Stop)
            }
        },
        (TaskState::Listening, TaskEvent::Listening) => go_rest(path),
        (TaskState::Idle, TaskEvent::WatcherErrors(errors)) => {
            proof {
                assert(errors@.skip(0) =~= errors@);
            }
            go_report(path, errors, 0)
        },
        (TaskState::Idle, TaskEvent::Changes(changes)) => {
            proof {
                lemma_relevant(changes@);
            }
            go_reread(path, count_relevant(&changes))
        },
        (TaskState::Idle, TaskEvent::Request { url, is_toc }) => {
            let wanted = url.clone();
            go_on(path, TaskState::Fetching { url, is_toc }, TaskAction::Fetch(wanted))
        },
        (TaskState::Idle, TaskEvent::Message(message)) => go_receive(path, message),
        (TaskState::Idle, TaskEvent::Disconnected) => go_drain(path),
        (TaskState::Reporting { errors, next }, TaskEvent::Responded) => go_report(
            path,
            errors,
            next,
        ),
        (TaskState::Reading { more }, TaskEvent::FileRead(read)) => match read {
            FileRead::NotOpened(_) => go_send(
                path,
                TaskState::Notifying { more },
                EditorMessageContents::Closed,
            ),
            FileRead::NotText(partial) => go_send(
                path,
                TaskState::Closing { more, contents: partial },
                EditorMessageContents::Closed,
            ),
            FileRead::Text(text) => go_on(
                path,
                TaskState::Translating { more },
                TaskAction::Translate(text),
            ),
        },
        (TaskState::Closing { more, contents }, TaskEvent::Sent(sent)) => {
            if sent {
                go_on(path, TaskState::Translating { more }, TaskAction::Translate(contents))
            } else {
                go_rest(path)
            }
        },
        (TaskState::Translating { more }, TaskEvent::Translated(file)) => {
            let state = TaskState::Notifying { more };
            match file {
                Some(file) => go_on(path, state, TaskAction::Send(update_message(file))),
                None => go_send(path, state, EditorMessageContents::Closed),
            }
        },
        (TaskState::Notifying { more }, TaskEvent::Sent(sent)) => {
            if sent {
                go_reread(path, more)
            } else {
                go_rest(path)
            }
        },
        (TaskState::Fetching { url, is_toc }, TaskEvent::FileRead(read)) => match smart_read(
            url.as_str(),
            read,
        ) {
            Ok(contents) => go_on(
                path,
                TaskState::Serving,
                TaskAction::Serve { url, contents, is_toc },
            ),
            Err(response) => go_on(path, TaskState::Answering, TaskAction::Answer(response)),
        },
        (TaskState::Serving, TaskEvent::Served { response, update }) => match update {
            Some(file) => go_on(
                path,
                TaskState::Updating { response },
                TaskAction::Send(update_message(file)),
            ),
            None => go_on(path, TaskState::Answering, TaskAction::Answer(response)),
        },
        (TaskState::Updating { response }, TaskEvent::Sent(sent)) => {
            if sent {
                go_on(path, TaskState::Answering, TaskAction::Answer(response))
            } else {
                go_drain(path)
            }
        },
        (TaskState::Answering, TaskEvent::Sent(sent)) => {
            if sent {
                go_rest(path)
            } else {
                go_drain(path)
            }
        },
        (TaskState::Decoding { id }, TaskEvent::Decoded(decoded)) => match decoded {
            Ok(contents) => go_on(
                path,
                TaskState::Unwatching { id, contents },
                TaskAction::Unwatch,
            ),
            Err(error) => {
                let mut text = "Unable to translate to source: ".to_string();
                text.append(error.as_str());
                go_respond(path, id, text)
            },
        },
        (TaskState::Unwatching { id, contents }, TaskEvent::Unwatched(unwatched)) => match unwatched {
            Ok(()) => go_on(path, TaskState::Saving { id }, TaskAction::Write(contents)),
            Err(error) => {
                let text = describe_file_error("unwatch", path.as_str(), error.as_str());
                go_respond(path, id, text)
            },
        },
        (TaskState::Saving { id }, TaskEvent::Written(written)) => match written {
            Ok(()) => go_on(path, TaskState::Rewatching { id }, TaskAction::Watch),
            Err(error) => {
                let text = describe_file_error("save", path.as_str(), error.as_str());
                go_respond(path, id, text)
            },
        },
        (TaskState::Rewatching { id }, TaskEvent::Watched(watched)) => match watched {
            Ok(()) => go_respond(path, id, "".to_string()),
            Err(error) => {
                let text = describe_file_error("watch", path.as_str(), error.as_str());
                go_respond(path, id, text)
            },
        },
        (TaskState::Responding, TaskEvent::Responded) => go_rest(path),
        // All that is left is a queue that has been emptied.
        (_, _) => go_on(path, TaskState::Stopped, TaskAction::Stop),
    };
    proof {
        reveal_strlit("Unable to ");
        reveal_strlit("Unable to translate to source: ");
        assert(own.wf());
        assert(paths::is_file_url(task@.path, own.url));
        assert((step.0@.state, step.1@) == task_model::transition(own, task@.state, event@));
    }
    step
}

} // verus!
