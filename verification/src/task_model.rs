//! What the task of an open file does, stated over mathematical values.

use crate::message;
use crate::message::{CodeChatForWeb, EditorMessageContentsView, EditorMessageView};
use crate::paths;
use crate::serving;
use crate::serving::{FileReadView, SimpleHttpResponseView};
use crate::task::{Change, Note, NoteLevel, Reaction, TaskAction, TaskEvent, TaskState};
use crate::text;
use vstd::prelude::*;

verus! {

/// [`TaskState`] with texts in place of strings. Errors that were reported are
/// gone.
pub enum TaskStateView {
    Creating,
    Watching,
    Connecting,
    Announcing,
    Listening,
    Idle,
    Reporting { errors: Seq<Seq<char>> },
    Reading { more: nat },
    Closing { more: nat, contents: Seq<char> },
    Translating { more: nat },
    Notifying { more: nat },
    Fetching { url: Seq<char>, is_toc: bool },
    Serving,
    Updating { response: SimpleHttpResponseView },
    Answering,
    Decoding { id: u32 },
    Unwatching { id: u32, contents: Seq<char> },
    Saving { id: u32 },
    Rewatching { id: u32 },
    Responding,
    Draining,
    Stopped,
}

/// [`TaskEvent`] with texts in place of strings.
pub enum TaskEventView {
    WatcherCreated(bool),
    Watched(Result<(), Seq<char>>),
    Unwatched(Result<(), Seq<char>>),
    Connected,
    Listening,
    Sent(bool),
    Responded,
    WatcherErrors(Seq<Seq<char>>),
    Changes(Seq<Change>),
    Request { url: Seq<char>, is_toc: bool },
    Message(EditorMessageView),
    Disconnected,
    FileRead(FileReadView),
    Translated(Option<CodeChatForWeb>),
    Served { response: SimpleHttpResponseView, update: Option<CodeChatForWeb> },
    Decoded(Result<Seq<char>, Seq<char>>),
    Written(Result<(), Seq<char>>),
    Drained,
}

/// [`TaskAction`] with texts in place of strings.
pub enum TaskActionView {
    CreateWatcher,
    Watch,
    Unwatch,
    Connect,
    Listen,
    Await,
    Send(EditorMessageView),
    Respond(EditorMessageView),
    ReadFile,
    Translate(Seq<char>),
    Fetch(Seq<char>),
    Serve { url: Seq<char>, contents: Seq<char>, is_toc: bool },
    Answer(SimpleHttpResponseView),
    Decode(CodeChatForWeb),
    Write(Seq<char>),
    Drain,
    Stop,
}

/// [`Reaction`] with texts in place of strings.
pub struct ReactionView {
    pub log: Option<Seq<char>>,
    pub action: TaskActionView,
}

/// `Task` with texts in place of strings.
pub struct TaskView {
    pub path: Seq<char>,
    pub state: TaskStateView,
}

/// The texts of some strings.
pub open spec fn texts(strings: Seq<String>) -> Seq<Seq<char>> {
    strings.map_values(|s: String| s@)
}

/// An outcome with the error's text in place of the string.
pub open spec fn outcome(result: Result<(), String>) -> Result<(), Seq<char>> {
    match result {
        Ok(()) => Ok(()),
        Err(error) => Err(error@),
    }
}

impl View for TaskState {
    type V = TaskStateView;

    open spec fn view(&self) -> TaskStateView {
        match *self {
            TaskState::Creating => TaskStateView::Creating,
            TaskState::Watching => TaskStateView::Watching,
            TaskState::Connecting => TaskStateView::Connecting,
            TaskState::Announcing => TaskStateView::Announcing,
            TaskState::Listening => TaskStateView::Listening,
            TaskState::Idle => TaskStateView::Idle,
            TaskState::Reporting { errors, next } => TaskStateView::Reporting {
                errors: texts(errors@.skip(next as int)),
            },
            TaskState::Reading { more } => TaskStateView::Reading { more: more as nat },
            TaskState::Closing { more, contents } => TaskStateView::Closing {
                more: more as nat,
                contents: contents@,
            },
            TaskState::Translating { more } => TaskStateView::Translating { more: more as nat },
            TaskState::Notifying { more } => TaskStateView::Notifying { more: more as nat },
            TaskState::Fetching { url, is_toc } => TaskStateView::Fetching { url: url@, is_toc },
            TaskState::Serving => TaskStateView::Serving,
            TaskState::Updating { response } => TaskStateView::Updating { response: response@ },
            TaskState::Answering => TaskStateView::Answering,
            TaskState::Decoding { id } => TaskStateView::Decoding { id },
            TaskState::Unwatching { id, contents } => TaskStateView::Unwatching {
                id,
                contents: contents@,
            },
            TaskState::Saving { id } => TaskStateView::Saving { id },
            TaskState::Rewatching { id } => TaskStateView::Rewatching { id },
            TaskState::Responding => TaskStateView::Responding,
            TaskState::Draining => TaskStateView::Draining,
            TaskState::Stopped => TaskStateView::Stopped,
        }
    }
}

impl View for TaskEvent {
    type V = TaskEventView;

    open spec fn view(&self) -> TaskEventView {
        match *self {
            TaskEvent::WatcherCreated(created) => TaskEventView::WatcherCreated(created),
            TaskEvent::Watched(result) => TaskEventView::Watched(outcome(result)),
            TaskEvent::Unwatched(result) => TaskEventView::Unwatched(outcome(result)),
            TaskEvent::Connected => TaskEventView::Connected,
            TaskEvent::Listening => TaskEventView::Listening,
            TaskEvent::Sent(sent) => TaskEventView::Sent(sent),
            TaskEvent::Responded => TaskEventView::Responded,
            TaskEvent::WatcherErrors(errors) => TaskEventView::WatcherErrors(texts(errors@)),
            TaskEvent::Changes(changes) => TaskEventView::Changes(changes@),
            TaskEvent::Request { url, is_toc } => TaskEventView::Request { url: url@, is_toc },
            TaskEvent::Message(message) => TaskEventView::Message(message@),
            TaskEvent::Disconnected => TaskEventView::Disconnected,
            TaskEvent::FileRead(read) => TaskEventView::FileRead(read@),
            TaskEvent::Translated(file) => TaskEventView::Translated(file),
            TaskEvent::Served { response, update } => TaskEventView::Served {
                response: response@,
                update,
            },
            TaskEvent::Decoded(Ok(source)) => TaskEventView::Decoded(Ok(source@)),
            TaskEvent::Decoded(Err(error)) => TaskEventView::Decoded(Err(error@)),
            TaskEvent::Written(result) => TaskEventView::Written(outcome(result)),
            TaskEvent::Drained => TaskEventView::Drained,
        }
    }
}

impl View for TaskAction {
    type V = TaskActionView;

    open spec fn view(&self) -> TaskActionView {
        match *self {
            TaskAction::CreateWatcher => TaskActionView::CreateWatcher,
            TaskAction::Watch => TaskActionView::Watch,
            TaskAction::Unwatch => TaskActionView::Unwatch,
            TaskAction::Connect => TaskActionView::Connect,
            TaskAction::Listen => TaskActionView::Listen,
            TaskAction::Await => TaskActionView::Await,
            TaskAction::Send(message) => TaskActionView::Send(message@),
            TaskAction::Respond(message) => TaskActionView::Respond(message@),
            TaskAction::ReadFile => TaskActionView::ReadFile,
            TaskAction::Translate(contents) => TaskActionView::Translate(contents@),
            TaskAction::Fetch(url) => TaskActionView::Fetch(url@),
            TaskAction::Serve { url, contents, is_toc } => TaskActionView::Serve {
                url: url@,
                contents: contents@,
                is_toc,
            },
            TaskAction::Answer(response) => TaskActionView::Answer(response@),
            TaskAction::Decode(file) => TaskActionView::Decode(file),
            TaskAction::Write(contents) => TaskActionView::Write(contents@),
            TaskAction::Drain => TaskActionView::Drain,
            TaskAction::Stop => TaskActionView::Stop,
        }
    }
}

impl View for Reaction {
    type V = ReactionView;

    open spec fn view(&self) -> ReactionView {
        ReactionView {
            log: match self.log {
                Some(line) => Some(line@),
                None => None,
            },
            action: self.action@,
        }
    }
}

/// Whether this is one of the events that a task in this state waits for.
pub open spec fn accepts(state: TaskStateView, event: TaskEventView) -> bool {
    match state {
        TaskStateView::Creating => event is WatcherCreated,
        TaskStateView::Watching => event is Watched,
        TaskStateView::Connecting => event is Connected,
        TaskStateView::Announcing => event is Sent,
        TaskStateView::Listening => event is Listening,
        TaskStateView::Idle => {
            ||| event is WatcherErrors
            ||| event is Changes
            ||| event is Request
            ||| event is Message
            ||| event is Disconnected
        },
        TaskStateView::Reporting { .. } => event is Responded,
        TaskStateView::Reading { .. } => event is FileRead,
        TaskStateView::Closing { .. } => event is Sent,
        TaskStateView::Translating { .. } => event is Translated,
        TaskStateView::Notifying { .. } => event is Sent,
        TaskStateView::Fetching { .. } => event is FileRead,
        TaskStateView::Serving => event is Served,
        TaskStateView::Updating { .. } => event is Sent,
        TaskStateView::Answering => event is Sent,
        TaskStateView::Decoding { .. } => event is Decoded,
        TaskStateView::Unwatching { .. } => event is Unwatched,
        TaskStateView::Saving { .. } => event is Written,
        TaskStateView::Rewatching { .. } => event is Watched,
        TaskStateView::Responding => event is Responded,
        TaskStateView::Draining => event is Drained,
        TaskStateView::Stopped => false,
    }
}

/// The message that tells the client the URL of the file that is open.
pub open spec fn file_is_open(url: Seq<char>) -> EditorMessageView {
    EditorMessageView { id: 0, message: EditorMessageContentsView::CurrentFile(url) }
}

/// The message that tells the client that its file is closed.
pub open spec fn closed_message() -> EditorMessageView {
    EditorMessageView { id: 0, message: EditorMessageContentsView::Closed }
}

/// The message that brings the client a whole file.
pub open spec fn file_message(file: CodeChatForWeb) -> EditorMessageView {
    EditorMessageView {
        id: 0,
        message: EditorMessageContentsView::Update(message::file_update(file)),
    }
}

/// The message that answers the message with this id.
pub open spec fn answer_message(id: u32, text: Seq<char>) -> EditorMessageView {
    EditorMessageView { id, message: EditorMessageContentsView::Result(text) }
}

/// To go on with this action, and to wait for what comes of it.
pub open spec fn on(state: TaskStateView, action: TaskActionView) -> (TaskStateView, ReactionView) {
    (state, ReactionView { log: None, action })
}

/// To wait for the next change, request or message.
pub open spec fn rest() -> (TaskStateView, ReactionView) {
    on(TaskStateView::Idle, TaskActionView::Await)
}

/// To take nothing more in.
pub open spec fn drain() -> (TaskStateView, ReactionView) {
    on(TaskStateView::Draining, TaskActionView::Drain)
}

/// To end at once, with this line in the log.
pub open spec fn give_up(line: Seq<char>) -> (TaskStateView, ReactionView) {
    (TaskStateView::Stopped, ReactionView { log: Some(line), action: TaskActionView::Stop })
}

/// To answer the client's message with this id.
pub open spec fn respond(id: u32, text: Seq<char>) -> (TaskStateView, ReactionView) {
    on(TaskStateView::Responding, TaskActionView::Respond(answer_message(id, text)))
}

/// What is said of one watcher error.
pub open spec fn watcher_error(error: Seq<char>) -> Seq<char> {
    "Watcher error: "@ + error
}

/// To report watcher errors, the first one first.
pub open spec fn report(errors: Seq<Seq<char>>) -> (TaskStateView, ReactionView) {
    if errors.len() == 0 {
        rest()
    } else {
        let line = watcher_error(errors[0]);
        (
            TaskStateView::Reporting { errors: errors.skip(1) },
            ReactionView {
                log: Some(line),
                action: TaskActionView::Respond(answer_message(0, line)),
            },
        )
    }
}

/// Whether a change calls for reading the file again.
pub open spec fn is_relevant(change: Change) -> bool {
    change.modified && change.watched
}

/// How many changes call for reading the file again.
pub open spec fn relevant(changes: Seq<Change>) -> nat {
    changes.filter(|change: Change| is_relevant(change)).len()
}

/// To read the file again for each of so many changes.
pub open spec fn reread(changes: nat) -> (TaskStateView, ReactionView) {
    if changes == 0 {
        rest()
    } else {
        on(TaskStateView::Reading { more: (changes - 1) as nat }, TaskActionView::ReadFile)
    }
}

/// What the client is told of a changed file.
pub open spec fn changed_message(file: Option<CodeChatForWeb>) -> EditorMessageView {
    match file {
        Some(file) => file_message(file),
        None => closed_message(),
    }
}

/// What is said of a file that could not be treated in some way.
pub open spec fn file_error(deed: Seq<char>, path: Seq<char>, error: Seq<char>) -> Seq<char> {
    "Unable to "@ + deed + " file '"@ + path + "': "@ + error + "."@
}

/// To deal with a message of the client's.
pub open spec fn receive(message: EditorMessageView) -> (TaskStateView, ReactionView) {
    match message.message {
        // With nothing to save there is nothing that can go wrong.
        EditorMessageContentsView::Update(update) => match update.contents {
            None => respond(message.id, ""@),
            Some(file) => on(
                TaskStateView::Decoding { id: message.id },
                TaskActionView::Decode(file),
            ),
        },
        EditorMessageContentsView::Result(error) => (
            TaskStateView::Idle,
            ReactionView {
                log: if error.len() == 0 {
                    None
                } else {
                    Some(
                        "Error in message "@ + text::decimal(message.id as nat) + ": "@ + error
                            + "."@,
                    )
                },
                action: TaskActionView::Await,
            },
        ),
        EditorMessageContentsView::Closed => drain(),
        EditorMessageContentsView::Opened(_) | EditorMessageContentsView::ClientHtml(_)
        | EditorMessageContentsView::RequestClose => {
            let answer = message::unsupported_answer(message);
            (
                TaskStateView::Responding,
                ReactionView {
                    log: Some(answer),
                    action: TaskActionView::Respond(answer_message(message.id, answer)),
                },
            )
        },
        EditorMessageContentsView::CurrentFile(_) | EditorMessageContentsView::LoadFile(_) => rest(),
    }
}

/// A note with a text in place of the string.
pub open spec fn note_view(note: Option<Note>) -> Option<(NoteLevel, Seq<char>)> {
    match note {
        Some(note) => Some((note.level, note.text@)),
        None => None,
    }
}

/// The note on a change: there is one if the change is of no interest.
pub open spec fn change_note(change: Change, shown: Seq<char>) -> Option<(NoteLevel, Seq<char>)> {
    if !change.modified {
        Some((NoteLevel::Info, "Watcher event: "@ + shown + "."@))
    } else if !change.watched {
        Some((NoteLevel::Warning, "TODO: Modification to different file."@))
    } else {
        None
    }
}

/// The note on a message of the client's: there is one if the message ends the
/// task or goes unhandled.
pub open spec fn message_note(message: EditorMessageView) -> Option<(NoteLevel, Seq<char>)> {
    match message.message {
        EditorMessageContentsView::Closed => Some((NoteLevel::Info, "Filewatcher closing"@)),
        EditorMessageContentsView::CurrentFile(url) => Some(
            (
                NoteLevel::Warning,
                "Unhandled message CurrentFile("@ + text::debug_text(url) + ")"@,
            ),
        ),
        EditorMessageContentsView::LoadFile(path) => Some(
            (NoteLevel::Warning, "Unhandled message LoadFile("@ + text::debug_text(path) + ")"@),
        ),
        _ => None,
    }
}

/// The file of a task: its path, and the URL that the client is told.
pub struct OwnFile {
    pub path: Seq<char>,
    pub url: Seq<char>,
}

impl OwnFile {
    /// The URL is one of the file at the path.
    pub open spec fn wf(self) -> bool {
        paths::is_file_url(self.path, self.url)
    }
}

/// What a task does on an event that it waits for, and what it waits for next.
pub open spec fn transition(own: OwnFile, state: TaskStateView, event: TaskEventView) -> (
    TaskStateView,
    ReactionView,
)
    recommends
        accepts(state, event),
{
    match (state, event) {
        // Starting up.
        (TaskStateView::Creating, TaskEventView::WatcherCreated(created)) => if created {
            on(TaskStateView::Watching, TaskActionView::Watch)
        } else {
            give_up("Unable to create debouncer."@)
        },
        (TaskStateView::Watching, TaskEventView::Watched(watched)) => match watched {
            Ok(_) => on(TaskStateView::Connecting, TaskActionView::Connect),
            Err(error) => give_up("Unable to watch file: "@ + error),
        },
        (TaskStateView::Connecting, TaskEventView::Connected) => on(
            TaskStateView::Announcing,
            TaskActionView::Send(file_is_open(own.url)),
        ),
        (TaskStateView::Announcing, TaskEventView::Sent(sent)) => if sent {
            on(TaskStateView::Listening, TaskActionView::Listen)
        } else {
            on(TaskStateView::Stopped, TaskActionView::Stop)
        },
        (TaskStateView::Listening, TaskEventView::Listening) => rest(),
        // Something has happened.
        (TaskStateView::Idle, TaskEventView::WatcherErrors(errors)) => report(errors),
        (TaskStateView::Idle, TaskEventView::Changes(changes)) => reread(relevant(changes)),
        (TaskStateView::Idle, TaskEventView::Request { url, is_toc }) => on(
            TaskStateView::Fetching { url, is_toc },
            TaskActionView::Fetch(url),
        ),
        (TaskStateView::Idle, TaskEventView::Message(message)) => receive(message),
        (TaskStateView::Idle, TaskEventView::Disconnected) => drain(),
        // The watcher failed.
        (TaskStateView::Reporting { errors }, TaskEventView::Responded) => report(errors),
        // The file has changed.
        (TaskStateView::Reading { more }, TaskEventView::FileRead(read)) => match read {
            // It has been moved or deleted.
            FileReadView::NotOpened(_) => on(
                TaskStateView::Notifying { more },
                TaskActionView::Send(closed_message()),
            ),
            FileReadView::NotText(partial) => on(
                TaskStateView::Closing { more, contents: partial },
                TaskActionView::Send(closed_message()),
            ),
            FileReadView::Text(text) => on(
                TaskStateView::Translating { more },
                TaskActionView::Translate(text),
            ),
        },
        (TaskStateView::Closing { more, contents }, TaskEventView::Sent(sent)) => if sent {
            on(TaskStateView::Translating { more }, TaskActionView::Translate(contents))
        } else {
            rest()
        },
        (TaskStateView::Translating { more }, TaskEventView::Translated(file)) => on(
            TaskStateView::Notifying { more },
            TaskActionView::Send(changed_message(file)),
        ),
        (TaskStateView::Notifying { more }, TaskEventView::Sent(sent)) => if sent {
            reread(more)
        } else {
            rest()
        },
        // A file is requested.
        (TaskStateView::Fetching { url, is_toc }, TaskEventView::FileRead(read)) => match serving::text_or_response(
            url,
            read,
        ) {
            Ok(contents) => on(
                TaskStateView::Serving,
                TaskActionView::Serve { url, contents, is_toc },
            ),
            Err(response) => on(TaskStateView::Answering, TaskActionView::Answer(response)),
        },
        (TaskStateView::Serving, TaskEventView::Served { response, update }) => match update {
            Some(file) => on(
                TaskStateView::Updating { response },
                TaskActionView::Send(file_message(file)),
            ),
            None => on(TaskStateView::Answering, TaskActionView::Answer(response)),
        },
        (TaskStateView::Updating { response }, TaskEventView::Sent(sent)) => if sent {
            on(TaskStateView::Answering, TaskActionView::Answer(response))
        } else {
            drain()
        },
        (TaskStateView::Answering, TaskEventView::Sent(sent)) => if sent {
            rest()
        } else {
            drain()
        },
        // The client has changed the file.
        (TaskStateView::Decoding { id }, TaskEventView::Decoded(decoded)) => match decoded {
            Ok(contents) => on(TaskStateView::Unwatching { id, contents }, TaskActionView::Unwatch),
            Err(error) => respond(id, "Unable to translate to source: "@ + error),
        },
        (TaskStateView::Unwatching { id, contents }, TaskEventView::Unwatched(unwatched)) => match unwatched {
            Ok(_) => on(TaskStateView::Saving { id }, TaskActionView::Write(contents)),
            Err(error) => respond(id, file_error("unwatch"@, own.path, error)),
        },
        (TaskStateView::Saving { id }, TaskEventView::Written(written)) => match written {
            Ok(_) => on(TaskStateView::Rewatching { id }, TaskActionView::Watch),
            Err(error) => respond(id, file_error("save"@, own.path, error)),
        },
        (TaskStateView::Rewatching { id }, TaskEventView::Watched(watched)) => match watched {
            Ok(_) => respond(id, ""@),
            Err(error) => respond(id, file_error("watch"@, own.path, error)),
        },
        (TaskStateView::Responding, TaskEventView::Responded) => rest(),
        (TaskStateView::Draining, TaskEventView::Drained) => on(
            TaskStateView::Stopped,
            TaskActionView::Stop,
        ),
        _ => arbitrary(),
    }
}

} // verus!
