//! What a task does in each of its states, event by event.

use crate::message;
use crate::message::{
    CodeChatForWeb, EditorMessageContentsView, EditorMessageView, UpdateMessageContents,
};
use crate::paths;
use crate::serving::{FileReadView, SimpleHttpResponseView};
use crate::task::{Change, NoteLevel};
use crate::task_model;
use crate::task_model::{
    OwnFile, ReactionView, TaskActionView, TaskEventView, TaskStateView,
};
use crate::text;
use vstd::prelude::*;

verus! {

/// A task starts with a watcher, watches its file, sets up the websocket, tells
/// the client which file is open, sets up the queue of requests, and waits. If
/// one of the first two fails, the task ends and the log holds why; if the client
/// cannot be told, it ends.
pub proof fn law_steps_of_starting(own: OwnFile, error: Seq<char>)
    ensures
        task_model::transition(
            own,
            TaskStateView::Creating,
            TaskEventView::WatcherCreated(true),
        ) == (
            TaskStateView::Watching,
            ReactionView { log: None, action: TaskActionView::Watch },
        ),
        task_model::transition(
            own,
            TaskStateView::Creating,
            TaskEventView::WatcherCreated(false),
        ) == (
            TaskStateView::Stopped,
            ReactionView {
                log: Some("Unable to create debouncer."@),
                action: TaskActionView::Stop,
            },
        ),
        task_model::transition(own, TaskStateView::Watching, TaskEventView::Watched(Ok(()))) == (
            TaskStateView::Connecting,
            ReactionView { log: None, action: TaskActionView::Connect },
        ),
        task_model::transition(
            own,
            TaskStateView::Watching,
            TaskEventView::Watched(Err(error)),
        ) == (
            TaskStateView::Stopped,
            ReactionView {
                log: Some("Unable to watch file: "@ + error),
                action: TaskActionView::Stop,
            },
        ),
        task_model::transition(own, TaskStateView::Connecting, TaskEventView::Connected) == (
            TaskStateView::Announcing,
            ReactionView { log: None, action: TaskActionView::Send(
                EditorMessageView {
                    id: 0,
                    message: EditorMessageContentsView::CurrentFile(
                        own.url,
                    ),
                },
            ) },
        ),
        task_model::transition(own, TaskStateView::Announcing, TaskEventView::Sent(true)) == (
            TaskStateView::Listening,
            ReactionView { log: None, action: TaskActionView::Listen },
        ),
        task_model::transition(own, TaskStateView::Announcing, TaskEventView::Sent(false)) == (
            TaskStateView::Stopped,
            ReactionView { log: None, action: TaskActionView::Stop },
        ),
        task_model::transition(own, TaskStateView::Listening, TaskEventView::Listening) == (
            TaskStateView::Idle,
            ReactionView { log: None, action: TaskActionView::Await },
        ),
{
}

/// When the changed file has been read, its whole text is translated. If it
/// translates to a file for the client, the client is sent just that file, and
/// neither a cursor nor a scroll position. If it does not, the client is told
/// that the file is closed.
pub proof fn law_client_gets_the_changed_file(
    own: OwnFile,
    more: nat,
    text: Seq<char>,
    file: CodeChatForWeb,
)
    ensures
        task_model::transition(
            own,
            TaskStateView::Reading { more },
            TaskEventView::FileRead(FileReadView::Text(text)),
        ) == (
            TaskStateView::Translating { more },
            ReactionView { log: None, action: TaskActionView::Translate(text) },
        ),
        task_model::transition(
            own,
            TaskStateView::Translating { more },
            TaskEventView::Translated(Some(file)),
        ) == (
            TaskStateView::Notifying { more },
            ReactionView { log: None, action: TaskActionView::Send(
                EditorMessageView { id: 0, message: EditorMessageContentsView::Update(
                    UpdateMessageContents {
                        contents: Some(file),
                        cursor_position: None,
                        scroll_position: None,
                    },
                ) },
            ) },
        ),
        task_model::transition(
            own,
            TaskStateView::Translating { more },
            TaskEventView::Translated(None),
        ) == (
            TaskStateView::Notifying { more },
            ReactionView { log: None, action: TaskActionView::Send(
                EditorMessageView { id: 0, message: EditorMessageContentsView::Closed },
            ) },
        ),
{
}

/// When the changed file cannot be opened, or is not text, the client is told
/// that the file is closed; in the second case what could be read is translated
/// next.
pub proof fn law_client_learns_of_an_unreadable_file(
    own: OwnFile,
    more: nat,
    error: Seq<char>,
    partial: Seq<char>,
)
    ensures
        task_model::transition(
            own,
            TaskStateView::Reading { more },
            TaskEventView::FileRead(FileReadView::NotOpened(error)),
        ) == (
            TaskStateView::Notifying { more },
            ReactionView { log: None, action: TaskActionView::Send(
                EditorMessageView { id: 0, message: EditorMessageContentsView::Closed },
            ) },
        ),
        task_model::transition(
            own,
            TaskStateView::Reading { more },
            TaskEventView::FileRead(FileReadView::NotText(partial)),
        ) == (
            TaskStateView::Closing { more, contents: partial },
            ReactionView { log: None, action: TaskActionView::Send(
                EditorMessageView { id: 0, message: EditorMessageContentsView::Closed },
            ) },
        ),
        task_model::transition(
            own,
            TaskStateView::Closing { more, contents: partial },
            TaskEventView::Sent(true),
        ) == (
            TaskStateView::Translating { more },
            ReactionView { log: None, action: TaskActionView::Translate(partial) },
        ),
{
}

/// When the client has been told of a change, the file is read again for the next
/// one, if there are more. When the client cannot be told, the task waits.
pub proof fn law_next_change_is_looked_at(own: OwnFile, more: nat, partial: Seq<char>)
    ensures
        task_model::transition(
            own,
            TaskStateView::Notifying { more: 0 },
            TaskEventView::Sent(true),
        ) == (
            TaskStateView::Idle,
            ReactionView { log: None, action: TaskActionView::Await },
        ),
        task_model::transition(
            own,
            TaskStateView::Notifying { more: more + 1 },
            TaskEventView::Sent(true),
        ) == (
            TaskStateView::Reading { more },
            ReactionView { log: None, action: TaskActionView::ReadFile },
        ),
        task_model::transition(
            own,
            TaskStateView::Notifying { more },
            TaskEventView::Sent(false),
        ) == (
            TaskStateView::Idle,
            ReactionView { log: None, action: TaskActionView::Await },
        ),
        task_model::transition(
            own,
            TaskStateView::Closing { more, contents: partial },
            TaskEventView::Sent(false),
        ) == (
            TaskStateView::Idle,
            ReactionView { log: None, action: TaskActionView::Await },
        ),
{
}

/// The file is read if it was modified, once for each time: changes count that
/// are modifications, of the task's file alone. If there are none, the task waits.
pub proof fn law_modifications_are_counted(own: OwnFile, changes: Seq<Change>)
    ensures
        ({
            let count = changes.filter(|change: Change| change.modified && change.watched).len();
            let step = task_model::transition(
                own,
                TaskStateView::Idle,
                TaskEventView::Changes(changes),
            );
            &&& count == 0 ==> step == (
                TaskStateView::Idle,
                ReactionView { log: None, action: TaskActionView::Await },
            )
            &&& count > 0 ==> step == (
                TaskStateView::Reading { more: (count - 1) as nat },
                ReactionView { log: None, action: TaskActionView::ReadFile },
            )
        }),
{
    assert((|change: Change| change.modified && change.watched) =~= (|change: Change|
        task_model::is_relevant(change)));
}

/// One more change counts just if it is a modification of the task's file.
pub proof fn law_each_modification_counts(changes: Seq<Change>, change: Change)
    ensures
        task_model::relevant(Seq::empty()) == 0,
        task_model::relevant(changes.push(change)) == task_model::relevant(changes) + (
        if change.modified && change.watched {
            1nat
        } else {
            0nat
        }),
{
    reveal(Seq::filter);
    changes.lemma_filter_len_push(|c: Change| task_model::is_relevant(c), change);
}

/// A watcher error is logged and told to the client, and then the next one. With
/// none left the task waits.
pub proof fn law_each_watcher_error_is_told(own: OwnFile, error: Seq<char>, others: Seq<Seq<char>>)
    ensures
        ({
            let errors = seq![error] + others;
            let told = (
                TaskStateView::Reporting { errors: others },
                ReactionView {
                    log: Some("Watcher error: "@ + error),
                    action: TaskActionView::Respond(
                        EditorMessageView {
                            id: 0,
                            message: EditorMessageContentsView::Result("Watcher error: "@ + error),
                        },
                    ),
                },
            );
            &&& task_model::transition(
                own,
                TaskStateView::Idle,
                TaskEventView::WatcherErrors(errors),
            ) == told
            &&& task_model::transition(
                own,
                TaskStateView::Reporting { errors },
                TaskEventView::Responded,
            ) == told
        }),
        task_model::transition(
            own,
            TaskStateView::Idle,
            TaskEventView::WatcherErrors(Seq::empty()),
        ) == (
            TaskStateView::Idle,
            ReactionView { log: None, action: TaskActionView::Await },
        ),
        task_model::transition(
            own,
            TaskStateView::Reporting { errors: Seq::empty() },
            TaskEventView::Responded,
        ) == (
            TaskStateView::Idle,
            ReactionView { log: None, action: TaskActionView::Await },
        ),
{
    assert((seq![error] + others).skip(1) =~= others);
}

/// A request has the file at its path read. If it is text, it is served with its
/// whole text. If it is not text, the answer is the file itself; if it cannot be
/// opened, the answer is why.
pub proof fn law_requested_file_is_served(
    own: OwnFile,
    url: Seq<char>,
    is_toc: bool,
    text: Seq<char>,
    reason: Seq<char>,
)
    ensures
        task_model::transition(
            own,
            TaskStateView::Idle,
            TaskEventView::Request { url, is_toc },
        ) == (
            TaskStateView::Fetching { url, is_toc },
            ReactionView { log: None, action: TaskActionView::Fetch(url) },
        ),
        task_model::transition(
            own,
            TaskStateView::Fetching { url, is_toc },
            TaskEventView::FileRead(FileReadView::Text(text)),
        ) == (
            TaskStateView::Serving,
            ReactionView { log: None, action: TaskActionView::Serve { url, contents: text, is_toc } },
        ),
        task_model::transition(
            own,
            TaskStateView::Fetching { url, is_toc },
            TaskEventView::FileRead(FileReadView::NotText(text)),
        ) == (
            TaskStateView::Answering,
            ReactionView { log: None, action: TaskActionView::Answer(SimpleHttpResponseView::Bin(url)) },
        ),
        task_model::transition(
            own,
            TaskStateView::Fetching { url, is_toc },
            TaskEventView::FileRead(FileReadView::NotOpened(reason)),
        ) == (
            TaskStateView::Answering,
            ReactionView { log: None, action: TaskActionView::Answer(
                SimpleHttpResponseView::Error("<p>Error opening file "@ + url + ": "@ + reason + "."@),
            ) },
        ),
{
}

/// The response that serves a file is sent as it is. If the file is the one that
/// the client edits, the client is sent it first. If one of them cannot be sent,
/// the task takes nothing more in.
pub proof fn law_response_is_sent(
    own: OwnFile,
    response: SimpleHttpResponseView,
    file: CodeChatForWeb,
)
    ensures
        task_model::transition(
            own,
            TaskStateView::Serving,
            TaskEventView::Served { response, update: None },
        ) == (
            TaskStateView::Answering,
            ReactionView { log: None, action: TaskActionView::Answer(response) },
        ),
        task_model::transition(
            own,
            TaskStateView::Serving,
            TaskEventView::Served { response, update: Some(file) },
        ) == (
            TaskStateView::Updating { response },
            ReactionView { log: None, action: TaskActionView::Send(
                EditorMessageView { id: 0, message: EditorMessageContentsView::Update(
                    UpdateMessageContents {
                        contents: Some(file),
                        cursor_position: None,
                        scroll_position: None,
                    },
                ) },
            ) },
        ),
        task_model::transition(
            own,
            TaskStateView::Updating { response },
            TaskEventView::Sent(true),
        ) == (
            TaskStateView::Answering,
            ReactionView { log: None, action: TaskActionView::Answer(response) },
        ),
        task_model::transition(
            own,
            TaskStateView::Updating { response },
            TaskEventView::Sent(false),
        ) == (
            TaskStateView::Draining,
            ReactionView { log: None, action: TaskActionView::Drain },
        ),
        task_model::transition(own, TaskStateView::Answering, TaskEventView::Sent(true)) == (
            TaskStateView::Idle,
            ReactionView { log: None, action: TaskActionView::Await },
        ),
        task_model::transition(own, TaskStateView::Answering, TaskEventView::Sent(false)) == (
            TaskStateView::Draining,
            ReactionView { log: None, action: TaskActionView::Drain },
        ),
{
}

/// A file that the client sends is translated; the watch is lifted, the
/// translation saved as it is, and the watch restored. The client gets an empty
/// answer then.
pub proof fn law_steps_of_saving(
    own: OwnFile,
    id: u32,
    update: UpdateMessageContents,
    contents: Seq<char>,
)
    ensures
        task_model::transition(
            own,
            TaskStateView::Idle,
            TaskEventView::Message(
                EditorMessageView { id, message: EditorMessageContentsView::Update(update) },
            ),
        ) == match update.contents {
            Some(file) => (
                TaskStateView::Decoding { id },
                ReactionView { log: None, action: TaskActionView::Decode(file) },
            ),
            None => (
                TaskStateView::Responding,
                ReactionView { log: None, action: TaskActionView::Respond(
                    EditorMessageView { id, message: EditorMessageContentsView::Result(""@) },
                ) },
            ),
        },
        task_model::transition(
            own,
            TaskStateView::Decoding { id },
            TaskEventView::Decoded(Ok(contents)),
        ) == (
            TaskStateView::Unwatching { id, contents },
            ReactionView { log: None, action: TaskActionView::Unwatch },
        ),
        task_model::transition(
            own,
            TaskStateView::Unwatching { id, contents },
            TaskEventView::Unwatched(Ok(())),
        ) == (
            TaskStateView::Saving { id },
            ReactionView { log: None, action: TaskActionView::Write(contents) },
        ),
        task_model::transition(
            own,
            TaskStateView::Saving { id },
            TaskEventView::Written(Ok(())),
        ) == (
            TaskStateView::Rewatching { id },
            ReactionView { log: None, action: TaskActionView::Watch },
        ),
        task_model::transition(
            own,
            TaskStateView::Rewatching { id },
            TaskEventView::Watched(Ok(())),
        ) == (
            TaskStateView::Responding,
            ReactionView { log: None, action: TaskActionView::Respond(
                EditorMessageView { id, message: EditorMessageContentsView::Result(""@) },
            ) },
        ),
{
}

/// If one of the steps of saving fails, none of the others is taken, and the
/// client is told which failed, on which file and why.
pub proof fn law_failure_to_save_is_told(
    own: OwnFile,
    id: u32,
    contents: Seq<char>,
    error: Seq<char>,
)
    ensures
        task_model::transition(
            own,
            TaskStateView::Decoding { id },
            TaskEventView::Decoded(Err(error)),
        ) == (
            TaskStateView::Responding,
            ReactionView { log: None, action: TaskActionView::Respond(
                EditorMessageView {
                    id,
                    message: EditorMessageContentsView::Result(
                        "Unable to translate to source: "@ + error,
                    ),
                },
            ) },
        ),
        task_model::transition(
            own,
            TaskStateView::Unwatching { id, contents },
            TaskEventView::Unwatched(Err(error)),
        ) == (
            TaskStateView::Responding,
            ReactionView { log: None, action: TaskActionView::Respond(
                EditorMessageView {
                    id,
                    message: EditorMessageContentsView::Result(
                        "Unable to "@ + "unwatch"@ + " file '"@ + own.path + "': "@ + error + "."@,
                    ),
                },
            ) },
        ),
        task_model::transition(
            own,
            TaskStateView::Saving { id },
            TaskEventView::Written(Err(error)),
        ) == (
            TaskStateView::Responding,
            ReactionView { log: None, action: TaskActionView::Respond(
                EditorMessageView {
                    id,
                    message: EditorMessageContentsView::Result(
                        "Unable to "@ + "save"@ + " file '"@ + own.path + "': "@ + error + "."@,
                    ),
                },
            ) },
        ),
        task_model::transition(
            own,
            TaskStateView::Rewatching { id },
            TaskEventView::Watched(Err(error)),
        ) == (
            TaskStateView::Responding,
            ReactionView { log: None, action: TaskActionView::Respond(
                EditorMessageView {
                    id,
                    message: EditorMessageContentsView::Result(
                        "Unable to "@ + "watch"@ + " file '"@ + own.path + "': "@ + error + "."@,
                    ),
                },
            ) },
        ),
{
}

/// What else the client sends: that it closes ends the task; a result is logged
/// if it is an error; word of another file goes unheeded; and what is unsupported
/// is answered and logged.
pub proof fn law_other_messages(
    own: OwnFile,
    id: u32,
    message: EditorMessageContentsView,
    words: Seq<char>,
)
    ensures
        task_model::transition(own, TaskStateView::Idle, TaskEventView::Message(
                EditorMessageView { id, message: EditorMessageContentsView::Closed },
            )) == (
            TaskStateView::Draining,
            ReactionView { log: None, action: TaskActionView::Drain },
        ),
        task_model::transition(own, TaskStateView::Idle, TaskEventView::Message(
                EditorMessageView { id, message: EditorMessageContentsView::CurrentFile(words) },
            )) == (
            TaskStateView::Idle,
            ReactionView { log: None, action: TaskActionView::Await },
        ),
        task_model::transition(own, TaskStateView::Idle, TaskEventView::Message(
                EditorMessageView { id, message: EditorMessageContentsView::LoadFile(words) },
            )) == (
            TaskStateView::Idle,
            ReactionView { log: None, action: TaskActionView::Await },
        ),
        task_model::transition(own, TaskStateView::Idle, TaskEventView::Message(
                EditorMessageView { id, message: EditorMessageContentsView::Result(words) },
            )) == (
            TaskStateView::Idle,
            ReactionView { log: if words.len() == 0 {
                    None
                } else {
                    Some("Error in message "@ + text::decimal(id as nat) + ": "@ + words + "."@)
                }, action: TaskActionView::Await },
        ),
        message is Opened || message is ClientHtml || message is RequestClose ==> ({
            let sent = EditorMessageView { id, message };
            let answer = message::unsupported_answer(sent);
            task_model::transition(own, TaskStateView::Idle, TaskEventView::Message(sent)) == (
                TaskStateView::Responding,
                ReactionView {
                    log: Some(answer),
                    action: TaskActionView::Respond(
                        EditorMessageView {
                            id,
                            message: EditorMessageContentsView::Result(
                                answer,
                            ),
                        },
                    ),
                },
            )
        }),
{
}

/// Once an answer is out the task waits. Once nobody is left it takes nothing more
/// in, and then it ends.
pub proof fn law_steps_of_ending(own: OwnFile)
    ensures
        task_model::transition(own, TaskStateView::Responding, TaskEventView::Responded) == (
            TaskStateView::Idle,
            ReactionView { log: None, action: TaskActionView::Await },
        ),
        task_model::transition(own, TaskStateView::Idle, TaskEventView::Disconnected) == (
            TaskStateView::Draining,
            ReactionView { log: None, action: TaskActionView::Drain },
        ),
        task_model::transition(own, TaskStateView::Draining, TaskEventView::Drained) == (
            TaskStateView::Stopped,
            ReactionView { log: None, action: TaskActionView::Stop },
        ),
{
}

/// The client is told that the file is closed just if the changed file could not be
/// read as text, or translates to nothing.
pub proof fn law_closed_is_said_just_then(own: OwnFile, state: TaskStateView, event: TaskEventView)
    requires
        task_model::accepts(state, event),
    ensures
        (task_model::transition(own, state, event).1.action matches TaskActionView::Send(message)
            && message.message is Closed) <==> {
            ||| state is Reading && (event matches TaskEventView::FileRead(read) && !(read is Text))
            ||| state is Translating && event == TaskEventView::Translated(None)
        },
{
}

/// The client is sent a file just if the changed file translates to it, or if it is
/// requested and for the client to edit; and it is that file.
pub proof fn law_update_is_sent_just_then(
    own: OwnFile,
    state: TaskStateView,
    event: TaskEventView,
    update: UpdateMessageContents,
)
    requires
        task_model::accepts(state, event),
    ensures
        (task_model::transition(own, state, event).1.action == TaskActionView::Send(
            EditorMessageView { id: 0, message: EditorMessageContentsView::Update(update) },
        )) <==> {
            &&& update.cursor_position is None
            &&& update.scroll_position is None
            &&& update.contents is Some
            &&& {
                ||| state is Translating && event == TaskEventView::Translated(update.contents)
                ||| state is Serving && (event matches TaskEventView::Served { update: served, .. }
                    && served == update.contents)
            }
        },
{
}

/// A note is made of each change that the file is not read for, and of each message
/// that ends the task or goes unheeded.
pub proof fn law_notes(change: Change, shown: Seq<char>, id: u32, words: Seq<char>)
    ensures
        task_model::change_note(change, shown) == if change.modified && change.watched {
            None
        } else if change.modified {
            Some((NoteLevel::Warning, "TODO: Modification to different file."@))
        } else {
            Some((NoteLevel::Info, "Watcher event: "@ + shown + "."@))
        },
        task_model::message_note(EditorMessageView { id, message: EditorMessageContentsView::Closed })
            == Some((NoteLevel::Info, "Filewatcher closing"@)),
        task_model::message_note(
            EditorMessageView { id, message: EditorMessageContentsView::CurrentFile(words) },
        ) == Some(
            (
                NoteLevel::Warning,
                "Unhandled message CurrentFile("@ + text::debug_text(words) + ")"@,
            ),
        ),
        task_model::message_note(
            EditorMessageView { id, message: EditorMessageContentsView::LoadFile(words) },
        ) == Some(
            (NoteLevel::Warning, "Unhandled message LoadFile("@ + text::debug_text(words) + ")"@),
        ),
{
}

/// No note is made of a message that is answered or logged.
pub proof fn law_no_note_of_the_rest(message: EditorMessageView)
    ensures
        task_model::message_note(message) is Some <==> message.message is Closed || message.message is CurrentFile
            || message.message is LoadFile,
{
}

/// The URL that the client is told is one of the task's own file.
pub proof fn law_own_url(own: OwnFile)
    ensures
        own.wf() <==> paths::is_file_url(own.path, own.url),
{
}

} // verus!
