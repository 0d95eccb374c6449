//! What holds of the task of an open file, whatever happens to it.

use crate::message;
use crate::message::{
    CodeChatForWeb, EditorMessageContentsView, EditorMessageView, UpdateMessageContents,
};
use crate::path_laws;
use crate::paths;
use crate::serving::{FileReadView, SimpleHttpResponseView};
use crate::task::Change;
use crate::task_model;
use crate::task_model::{OwnFile, ReactionView, TaskActionView, TaskEventView, TaskStateView};
use vstd::prelude::*;

verus! {

/// The state after some events, and what was done on each of them.
pub open spec fn run(own: OwnFile, state: TaskStateView, events: Seq<TaskEventView>) -> (
    TaskStateView,
    Seq<TaskActionView>,
)
    decreases events.len(),
{
    if events.len() == 0 {
        (state, seq![])
    } else {
        let (last, actions) = run(own, state, events.drop_last());
        let (next, reaction) = task_model::transition(own, last, events.last());
        (next, actions.push(reaction.action))
    }
}

/// Whether each event is one that the task waits for by then.
pub open spec fn can_run(own: OwnFile, state: TaskStateView, events: Seq<TaskEventView>) -> bool
    decreases events.len(),
{
    events.len() == 0 || {
        &&& can_run(own, state, events.drop_last())
        &&& task_model::accepts(run(own, state, events.drop_last()).0, events.last())
    }
}

/// One more event.
proof fn lemma_run_push(
    own: OwnFile,
    state: TaskStateView,
    events: Seq<TaskEventView>,
    event: TaskEventView,
)
    ensures
        ({
            let (last, actions) = run(own, state, events);
            let (next, reaction) = task_model::transition(own, last, event);
            &&& run(own, state, events.push(event)) == (next, actions.push(reaction.action))
            &&& can_run(own, state, events.push(event)) == (can_run(own, state, events)
                && task_model::accepts(last, event))
        }),
{
    assert(events.push(event).drop_last() =~= events);
}

/// Whether this event can come of this action.
pub open spec fn comes_of(action: TaskActionView, event: TaskEventView) -> bool {
    match action {
        TaskActionView::CreateWatcher => event is WatcherCreated,
        TaskActionView::Watch => event is Watched,
        TaskActionView::Unwatch => event is Unwatched,
        TaskActionView::Connect => event is Connected,
        TaskActionView::Listen => event is Listening,
        TaskActionView::Await => {
            ||| event is WatcherErrors
            ||| event is Changes
            ||| event is Request
            ||| event is Message
            ||| event is Disconnected
        },
        TaskActionView::Send(_) => event is Sent,
        TaskActionView::Respond(_) => event is Responded,
        TaskActionView::ReadFile => event is FileRead,
        TaskActionView::Translate(_) => event is Translated,
        TaskActionView::Fetch(_) => event is FileRead,
        TaskActionView::Serve { .. } => event is Served,
        TaskActionView::Answer(_) => event is Sent,
        TaskActionView::Decode(_) => event is Decoded,
        TaskActionView::Write(_) => event is Written,
        TaskActionView::Drain => event is Drained,
        TaskActionView::Stop => false,
    }
}

/// A task never gets stuck: after each step it waits for exactly what can come
/// of the action that it named.
pub proof fn law_waits_for_what_it_asked(
    own: OwnFile,
    state: TaskStateView,
    event: TaskEventView,
    next: TaskEventView,
)
    requires
        task_model::accepts(state, event),
    ensures
        ({
            let (after, reaction) = task_model::transition(own, state, event);
            task_model::accepts(after, next) <==> comes_of(reaction.action, next)
        }),
{
}

/// How many steps at most a task in this state takes until it is idle or has
/// ended.
pub open spec fn work(state: TaskStateView) -> nat {
    match state {
        TaskStateView::Creating => 5,
        TaskStateView::Watching => 4,
        TaskStateView::Connecting => 3,
        TaskStateView::Announcing => 2,
        TaskStateView::Listening => 1,
        TaskStateView::Idle => 0,
        TaskStateView::Reporting { errors } => errors.len() + 1,
        TaskStateView::Reading { more } => 4 * more + 4,
        TaskStateView::Closing { more, .. } => 4 * more + 3,
        TaskStateView::Translating { more } => 4 * more + 2,
        TaskStateView::Notifying { more } => 4 * more + 1,
        TaskStateView::Fetching { .. } => 5,
        TaskStateView::Serving => 4,
        TaskStateView::Updating { .. } => 3,
        TaskStateView::Answering => 2,
        TaskStateView::Decoding { .. } => 5,
        TaskStateView::Unwatching { .. } => 4,
        TaskStateView::Saving { .. } => 3,
        TaskStateView::Rewatching { .. } => 2,
        TaskStateView::Responding => 1,
        TaskStateView::Draining => 1,
        TaskStateView::Stopped => 0,
    }
}

/// Whatever a task is busy with comes to an end: each step brings it closer to
/// being idle again, or to its end.
pub proof fn law_work_ends(own: OwnFile, state: TaskStateView, event: TaskEventView)
    requires
        task_model::accepts(state, event),
        !(state is Idle),
    ensures
        work(task_model::transition(own, state, event).0) < work(state),
        work(state) > 0,
{
}

/// A task asks to wait exactly when it is idle, and to stop exactly when it has
/// ended; one that has ended takes no event.
pub proof fn law_idle_and_ended(own: OwnFile, state: TaskStateView, event: TaskEventView)
    requires
        task_model::accepts(state, event),
    ensures
        ({
            let (after, reaction) = task_model::transition(own, state, event);
            &&& reaction.action is Await <==> after is Idle
            &&& reaction.action is Stop <==> after is Stopped
            &&& !(state is Stopped)
        }),
{
}

/// A task that starts up without a failure watches its file, sets up the
/// websocket's queues, tells the client the URL of the file before anything
/// else, and only then takes HTTP requests. The URL is that of the task's own
/// file.
pub proof fn law_file_is_announced(own: OwnFile)
    requires
        own.wf(),
    ensures
        ({
            let events = seq![
                TaskEventView::WatcherCreated(true),
                TaskEventView::Watched(Ok(())),
                TaskEventView::Connected,
                TaskEventView::Sent(true),
                TaskEventView::Listening,
            ];
            &&& can_run(own, TaskStateView::Creating, events)
            &&& run(own, TaskStateView::Creating, events) == (
                TaskStateView::Idle,
                seq![
                    TaskActionView::Watch,
                    TaskActionView::Connect,
                    TaskActionView::Send(
                        EditorMessageView {
                            id: 0,
                            message: EditorMessageContentsView::CurrentFile(own.url),
                        },
                    ),
                    TaskActionView::Listen,
                    TaskActionView::Await,
                ],
            )
        }),
        paths::is_plain(own.path) ==> own.url == paths::file_url(own.path),
{
    let start = TaskStateView::Creating;
    let events = seq![
        TaskEventView::WatcherCreated(true),
        TaskEventView::Watched(Ok(())),
        TaskEventView::Connected,
        TaskEventView::Sent(true),
        TaskEventView::Listening,
    ];
    let none = Seq::<TaskEventView>::empty();
    let e0 = none.push(events[0]);
    let e1 = e0.push(events[1]);
    let e2 = e1.push(events[2]);
    let e3 = e2.push(events[3]);
    lemma_run_push(own, start, none, events[0]);
    lemma_run_push(own, start, e0, events[1]);
    lemma_run_push(own, start, e1, events[2]);
    lemma_run_push(own, start, e2, events[3]);
    lemma_run_push(own, start, e3, events[4]);
    assert(events =~= e3.push(events[4]));
    assert(run(own, start, events).1 =~= seq![
        TaskActionView::Watch,
        TaskActionView::Connect,
        TaskActionView::Send(task_model::file_is_open(own.url)),
        TaskActionView::Listen,
        TaskActionView::Await,
    ]);
    path_laws::law_plain_path_has_one_url(own.path, own.url);
}

/// The URL of the file matters to its announcement alone: on any other event,
/// what a task does depends on the path, its state and the event.
pub proof fn law_url_matters_once(
    own: OwnFile,
    other: OwnFile,
    state: TaskStateView,
    event: TaskEventView,
)
    requires
        own.path == other.path,
        task_model::accepts(state, event),
        !(state is Connecting),
    ensures
        task_model::transition(own, state, event) == task_model::transition(other, state, event),
{
}

/// A task that fails to start up ends at once: it is never idle.
pub proof fn law_failed_start_ends(own: OwnFile, error: Seq<char>)
    ensures
        task_model::transition(
            own,
            TaskStateView::Creating,
            TaskEventView::WatcherCreated(false),
        ).0 is Stopped,
        task_model::transition(
            own,
            TaskStateView::Watching,
            TaskEventView::Watched(Err(error)),
        ).0 is Stopped,
        task_model::transition(
            own,
            TaskStateView::Announcing,
            TaskEventView::Sent(false),
        ).0 is Stopped,
{
}

/// The id of the client's message that is being dealt with; 0 if there is none.
pub open spec fn asked_by(state: TaskStateView, event: TaskEventView) -> u32 {
    match (state, event) {
        (TaskStateView::Decoding { id }, _) => id,
        (TaskStateView::Unwatching { id, .. }, _) => id,
        (TaskStateView::Saving { id }, _) => id,
        (TaskStateView::Rewatching { id }, _) => id,
        (_, TaskEventView::Message(message)) => message.id,
        _ => 0,
    }
}

/// An answer carries the id of the message that it answers. Whatever else the
/// client is sent carries the id 0.
pub proof fn law_message_ids(own: OwnFile, state: TaskStateView, event: TaskEventView)
    requires
        task_model::accepts(state, event),
    ensures
        match task_model::transition(own, state, event).1.action {
            TaskActionView::Send(message) => message.id == 0 && !(message.message is Result),
            TaskActionView::Respond(message) => {
                &&& message.id == asked_by(state, event)
                &&& message.message is Result
            },
            _ => true,
        },
{
}

/// The id that a message came with is kept for as long as it is dealt with.
pub proof fn law_id_is_kept(
    own: OwnFile,
    state: TaskStateView,
    event: TaskEventView,
    next: TaskEventView,
)
    requires
        task_model::accepts(state, event),
        task_model::accepts(task_model::transition(own, state, event).0, next),
    ensures
        ({
            let after = task_model::transition(own, state, event).0;
            (after is Decoding || after is Unwatching || after is Saving || after is Rewatching)
                ==> asked_by(after, next) == asked_by(state, event)
        }),
{
}

/// The outcome of the attempts that it takes to save a client's file, in their
/// order.
pub struct Attempts {
    pub decoded: Result<Seq<char>, Seq<char>>,
    pub unwatched: Result<(), Seq<char>>,
    pub written: Result<(), Seq<char>>,
    pub watched: Result<(), Seq<char>>,
}

impl Attempts {
    /// What the task is told: nothing is attempted after a failure.
    pub open spec fn events(self) -> Seq<TaskEventView> {
        if self.decoded is Err {
            seq![TaskEventView::Decoded(self.decoded)]
        } else if self.unwatched is Err {
            seq![TaskEventView::Decoded(self.decoded), TaskEventView::Unwatched(self.unwatched)]
        } else if self.written is Err {
            seq![
                TaskEventView::Decoded(self.decoded),
                TaskEventView::Unwatched(self.unwatched),
                TaskEventView::Written(self.written),
            ]
        } else {
            seq![
                TaskEventView::Decoded(self.decoded),
                TaskEventView::Unwatched(self.unwatched),
                TaskEventView::Written(self.written),
                TaskEventView::Watched(self.watched),
            ]
        }
    }

    /// What the task asks for after a translation to source.
    pub open spec fn actions(self) -> Seq<TaskActionView> {
        if self.decoded is Err {
            seq![]
        } else if self.unwatched is Err {
            seq![TaskActionView::Unwatch]
        } else if self.written is Err {
            seq![TaskActionView::Unwatch, TaskActionView::Write(self.decoded->Ok_0)]
        } else {
            seq![
                TaskActionView::Unwatch,
                TaskActionView::Write(self.decoded->Ok_0),
                TaskActionView::Watch,
            ]
        }
    }

    /// What the client is told: the first failure, or nothing.
    pub open spec fn answer(self, path: Seq<char>) -> Seq<char> {
        if self.decoded is Err {
            "Unable to translate to source: "@ + self.decoded->Err_0
        } else if self.unwatched is Err {
            "Unable to "@ + "unwatch"@ + " file '"@ + path + "': "@ + self.unwatched->Err_0 + "."@
        } else if self.written is Err {
            "Unable to "@ + "save"@ + " file '"@ + path + "': "@ + self.written->Err_0 + "."@
        } else if self.watched is Err {
            "Unable to "@ + "watch"@ + " file '"@ + path + "': "@ + self.watched->Err_0 + "."@
        } else {
            ""@
        }
    }
}

/// A client that sends a file gets one answer, with the id of its message: the
/// first thing that went wrong, or nothing. The file is translated, the watch
/// lifted, the source saved and the watch restored, in this order, up to the
/// first failure; what is saved is the translation. Then the task is idle.
pub proof fn law_file_is_saved(
    own: OwnFile,
    id: u32,
    update: UpdateMessageContents,
    attempts: Attempts,
)
    requires
        update.contents is Some,
    ensures
        ({
            let message = EditorMessageView {
                id,
                message: EditorMessageContentsView::Update(update),
            };
            let events = seq![TaskEventView::Message(message)] + attempts.events().push(
                TaskEventView::Responded,
            );
            &&& can_run(own, TaskStateView::Idle, events)
            &&& run(own, TaskStateView::Idle, events) == (
                TaskStateView::Idle,
                seq![TaskActionView::Decode(update.contents->Some_0)] + attempts.actions().push(
                    TaskActionView::Respond(
                        EditorMessageView {
                            id,
                            message: EditorMessageContentsView::Result(attempts.answer(own.path)),
                        },
                    ),
                ).push(TaskActionView::Await),
            )
        }),
{
    let message = EditorMessageView { id, message: EditorMessageContentsView::Update(update) };
    let start = seq![TaskEventView::Message(message)];
    let events = start + attempts.events().push(TaskEventView::Responded);
    let idle = TaskStateView::Idle;
    let none = Seq::<TaskEventView>::empty();
    let e0 = none.push(TaskEventView::Message(message));
    let e1 = e0.push(TaskEventView::Decoded(attempts.decoded));
    let e2 = e1.push(TaskEventView::Unwatched(attempts.unwatched));
    let e3 = e2.push(TaskEventView::Written(attempts.written));
    let e4 = e3.push(TaskEventView::Watched(attempts.watched));
    lemma_run_push(own, idle, none, TaskEventView::Message(message));
    lemma_run_push(own, idle, e0, TaskEventView::Decoded(attempts.decoded));
    let expected = seq![TaskActionView::Decode(update.contents->Some_0)]
        + attempts.actions().push(
        TaskActionView::Respond(task_model::answer_message(id, attempts.answer(own.path))),
    ).push(TaskActionView::Await);
    if attempts.decoded is Err {
        lemma_run_push(own, idle, e1, TaskEventView::Responded);
        assert(events =~= e1.push(TaskEventView::Responded));
    } else {
        lemma_run_push(own, idle, e1, TaskEventView::Unwatched(attempts.unwatched));
        if attempts.unwatched is Err {
            lemma_run_push(own, idle, e2, TaskEventView::Responded);
            assert(events =~= e2.push(TaskEventView::Responded));
        } else {
            lemma_run_push(own, idle, e2, TaskEventView::Written(attempts.written));
            if attempts.written is Err {
                lemma_run_push(own, idle, e3, TaskEventView::Responded);
                assert(events =~= e3.push(TaskEventView::Responded));
            } else {
                lemma_run_push(own, idle, e3, TaskEventView::Watched(attempts.watched));
                lemma_run_push(own, idle, e4, TaskEventView::Responded);
                assert(events =~= e4.push(TaskEventView::Responded));
            }
        }
    }
    assert(run(own, idle, events).1 =~= expected);
}

/// The file is written only while the task does not watch it, and only with
/// the translation of what the client sent.
pub proof fn law_writes_unwatched(own: OwnFile, state: TaskStateView, event: TaskEventView)
    requires
        task_model::accepts(state, event),
    ensures
        ({
            let (after, reaction) = task_model::transition(own, state, event);
            &&& reaction.action matches TaskActionView::Write(contents) ==> {
                &&& event matches TaskEventView::Unwatched(Ok(_))
                &&& state matches TaskStateView::Unwatching { contents: decoded, .. }
                &&& contents == decoded
            }
            &&& after matches TaskStateView::Unwatching { contents, .. } ==> {
                &&& event == TaskEventView::Decoded(Ok(contents))
                &&& reaction.action is Unwatch
            }
        }),
{
}

/// An update that brings no file is answered at once, and nothing is wrong.
pub proof fn law_empty_update(own: OwnFile, id: u32, update: UpdateMessageContents)
    requires
        update.contents is None,
    ensures
        ({
            let message = EditorMessageView {
                id,
                message: EditorMessageContentsView::Update(update),
            };
            let (after, reaction) = task_model::transition(
                own,
                TaskStateView::Idle,
                TaskEventView::Message(message),
            );
            &&& after is Responding
            &&& reaction.log is None
            &&& reaction.action == TaskActionView::Respond(
                EditorMessageView { id, message: EditorMessageContentsView::Result(""@) },
            )
        }),
{
}

/// A message that a client may not send is refused: the answer says so, the log
/// holds the same words, and the task is ready for the next message.
pub proof fn law_unsupported_is_refused(own: OwnFile, message: EditorMessageView)
    requires
        message::is_unsupported(message.message),
    ensures
        ({
            let (after, reaction) = task_model::transition(
                own,
                TaskStateView::Idle,
                TaskEventView::Message(message),
            );
            let answer = message::unsupported_answer(message);
            &&& "Client sent unsupported message type"@.is_prefix_of(answer)
            &&& reaction.log == Some(answer)
            &&& reaction.action == TaskActionView::Respond(
                EditorMessageView {
                    id: message.id,
                    message: EditorMessageContentsView::Result(answer),
                },
            )
            &&& task_model::transition(own, after, TaskEventView::Responded) == (
                TaskStateView::Idle,
                ReactionView { log: None, action: TaskActionView::Await },
            )
        }),
{
    reveal_strlit("Client sent unsupported message type");
    reveal_strlit("Client sent unsupported message type EditorMessage { id: ");
    let answer = message::unsupported_answer(message);
    let prefix = "Client sent unsupported message type"@;
    let start = "Client sent unsupported message type EditorMessage { id: "@;
    assert(prefix =~= start.take(prefix.len() as int));
    assert(answer.take(prefix.len() as int) =~= prefix);
}

/// What the task asks for to tell the client of a changed file, once it has
/// been read, if it translates to this.
pub open spec fn telling(read: FileReadView, file: Option<CodeChatForWeb>) -> Seq<TaskActionView> {
    let closed = TaskActionView::Send(
        EditorMessageView { id: 0, message: EditorMessageContentsView::Closed },
    );
    let changed = match file {
        Some(_) => TaskActionView::Send(
            EditorMessageView {
                id: 0,
                message: EditorMessageContentsView::Update(
                    UpdateMessageContents {
                        contents: file,
                        cursor_position: None,
                        scroll_position: None,
                    },
                ),
            },
        ),
        None => closed,
    };
    match read {
        FileReadView::NotOpened(_) => seq![closed],
        FileReadView::NotText(partial) => seq![closed, TaskActionView::Translate(partial), changed],
        FileReadView::Text(text) => seq![TaskActionView::Translate(text), changed],
    }
}

/// What the task is told meanwhile, if every message goes out.
pub open spec fn telling_events(read: FileReadView, file: Option<CodeChatForWeb>) -> Seq<
    TaskEventView,
> {
    let sent = TaskEventView::Sent(true);
    let translated = TaskEventView::Translated(file);
    match read {
        FileReadView::NotOpened(_) => seq![TaskEventView::FileRead(read), sent],
        FileReadView::NotText(_) => seq![TaskEventView::FileRead(read), sent, translated, sent],
        FileReadView::Text(_) => seq![TaskEventView::FileRead(read), translated, sent],
    }
}

/// A client is told of each change to its file. Of a file that is gone it learns
/// that the file is closed. Otherwise it gets the new contents, or learns that
/// the file is closed if it is not one to edit any more; if the file is not
/// text, this second message goes by what could be read, and the client is told
/// before it that the file is closed. Then the next change is looked at.
pub proof fn law_change_is_told(
    own: OwnFile,
    more: nat,
    read: FileReadView,
    file: Option<CodeChatForWeb>,
)
    ensures
        ({
            let events = telling_events(read, file);
            let state = TaskStateView::Reading { more };
            &&& can_run(own, state, events)
            &&& more == 0 ==> run(own, state, events) == (
                TaskStateView::Idle,
                telling(read, file).push(TaskActionView::Await),
            )
            &&& more > 0 ==> run(own, state, events) == (
                TaskStateView::Reading { more: (more - 1) as nat },
                telling(read, file).push(TaskActionView::ReadFile),
            )
        }),
{
    let state = TaskStateView::Reading { more };
    let events = telling_events(read, file);
    let none = Seq::<TaskEventView>::empty();
    let e0 = none.push(TaskEventView::FileRead(read));
    lemma_run_push(own, state, none, TaskEventView::FileRead(read));
    match read {
        FileReadView::NotOpened(_) => {
            lemma_run_push(own, state, e0, TaskEventView::Sent(true));
            assert(events =~= e0.push(TaskEventView::Sent(true)));
        },
        FileReadView::NotText(_) => {
            let e1 = e0.push(TaskEventView::Sent(true));
            let e2 = e1.push(TaskEventView::Translated(file));
            lemma_run_push(own, state, e0, TaskEventView::Sent(true));
            lemma_run_push(own, state, e1, TaskEventView::Translated(file));
            lemma_run_push(own, state, e2, TaskEventView::Sent(true));
            assert(events =~= e2.push(TaskEventView::Sent(true)));
        },
        FileReadView::Text(_) => {
            let e1 = e0.push(TaskEventView::Translated(file));
            lemma_run_push(own, state, e0, TaskEventView::Translated(file));
            lemma_run_push(own, state, e1, TaskEventView::Sent(true));
            assert(events =~= e1.push(TaskEventView::Sent(true)));
        },
    }
    assert(run(own, state, events).1 =~= telling(read, file).push(
        task_model::reread(more).1.action,
    ));
}

/// Events after events.
proof fn lemma_run_concat(
    own: OwnFile,
    state: TaskStateView,
    first: Seq<TaskEventView>,
    second: Seq<TaskEventView>,
)
    ensures
        ({
            let (middle, actions) = run(own, state, first);
            let (last, more) = run(own, middle, second);
            &&& run(own, state, first + second) == (last, actions + more)
            &&& can_run(own, state, first + second) == (can_run(own, state, first) && can_run(
                own,
                middle,
                second,
            ))
        }),
    decreases second.len(),
{
    let (middle, actions) = run(own, state, first);
    if second.len() == 0 {
        assert(first + second =~= first);
        assert(actions + run(own, middle, second).1 =~= actions);
    } else {
        let front = second.drop_last();
        lemma_run_concat(own, state, first, front);
        assert((first + second).drop_last() =~= first + front);
        assert(run(own, state, first + second).1 =~= actions + run(own, middle, second).1);
    }
}

/// What came of reading and translating a changed file.
pub struct Look {
    pub read: FileReadView,
    pub file: Option<CodeChatForWeb>,
}

/// What the task is told while it looks at one change after the other.
pub open spec fn looks_events(looks: Seq<Look>) -> Seq<TaskEventView>
    decreases looks.len(),
{
    if looks.len() == 0 {
        seq![]
    } else {
        looks_events(looks.drop_last()) + telling_events(looks.last().read, looks.last().file)
    }
}

/// What the task asks for meanwhile: it reads the file for each change, and
/// tells the client.
pub open spec fn looks_actions(looks: Seq<Look>) -> Seq<TaskActionView>
    decreases looks.len(),
{
    if looks.len() == 0 {
        seq![]
    } else {
        looks_actions(looks.drop_last()) + (seq![TaskActionView::ReadFile] + telling(
            looks.last().read,
            looks.last().file,
        ))
    }
}

/// The file is read once for each modification of it that was seen, and the
/// client is told of each, in their order. Then the task is idle.
pub proof fn law_all_changes_are_told(own: OwnFile, changes: Seq<Change>, looks: Seq<Look>)
    requires
        looks.len() == changes.filter(|change: Change| change.modified && change.watched).len(),
    ensures
        ({
            let events = seq![TaskEventView::Changes(changes)] + looks_events(looks);
            &&& can_run(own, TaskStateView::Idle, events)
            &&& run(own, TaskStateView::Idle, events) == (
                TaskStateView::Idle,
                looks_actions(looks).push(TaskActionView::Await),
            )
        }),
{
    assert((|change: Change| change.modified && change.watched) =~= (|change: Change|
        task_model::is_relevant(change)));
    lemma_looks(own, changes, looks);
}

/// The task after it has looked at the first so many changes.
proof fn lemma_looks(own: OwnFile, changes: Seq<Change>, looks: Seq<Look>)
    requires
        looks.len() <= task_model::relevant(changes),
    ensures
        ({
            let events = seq![TaskEventView::Changes(changes)] + looks_events(looks);
            let left = (task_model::relevant(changes) - looks.len()) as nat;
            let (state, reaction) = task_model::reread(left);
            &&& can_run(own, TaskStateView::Idle, events)
            &&& run(own, TaskStateView::Idle, events) == (
                state,
                looks_actions(looks).push(reaction.action),
            )
        }),
    decreases looks.len(),
{
    let idle = TaskStateView::Idle;
    let start = seq![TaskEventView::Changes(changes)];
    let events = start + looks_events(looks);
    let left = (task_model::relevant(changes) - looks.len()) as nat;
    let (state, reaction) = task_model::reread(left);
    if looks.len() == 0 {
        let none = Seq::<TaskEventView>::empty();
        lemma_run_push(own, idle, none, TaskEventView::Changes(changes));
        assert(events =~= none.push(TaskEventView::Changes(changes)));
    } else {
        let front = looks.drop_last();
        let look = looks.last();
        let before = start + looks_events(front);
        let telling_them = telling_events(look.read, look.file);
        lemma_looks(own, changes, front);
        lemma_run_concat(own, idle, before, telling_them);
        law_change_is_told(own, left, look.read, look.file);
        assert(events =~= before + telling_them);
    }
    assert(run(own, idle, events).1 =~= looks_actions(looks).push(reaction.action));
}

/// Changes to other files, and whatever is no modification, go unnoticed.
pub proof fn law_other_changes_are_ignored(own: OwnFile, changes: Seq<Change>)
    requires
        forall|i: int|
            0 <= i < changes.len() ==> !(#[trigger] changes[i]).modified || !changes[i].watched,
    ensures
        task_model::transition(own, TaskStateView::Idle, TaskEventView::Changes(changes)) == (
            TaskStateView::Idle,
            ReactionView { log: None, action: TaskActionView::Await },
        ),
    decreases changes.len(),
{
    reveal(Seq::filter);
    if changes.len() > 0 {
        let front = changes.drop_last();
        assert forall|i: int| 0 <= i < front.len() implies !(#[trigger] front[i]).modified
            || !front[i].watched by {
            assert(front[i] == changes[i]);
        }
        assert(changes[changes.len() - 1] == changes.last());
        law_other_changes_are_ignored(own, front);
    }
}

/// Whatever goes unnoticed by the client is noted in the log: a change exactly
/// if the file is not read for it, and a message that is neither dealt with nor
/// answered.
pub proof fn law_ignored_is_noted(
    own: OwnFile,
    change: Change,
    shown: Seq<char>,
    message: EditorMessageView,
)
    ensures
        task_model::change_note(change, shown) is None <==> change.modified && change.watched,
        task_model::transition(own, TaskStateView::Idle, TaskEventView::Message(message)) == (
            TaskStateView::Idle,
            ReactionView { log: None, action: TaskActionView::Await },
        ) && !(message.message is Result) ==> task_model::message_note(message) is Some,
{
}

/// What is done for a request: the file is read, and served if it is text; a
/// file for the client to edit goes to the client first.
pub open spec fn handling(
    url: Seq<char>,
    is_toc: bool,
    read: FileReadView,
    response: SimpleHttpResponseView,
    update: Option<CodeChatForWeb>,
) -> Seq<TaskActionView> {
    match read {
        FileReadView::NotOpened(reason) => seq![
            TaskActionView::Fetch(url),
            TaskActionView::Answer(
                SimpleHttpResponseView::Error(
                    "<p>Error opening file "@ + url + ": "@ + reason + "."@,
                ),
            ),
        ],
        FileReadView::NotText(_) => seq![
            TaskActionView::Fetch(url),
            TaskActionView::Answer(SimpleHttpResponseView::Bin(url)),
        ],
        FileReadView::Text(contents) => {
            let serve = TaskActionView::Serve { url, contents, is_toc };
            match update {
                None => seq![TaskActionView::Fetch(url), serve, TaskActionView::Answer(response)],
                Some(file) => seq![
                    TaskActionView::Fetch(url),
                    serve,
                    TaskActionView::Send(
                        EditorMessageView {
                            id: 0,
                            message: EditorMessageContentsView::Update(
                                UpdateMessageContents {
                                    contents: Some(file),
                                    cursor_position: None,
                                    scroll_position: None,
                                },
                            ),
                        },
                    ),
                    TaskActionView::Answer(response),
                ],
            }
        },
    }
}

/// What the task is told meanwhile, if everything goes out.
pub open spec fn handling_events(
    url: Seq<char>,
    is_toc: bool,
    read: FileReadView,
    response: SimpleHttpResponseView,
    update: Option<CodeChatForWeb>,
) -> Seq<TaskEventView> {
    let request = TaskEventView::Request { url, is_toc };
    let fetched = TaskEventView::FileRead(read);
    let served = TaskEventView::Served { response, update };
    let sent = TaskEventView::Sent(true);
    if !(read is Text) {
        seq![request, fetched, sent]
    } else if update is None {
        seq![request, fetched, served, sent]
    } else {
        seq![request, fetched, served, sent, sent]
    }
}

/// A request gets one response: the one that serves the file, or, if the file
/// is not text, the file itself or what is wrong with it. Then the task is
/// idle.
pub proof fn law_request_is_answered(
    own: OwnFile,
    url: Seq<char>,
    is_toc: bool,
    read: FileReadView,
    response: SimpleHttpResponseView,
    update: Option<CodeChatForWeb>,
)
    ensures
        ({
            let events = handling_events(url, is_toc, read, response, update);
            &&& can_run(own, TaskStateView::Idle, events)
            &&& run(own, TaskStateView::Idle, events) == (
                TaskStateView::Idle,
                handling(url, is_toc, read, response, update).push(TaskActionView::Await),
            )
        }),
{
    let idle = TaskStateView::Idle;
    let events = handling_events(url, is_toc, read, response, update);
    let request = TaskEventView::Request { url, is_toc };
    let fetched = TaskEventView::FileRead(read);
    let served = TaskEventView::Served { response, update };
    let sent = TaskEventView::Sent(true);
    let none = Seq::<TaskEventView>::empty();
    let e0 = none.push(request);
    let e1 = e0.push(fetched);
    lemma_run_push(own, idle, none, request);
    lemma_run_push(own, idle, e0, fetched);
    if !(read is Text) {
        lemma_run_push(own, idle, e1, sent);
        assert(events =~= e1.push(sent));
    } else {
        let e2 = e1.push(served);
        let e3 = e2.push(sent);
        lemma_run_push(own, idle, e1, served);
        lemma_run_push(own, idle, e2, sent);
        lemma_run_push(own, idle, e3, sent);
        if update is None {
            assert(events =~= e3);
        } else {
            assert(events =~= e3.push(sent));
        }
    }
    assert(run(own, idle, events).1 =~= handling(url, is_toc, read, response, update).push(
        TaskActionView::Await,
    ));
}

/// When the client or the requester can no longer be reached while a request is
/// dealt with, the task takes nothing more in and ends.
pub proof fn law_lost_request_ends_the_task(own: OwnFile, state: TaskStateView)
    requires
        state is Updating || state is Answering,
    ensures
        ({
            let events = seq![TaskEventView::Sent(false), TaskEventView::Drained];
            &&& can_run(own, state, events)
            &&& run(own, state, events) == (
                TaskStateView::Stopped,
                seq![TaskActionView::Drain, TaskActionView::Stop],
            )
        }),
{
    let none = Seq::<TaskEventView>::empty();
    let e0 = none.push(TaskEventView::Sent(false));
    let events = seq![TaskEventView::Sent(false), TaskEventView::Drained];
    lemma_run_push(own, state, none, TaskEventView::Sent(false));
    lemma_run_push(own, state, e0, TaskEventView::Drained);
    assert(events =~= e0.push(TaskEventView::Drained));
    assert(run(own, state, events).1 =~= seq![TaskActionView::Drain, TaskActionView::Stop]);
}

/// When the client cannot be told of a change, the rest of the changes seen with
/// it are dropped, and the task goes on.
pub proof fn law_lost_notice_drops_the_rest(own: OwnFile, state: TaskStateView)
    requires
        state is Closing || state is Notifying,
    ensures
        task_model::transition(own, state, TaskEventView::Sent(false)) == (
            TaskStateView::Idle,
            ReactionView { log: None, action: TaskActionView::Await },
        ),
{
}

/// What is said of watcher errors, each in its turn.
pub open spec fn reports(errors: Seq<Seq<char>>) -> Seq<TaskActionView> {
    errors.map_values(
        |error: Seq<char>|
            TaskActionView::Respond(
                EditorMessageView {
                    id: 0,
                    message: EditorMessageContentsView::Result("Watcher error: "@ + error),
                },
            ),
    )
}

/// What the task is told while it reports so many errors.
pub open spec fn report_events(errors: Seq<Seq<char>>) -> Seq<TaskEventView> {
    seq![TaskEventView::WatcherErrors(errors)] + Seq::new(
        errors.len(),
        |i: int| TaskEventView::Responded,
    )
}

/// The client is told of every watcher error, in their order. Then the task is
/// idle.
pub proof fn law_watcher_errors_are_reported(own: OwnFile, errors: Seq<Seq<char>>)
    ensures
        can_run(own, TaskStateView::Idle, report_events(errors)),
        run(own, TaskStateView::Idle, report_events(errors)) == (
            TaskStateView::Idle,
            reports(errors).push(TaskActionView::Await),
        ),
{
    lemma_reports(own, errors, errors.len());
    assert(report_events(errors) =~= seq![TaskEventView::WatcherErrors(errors)] + Seq::new(
        errors.len(),
        |i: int| TaskEventView::Responded,
    ));
    assert(errors.skip(errors.len() as int) =~= Seq::empty());
    assert(errors.take(errors.len() as int) =~= errors);
}

/// The task after it has reported the first so many errors.
proof fn lemma_reports(own: OwnFile, errors: Seq<Seq<char>>, done: nat)
    requires
        done <= errors.len(),
    ensures
        ({
            let events = seq![TaskEventView::WatcherErrors(errors)] + Seq::new(
                done,
                |i: int| TaskEventView::Responded,
            );
            let (state, reaction) = task_model::report(errors.skip(done as int));
            &&& can_run(own, TaskStateView::Idle, events)
            &&& run(own, TaskStateView::Idle, events) == (
                state,
                reports(errors.take(done as int)).push(reaction.action),
            )
        }),
    decreases done,
{
    let idle = TaskStateView::Idle;
    let events = seq![TaskEventView::WatcherErrors(errors)] + Seq::new(
        done,
        |i: int| TaskEventView::Responded,
    );
    let (state, reaction) = task_model::report(errors.skip(done as int));
    if done == 0 {
        let none = Seq::<TaskEventView>::empty();
        lemma_run_push(own, idle, none, TaskEventView::WatcherErrors(errors));
        assert(events =~= none.push(TaskEventView::WatcherErrors(errors)));
        assert(errors.skip(0) =~= errors);
    } else {
        let before = seq![TaskEventView::WatcherErrors(errors)] + Seq::new(
            (done - 1) as nat,
            |i: int| TaskEventView::Responded,
        );
        lemma_reports(own, errors, (done - 1) as nat);
        lemma_run_push(own, idle, before, TaskEventView::Responded);
        assert(events =~= before.push(TaskEventView::Responded));
        assert(errors.skip(done - 1).skip(1) =~= errors.skip(done as int));
        assert(errors.skip(done - 1)[0] == errors[done - 1]);
    }
    assert(run(own, idle, events).1 =~= reports(errors.take(done as int)).push(reaction.action));
}

} // verus!
