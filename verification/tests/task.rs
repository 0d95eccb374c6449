use filewatcher::message::{
    CodeChatForWeb, CodeMirror, EditorMessage, EditorMessageContents, IdeType, SourceFileMetadata,
    UpdateMessageContents,
};
use filewatcher::serving::{FileRead, SimpleHttpResponse};
use filewatcher::task::{
    note_change, note_message, processing_task, Change, Note, NoteLevel, Reaction, Task, TaskAction,
    TaskEvent, TaskState,
};

const CHANGED: Change = Change {
    modified: true,
    watched: true,
};

fn file(mode: &str, doc: &str) -> CodeChatForWeb {
    CodeChatForWeb {
        metadata: SourceFileMetadata {
            mode: mode.to_string(),
        },
        source: CodeMirror {
            doc: doc.to_string(),
            doc_blocks: vec![],
        },
    }
}

fn update(contents: Option<CodeChatForWeb>) -> EditorMessageContents {
    EditorMessageContents::Update(UpdateMessageContents {
        contents,
        cursor_position: None,
        scroll_position: None,
    })
}

fn message(id: u32, message: EditorMessageContents) -> EditorMessage {
    EditorMessage { id, message }
}

fn result(id: u32, text: &str) -> TaskAction {
    TaskAction::Respond(message(id, EditorMessageContents::Result(text.to_string())))
}

fn closed() -> TaskAction {
    TaskAction::Send(message(0, EditorMessageContents::Closed))
}

/// Runs a task and keeps what it logs.
struct Runner {
    task: Option<Task>,
    log: Vec<String>,
}

impl Runner {
    fn new(path: &str) -> Runner {
        let (task, reaction) = Task::new(path.to_string());
        assert_eq!(reaction.action, TaskAction::CreateWatcher);
        assert_eq!(reaction.log, None);
        Runner {
            task: Some(task),
            log: vec![],
        }
    }

    fn started(path: &str) -> Runner {
        let mut runner = Runner::new(path);
        assert_eq!(
            runner.on(TaskEvent::WatcherCreated(true)),
            TaskAction::Watch
        );
        assert_eq!(runner.on(TaskEvent::Watched(Ok(()))), TaskAction::Connect);
        assert_eq!(
            runner.on(TaskEvent::Connected),
            TaskAction::Send(message(
                0,
                EditorMessageContents::CurrentFile(format!("/fw/fsc/{path}"))
            ))
        );
        assert_eq!(runner.on(TaskEvent::Sent(true)), TaskAction::Listen);
        assert_eq!(runner.on(TaskEvent::Listening), TaskAction::Await);
        runner
    }

    fn on(&mut self, event: TaskEvent) -> TaskAction {
        let task = self.task.take().unwrap();
        assert!(task.accepts(&event), "{task:?} does not wait for {event:?}");
        let (task, Reaction { log, action }) = processing_task(task, event);
        self.task = Some(task);
        self.log.extend(log);
        action
    }

    fn receive(&mut self, id: u32, contents: EditorMessageContents) -> TaskAction {
        self.on(TaskEvent::Message(message(id, contents)))
    }

    fn state(&self) -> &TaskState {
        self.task.as_ref().unwrap().state()
    }
}

/// Everything that a client can expect of a task, step by step.
#[test]
fn test_websocket_update_1() {
    let mut runner = Runner::started("/tmp/test.py");

    // We should get the initial contents.
    let url = "/tmp/test.py".to_string();
    assert_eq!(
        runner.on(TaskEvent::Request {
            url: url.clone(),
            is_toc: false
        }),
        TaskAction::Fetch(url.clone())
    );
    assert_eq!(
        runner.on(TaskEvent::FileRead(FileRead::Text("".to_string()))),
        TaskAction::Serve {
            url,
            contents: "".to_string(),
            is_toc: false
        }
    );
    assert_eq!(
        runner.on(TaskEvent::Served {
            response: SimpleHttpResponse::Html("client".to_string()),
            update: Some(file("python", "")),
        }),
        TaskAction::Send(message(0, update(Some(file("python", "")))))
    );
    assert_eq!(
        runner.on(TaskEvent::Sent(true)),
        TaskAction::Answer(SimpleHttpResponse::Html("client".to_string()))
    );
    assert_eq!(runner.on(TaskEvent::Sent(true)), TaskAction::Await);
    assert_eq!(
        runner.receive(1, EditorMessageContents::Result("".to_string())),
        TaskAction::Await
    );

    // 1. Send an update message with no contents. It produces no error.
    assert_eq!(runner.receive(0, update(None)), result(0, ""));
    assert_eq!(runner.on(TaskEvent::Responded), TaskAction::Await);

    // 2. Send invalid messages.
    for contents in [
        EditorMessageContents::Opened(IdeType::VSCode(true)),
        EditorMessageContents::ClientHtml("".to_string()),
        EditorMessageContents::RequestClose,
    ] {
        match runner.receive(0, contents) {
            TaskAction::Respond(EditorMessage {
                id: 0,
                message: EditorMessageContents::Result(text),
            }) => assert!(text.starts_with("Client sent unsupported message type")),
            other => panic!("unexpected {other:?}"),
        }
        assert_eq!(runner.on(TaskEvent::Responded), TaskAction::Await);
    }

    // 3. Send an update message with no path. It produces no error.
    let contents = || CodeChatForWeb {
        metadata: SourceFileMetadata {
            mode: "".to_string(),
        },
        source: CodeMirror {
            doc: "".to_string(),
            doc_blocks: vec![(0, 0, "".to_string(), "".to_string(), "".to_string())],
        },
    };
    assert_eq!(
        runner.receive(0, update(Some(contents()))),
        TaskAction::Decode(contents())
    );
    assert_eq!(
        runner.on(TaskEvent::Decoded(Ok("".to_string()))),
        TaskAction::Unwatch
    );
    assert_eq!(
        runner.on(TaskEvent::Unwatched(Ok(()))),
        TaskAction::Write("".to_string())
    );
    assert_eq!(runner.on(TaskEvent::Written(Ok(()))), TaskAction::Watch);
    assert_eq!(runner.on(TaskEvent::Watched(Ok(()))), result(0, ""));
    assert_eq!(runner.on(TaskEvent::Responded), TaskAction::Await);

    // 4. Send an update message with unknown source language.
    assert_eq!(
        runner.receive(0, update(Some(file("nope", "testing")))),
        TaskAction::Decode(file("nope", "testing"))
    );
    assert_eq!(
        runner.on(TaskEvent::Decoded(Err("Invalid mode".to_string()))),
        result(0, "Unable to translate to source: Invalid mode")
    );
    assert_eq!(runner.on(TaskEvent::Responded), TaskAction::Await);

    // 5. Send an update message with an invalid path.
    let mut pathless = Runner::started("");
    assert_eq!(
        pathless.receive(0, update(Some(file("python", "")))),
        TaskAction::Decode(file("python", ""))
    );
    assert_eq!(
        pathless.on(TaskEvent::Decoded(Ok("".to_string()))),
        TaskAction::Unwatch
    );
    assert_eq!(
        pathless.on(TaskEvent::Unwatched(Ok(()))),
        TaskAction::Write("".to_string())
    );
    match pathless.on(TaskEvent::Written(Err("no such file".to_string()))) {
        TaskAction::Respond(EditorMessage {
            id: 0,
            message: EditorMessageContents::Result(text),
        }) => assert!(text.starts_with("Unable to save file '':")),
        other => panic!("unexpected {other:?}"),
    }

    // 6. Send a valid message. The requested file is written.
    assert_eq!(
        runner.receive(0, update(Some(file("python", "testing()")))),
        TaskAction::Decode(file("python", "testing()"))
    );
    assert_eq!(
        runner.on(TaskEvent::Decoded(Ok("testing()".to_string()))),
        TaskAction::Unwatch
    );
    assert_eq!(
        runner.on(TaskEvent::Unwatched(Ok(()))),
        TaskAction::Write("testing()".to_string())
    );
    assert_eq!(runner.on(TaskEvent::Written(Ok(()))), TaskAction::Watch);
    assert_eq!(runner.on(TaskEvent::Watched(Ok(()))), result(0, ""));
    assert_eq!(runner.on(TaskEvent::Responded), TaskAction::Await);

    // 7. Change this file and verify that this produces an update.
    assert_eq!(
        runner.on(TaskEvent::Changes(vec![CHANGED])),
        TaskAction::ReadFile
    );
    assert_eq!(
        runner.on(TaskEvent::FileRead(FileRead::Text(
            "testing()123".to_string()
        ))),
        TaskAction::Translate("testing()123".to_string())
    );
    assert_eq!(
        runner.on(TaskEvent::Translated(Some(file("python", "testing()123")))),
        TaskAction::Send(message(0, update(Some(file("python", "testing()123")))))
    );
    assert_eq!(runner.on(TaskEvent::Sent(true)), TaskAction::Await);
    // Acknowledge this message.
    assert_eq!(
        runner.receive(3, EditorMessageContents::Result("".to_string())),
        TaskAction::Await
    );

    // 8. Rename it and check for a close.
    assert_eq!(
        runner.on(TaskEvent::Changes(vec![CHANGED])),
        TaskAction::ReadFile
    );
    assert_eq!(
        runner.on(TaskEvent::FileRead(FileRead::NotOpened(
            "no such file".to_string()
        ))),
        closed()
    );

    // Each of the three invalid message types produces one error.
    assert_eq!(runner.log.len(), 3);
    assert_eq!(pathless.log.len(), 0);
}

#[test]
fn unsupported_messages_are_shown() {
    let mut runner = Runner::started("/a");
    assert_eq!(
        runner.receive(
            1203,
            EditorMessageContents::Opened(IdeType::VSCode(true))
        ),
        result(1203, "Client sent unsupported message type EditorMessage { id: 1203, message: Opened(VSCode(true)) }")
    );
    runner.on(TaskEvent::Responded);
    assert_eq!(
        runner.receive(
            0,
            EditorMessageContents::Opened(IdeType::VSCode(false))
        ),
        result(0, "Client sent unsupported message type EditorMessage { id: 0, message: Opened(VSCode(false)) }")
    );
    runner.on(TaskEvent::Responded);
    let refused = message(
        u32::MAX,
        EditorMessageContents::ClientHtml("<b>\"\n".to_string()),
    );
    let expected = format!("Client sent unsupported message type {refused:?}");
    assert_eq!(
        runner.on(TaskEvent::Message(refused)),
        result(u32::MAX, &expected)
    );
    runner.on(TaskEvent::Responded);
    assert_eq!(
        runner.receive(9, EditorMessageContents::RequestClose),
        result(
            9,
            "Client sent unsupported message type EditorMessage { id: 9, message: RequestClose }"
        )
    );
    assert_eq!(runner.log.len(), 4);
    assert_eq!(runner.log[2], expected);
}

#[test]
fn failures_to_save_are_told_with_the_id() {
    let save = |runner: &mut Runner| {
        runner.receive(7, update(Some(file("python", "x"))));
        assert_eq!(
            runner.on(TaskEvent::Decoded(Ok("x".to_string()))),
            TaskAction::Unwatch
        );
    };
    let mut runner = Runner::started("/tmp/a.py");
    save(&mut runner);
    assert_eq!(
        runner.on(TaskEvent::Unwatched(Err("gone".to_string()))),
        result(7, "Unable to unwatch file '/tmp/a.py': gone.")
    );
    runner.on(TaskEvent::Responded);
    save(&mut runner);
    runner.on(TaskEvent::Unwatched(Ok(())));
    assert_eq!(
        runner.on(TaskEvent::Written(Err("full".to_string()))),
        result(7, "Unable to save file '/tmp/a.py': full.")
    );
    runner.on(TaskEvent::Responded);
    save(&mut runner);
    runner.on(TaskEvent::Unwatched(Ok(())));
    runner.on(TaskEvent::Written(Ok(())));
    assert_eq!(
        runner.on(TaskEvent::Watched(Err("lost".to_string()))),
        result(7, "Unable to watch file '/tmp/a.py': lost.")
    );
    assert_eq!(runner.on(TaskEvent::Responded), TaskAction::Await);
    assert!(runner.log.is_empty());
}

#[test]
fn failed_starts_end_the_task() {
    let mut runner = Runner::new("/a");
    assert_eq!(
        runner.on(TaskEvent::WatcherCreated(false)),
        TaskAction::Stop
    );
    assert_eq!(runner.log, ["Unable to create debouncer."]);

    let mut runner = Runner::new("/a");
    runner.on(TaskEvent::WatcherCreated(true));
    assert_eq!(
        runner.on(TaskEvent::Watched(Err("no such file".to_string()))),
        TaskAction::Stop
    );
    assert_eq!(runner.log, ["Unable to watch file: no such file"]);

    let mut runner = Runner::new("/a");
    runner.on(TaskEvent::WatcherCreated(true));
    runner.on(TaskEvent::Watched(Ok(())));
    runner.on(TaskEvent::Connected);
    assert_eq!(runner.on(TaskEvent::Sent(false)), TaskAction::Stop);
    assert_eq!(*runner.state(), TaskState::Stopped);
    assert!(!runner.task.unwrap().accepts(&TaskEvent::Disconnected));
}

#[test]
fn watcher_errors_are_reported_in_order() {
    let mut runner = Runner::started("/a");
    assert_eq!(
        runner.on(TaskEvent::WatcherErrors(vec![
            "one".to_string(),
            "two".to_string()
        ])),
        result(0, "Watcher error: one")
    );
    assert_eq!(
        runner.on(TaskEvent::Responded),
        result(0, "Watcher error: two")
    );
    assert_eq!(runner.on(TaskEvent::Responded), TaskAction::Await);
    assert_eq!(runner.log, ["Watcher error: one", "Watcher error: two"]);
    assert_eq!(
        runner.on(TaskEvent::WatcherErrors(vec![])),
        TaskAction::Await
    );
}

#[test]
fn only_modifications_of_the_file_count() {
    let mut runner = Runner::started("/a");
    let other = Change {
        modified: true,
        watched: false,
    };
    let touched = Change {
        modified: false,
        watched: true,
    };
    assert_eq!(
        runner.on(TaskEvent::Changes(vec![other, touched])),
        TaskAction::Await
    );
    assert_eq!(
        runner.on(TaskEvent::Changes(vec![other, CHANGED, touched, CHANGED])),
        TaskAction::ReadFile
    );
    assert_eq!(*runner.state(), TaskState::Reading { more: 1 });
    runner.on(TaskEvent::FileRead(FileRead::Text("x".to_string())));
    assert_eq!(runner.on(TaskEvent::Translated(None)), closed());
    assert_eq!(runner.on(TaskEvent::Sent(true)), TaskAction::ReadFile);
    runner.on(TaskEvent::FileRead(FileRead::NotOpened(
        "gone".to_string(),
    )));
    assert_eq!(runner.on(TaskEvent::Sent(true)), TaskAction::Await);
}

#[test]
fn unreadable_changes_close_the_file_and_go_on() {
    let mut runner = Runner::started("/a");
    runner.on(TaskEvent::Changes(vec![CHANGED]));
    assert_eq!(
        runner.on(TaskEvent::FileRead(FileRead::NotText("par".to_string()))),
        closed()
    );
    assert_eq!(
        runner.on(TaskEvent::Sent(true)),
        TaskAction::Translate("par".to_string())
    );
    assert_eq!(
        runner.on(TaskEvent::Translated(Some(file("python", "par")))),
        TaskAction::Send(message(0, update(Some(file("python", "par")))))
    );
    assert_eq!(runner.on(TaskEvent::Sent(true)), TaskAction::Await);
}

#[test]
fn lost_notices_drop_the_other_changes() {
    let mut runner = Runner::started("/a");
    runner.on(TaskEvent::Changes(vec![CHANGED, CHANGED]));
    runner.on(TaskEvent::FileRead(FileRead::NotText("".to_string())));
    assert_eq!(runner.on(TaskEvent::Sent(false)), TaskAction::Await);
    runner.on(TaskEvent::Changes(vec![CHANGED, CHANGED]));
    runner.on(TaskEvent::FileRead(FileRead::NotOpened("".to_string())));
    assert_eq!(runner.on(TaskEvent::Sent(false)), TaskAction::Await);
}

#[test]
fn requests_are_answered() {
    let request = || TaskEvent::Request {
        url: "/b".to_string(),
        is_toc: true,
    };
    let mut runner = Runner::started("/a");
    runner.on(request());
    assert_eq!(
        runner.on(TaskEvent::FileRead(FileRead::NotOpened(
            "gone".to_string()
        ))),
        TaskAction::Answer(SimpleHttpResponse::Error(
            "<p>Error opening file /b: gone.".to_string()
        ))
    );
    assert_eq!(runner.on(TaskEvent::Sent(true)), TaskAction::Await);
    runner.on(request());
    assert_eq!(
        runner.on(TaskEvent::FileRead(FileRead::NotText("x".to_string()))),
        TaskAction::Answer(SimpleHttpResponse::Bin("/b".to_string()))
    );
    assert_eq!(runner.on(TaskEvent::Sent(true)), TaskAction::Await);
    runner.on(request());
    assert_eq!(
        runner.on(TaskEvent::FileRead(FileRead::Text("x".to_string()))),
        TaskAction::Serve {
            url: "/b".to_string(),
            contents: "x".to_string(),
            is_toc: true
        }
    );
    let response = || SimpleHttpResponse::Raw("x".to_string(), "text/plain".to_string());
    assert_eq!(
        runner.on(TaskEvent::Served {
            response: response(),
            update: None
        }),
        TaskAction::Answer(response())
    );
    // Nobody waits for the response any more.
    assert_eq!(runner.on(TaskEvent::Sent(false)), TaskAction::Drain);
    assert_eq!(runner.on(TaskEvent::Drained), TaskAction::Stop);
}

#[test]
fn a_lost_update_leaves_the_request_unanswered() {
    let mut runner = Runner::started("/a");
    runner.on(TaskEvent::Request {
        url: "/a".to_string(),
        is_toc: false,
    });
    runner.on(TaskEvent::FileRead(FileRead::Text("x".to_string())));
    runner.on(TaskEvent::Served {
        response: SimpleHttpResponse::Html("h".to_string()),
        update: Some(file("python", "x")),
    });
    assert_eq!(runner.on(TaskEvent::Sent(false)), TaskAction::Drain);
    assert_eq!(runner.on(TaskEvent::Drained), TaskAction::Stop);
}

#[test]
fn results_are_logged_and_other_messages_ignored() {
    let mut runner = Runner::started("/a");
    assert_eq!(
        runner.receive(12, EditorMessageContents::Result("bad".to_string())),
        TaskAction::Await
    );
    assert_eq!(runner.log, ["Error in message 12: bad."]);
    assert_eq!(
        runner.receive(1, EditorMessageContents::CurrentFile("x".to_string())),
        TaskAction::Await
    );
    assert_eq!(
        runner.receive(1, EditorMessageContents::LoadFile("x".to_string())),
        TaskAction::Await
    );
    assert_eq!(runner.log.len(), 1);
}

#[test]
fn a_closed_client_or_no_sender_ends_the_task() {
    let mut runner = Runner::started("/a");
    assert_eq!(
        runner.receive(1, EditorMessageContents::Closed),
        TaskAction::Drain
    );
    assert_eq!(runner.on(TaskEvent::Drained), TaskAction::Stop);
    let mut runner = Runner::started("/a");
    assert_eq!(runner.on(TaskEvent::Disconnected), TaskAction::Drain);
}

#[test]
fn tasks_wait_for_nothing_else() {
    let (task, _) = Task::new("/a".to_string());
    assert!(task.accepts(&TaskEvent::WatcherCreated(true)));
    assert!(!task.accepts(&TaskEvent::Sent(true)));
    assert!(!task.accepts(&TaskEvent::Disconnected));
}

#[test]
fn the_first_message_names_the_file() {
    let mut runner = Runner::new("/a b/c#.py");
    runner.on(TaskEvent::WatcherCreated(true));
    runner.on(TaskEvent::Watched(Ok(())));
    let url = match runner.on(TaskEvent::Connected) {
        TaskAction::Send(EditorMessage {
            id: 0,
            message: EditorMessageContents::CurrentFile(url),
        }) => url,
        other => panic!("unexpected {other:?}"),
    };
    assert_eq!(url, "/fw/fsc//a%20b/c%23.py");
    assert_eq!(
        urlencoding::decode(url.strip_prefix("/fw/fsc/").unwrap()).unwrap(),
        "/a b/c#.py"
    );
}

#[test]
fn ignored_changes_and_messages_are_noted() {
    let note = |level, text: &str| {
        Some(Note {
            level,
            text: text.to_string(),
        })
    };
    let change = |modified, watched| Change { modified, watched };
    assert_eq!(note_change(CHANGED, "x"), None);
    assert_eq!(
        note_change(change(true, false), "x"),
        note(
            NoteLevel::Warning,
            "TODO: Modification to different file."
        )
    );
    assert_eq!(
        note_change(change(false, true), "Event { x }"),
        note(NoteLevel::Info, "Watcher event: Event { x }.")
    );
    assert_eq!(
        note_message(&message(1, EditorMessageContents::Closed)),
        note(NoteLevel::Info, "Filewatcher closing")
    );
    for contents in [
        EditorMessageContents::CurrentFile("a\"b".to_string()),
        EditorMessageContents::LoadFile("a\n".to_string()),
    ] {
        let expected = format!("Unhandled message {contents:?}");
        assert_eq!(
            note_message(&message(1, contents)),
            note(NoteLevel::Warning, &expected)
        );
    }
    assert_eq!(note_message(&message(1, update(None))), None);
    assert_eq!(
        note_message(&message(1, EditorMessageContents::RequestClose)),
        None
    );
}
