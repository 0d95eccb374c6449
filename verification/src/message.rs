//! What the editor's client and its IDE tell each other.

use crate::text::{debug_of, decimal_text};
use vstd::prelude::*;

verus! {

/// The IDE that hosts the client.
#[derive(Debug, Clone, Copy, PartialEq, Eq)]
pub enum IdeType {
    /// Visual Studio Code; `true` if it shows the client in a window of its own.
    VSCode(bool),
}

/// What is known of a source file besides its text.
#[derive(Debug, PartialEq, Eq)]
pub struct SourceFileMetadata {
    /// The language mode.
    pub mode: String,
}

/// A source file as the client's editor holds it.
#[derive(Debug, PartialEq, Eq)]
pub struct CodeMirror {
    /// The text.
    pub doc: String,
    /// The documentation blocks: where each one starts and ends, its indent,
    /// its delimiter and its contents.
    pub doc_blocks: Vec<(usize, usize, String, String, String)>,
}

/// A source file in the form that the client edits.
#[derive(Debug, PartialEq, Eq)]
pub struct CodeChatForWeb {
    pub metadata: SourceFileMetadata,
    pub source: CodeMirror,
}

/// What an update brings; what is `None` stays as it is.
#[derive(Debug, PartialEq, Eq)]
pub struct UpdateMessageContents {
    pub contents: Option<CodeChatForWeb>,
    pub cursor_position: Option<u32>,
    pub scroll_position: Option<u32>,
}

/// The body of a message.
#[derive(Debug, PartialEq, Eq)]
pub enum EditorMessageContents {
    /// The IDE has opened the editor.
    Opened(IdeType),
    /// The file, the cursor or the scroll position has changed.
    Update(UpdateMessageContents),
    /// The page that hosts the client.
    ClientHtml(String),
    /// The URL of the file that is open.
    CurrentFile(String),
    /// The path of a file to load.
    LoadFile(String),
    /// The IDE asks the client to close.
    RequestClose,
    /// The file is closed.
    Closed,
    /// The answer to a message: what went wrong, or nothing.
    Result(String),
}

/// A message. An answer has the id of the message that it answers; a message
/// that answers nothing has id 0.
#[derive(Debug, PartialEq, Eq)]
pub struct EditorMessage {
    pub id: u32,
    pub message: EditorMessageContents,
}

/// [`EditorMessageContents`] with texts in place of strings.
pub enum EditorMessageContentsView {
    Opened(IdeType),
    Update(UpdateMessageContents),
    ClientHtml(Seq<char>),
    CurrentFile(Seq<char>),
    LoadFile(Seq<char>),
    RequestClose,
    Closed,
    Result(Seq<char>),
}

/// [`EditorMessage`] with texts in place of strings.
pub struct EditorMessageView {
    pub id: u32,
    pub message: EditorMessageContentsView,
}

impl View for EditorMessageContents {
    type V = EditorMessageContentsView;

    open spec fn view(&self) -> EditorMessageContentsView {
        match *self {
            EditorMessageContents::Opened(ide) => EditorMessageContentsView::Opened(ide),
            EditorMessageContents::Update(update) => EditorMessageContentsView::Update(update),
            EditorMessageContents::ClientHtml(html) => EditorMessageContentsView::ClientHtml(html@),
            EditorMessageContents::CurrentFile(url) => EditorMessageContentsView::CurrentFile(url@),
            EditorMessageContents::LoadFile(path) => EditorMessageContentsView::LoadFile(path@),
            EditorMessageContents::RequestClose => EditorMessageContentsView::RequestClose,
            EditorMessageContents::Closed => EditorMessageContentsView::Closed,
            EditorMessageContents::Result(error) => EditorMessageContentsView::Result(error@),
        }
    }
}

impl View for EditorMessage {
    type V = EditorMessageView;

    open spec fn view(&self) -> EditorMessageView {
        EditorMessageView { id: self.id, message: self.message@ }
    }
}

/// Whether a client has no business sending this to a file watcher.
pub open spec fn is_unsupported(message: EditorMessageContentsView) -> bool {
    message is Opened || message is ClientHtml || message is RequestClose
}

/// The update that brings a whole file.
pub open spec fn file_update(file: CodeChatForWeb) -> UpdateMessageContents {
    UpdateMessageContents { contents: Some(file), cursor_position: None, scroll_position: None }
}

/// How an unsupported body is shown to a developer.
pub open spec fn shown_contents(message: EditorMessageContentsView) -> Seq<char>
    recommends
        is_unsupported(message),
{
    match message {
        EditorMessageContentsView::Opened(IdeType::VSCode(hosted)) => "Opened(VSCode("@ + (if hosted {
            "true"@
        } else {
            "false"@
        }) + "))"@,
        EditorMessageContentsView::ClientHtml(html) => "ClientHtml("@ + crate::text::debug_text(html)
            + ")"@,
        EditorMessageContentsView::RequestClose => "RequestClose"@,
        _ => arbitrary(),
    }
}

/// The answer to an unsupported message: it shows the whole message.
pub open spec fn unsupported_answer(message: EditorMessageView) -> Seq<char> {
    "Client sent unsupported message type EditorMessage { id: "@ + crate::text::decimal(
        message.id as nat,
    ) + ", message: "@ + shown_contents(message.message) + " }"@
}

/// A client may send updates, results and that it closes; word of another file
/// goes unheeded. All else is unsupported.
pub proof fn law_what_is_unsupported(message: EditorMessageContentsView)
    ensures
        match message {
            EditorMessageContentsView::Opened(_) => is_unsupported(message),
            EditorMessageContentsView::ClientHtml(_) => is_unsupported(message),
            EditorMessageContentsView::RequestClose => is_unsupported(message),
            EditorMessageContentsView::Update(_) => !is_unsupported(message),
            EditorMessageContentsView::CurrentFile(_) => !is_unsupported(message),
            EditorMessageContentsView::LoadFile(_) => !is_unsupported(message),
            EditorMessageContentsView::Closed => !is_unsupported(message),
            EditorMessageContentsView::Result(_) => !is_unsupported(message),
        },
{
}

/// The answer to an unsupported message shows the message, with its id.
pub proof fn law_unsupported_message_is_shown(id: u32, hosted: bool, html: Seq<char>)
    ensures
        ({
            let start = "Client sent unsupported message type EditorMessage { id: "@
                + crate::text::decimal(id as nat) + ", message: "@;
            let opened = EditorMessageContentsView::Opened(IdeType::VSCode(hosted));
            let page = EditorMessageContentsView::ClientHtml(html);
            let close = EditorMessageContentsView::RequestClose;
            &&& hosted ==> unsupported_answer(EditorMessageView { id, message: opened }) == start
                + ("Opened(VSCode("@ + "true"@ + "))"@) + " }"@
            &&& !hosted ==> unsupported_answer(EditorMessageView { id, message: opened }) == start
                + ("Opened(VSCode("@ + "false"@ + "))"@) + " }"@
            &&& unsupported_answer(EditorMessageView { id, message: page }) == start + (
            "ClientHtml("@ + crate::text::debug_text(html) + ")"@) + " }"@
            &&& unsupported_answer(EditorMessageView { id, message: close }) == start
                + "RequestClose"@ + " }"@
        }),
{
}

/// The update that brings a file brings all of it, and moves neither the cursor
/// nor the page.
pub proof fn law_update_brings_the_file(file: CodeChatForWeb)
    ensures
        file_update(file).contents == Some(file),
        file_update(file).cursor_position is None,
        file_update(file).scroll_position is None,
{
}

/// The message that brings a whole file, sent for its own sake.
pub(crate) fn update_message(file: CodeChatForWeb) -> (message: EditorMessage)
    ensures
        message@ == (EditorMessageView {
            id: 0,
            message: EditorMessageContentsView::Update(file_update(file)),
        }),
        message == (EditorMessage {
            id: 0,
            message: EditorMessageContents::Update(
                UpdateMessageContents {
                    contents: Some(file),
                    cursor_position: None,
                    scroll_position: None,
                },
            ),
        }),
{
    EditorMessage {
        id: 0,
        message: EditorMessageContents::Update(
            UpdateMessageContents {
                contents: Some(file),
                cursor_position: None,
                scroll_position: None,
            },
        ),
    }
}

/// Shows the body of an unsupported message.
fn show_contents(message: &EditorMessageContents) -> (shown: String)
    requires
        is_unsupported(message@),
    ensures
        shown@ == shown_contents(message@),
{
    match message {
        EditorMessageContents::Opened(IdeType::VSCode(hosted)) => {
            let mut shown = "Opened(VSCode(".to_string();
            shown.append(
                if *hosted {
                    "true"
                } else {
                    "false"
                },
            );
            shown.append("))");
            shown
        },
        EditorMessageContents::ClientHtml(html) => {
            let mut shown = "ClientHtml(".to_string();
            shown.append(debug_of(html.as_str()).as_str());
            shown.append(")");
            shown
        },
        _ => "RequestClose".to_string(),
    }
}

/// Words the answer to an unsupported message.
pub(crate) fn answer_unsupported(message: &EditorMessage) -> (answer: String)
    requires
        is_unsupported(message@.message),
    ensures
        answer@ == unsupported_answer(message@),
{
    let mut answer = "Client sent unsupported message type EditorMessage { id: ".to_string();
    answer.append(decimal_text(message.id).as_str());
    answer.append(", message: ");
    answer.append(show_contents(&message.message).as_str());
    answer.append(" }");
    answer
}

} // verus!
