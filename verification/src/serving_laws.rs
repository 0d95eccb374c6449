//! What holds of the replies to HTTP requests.

use crate::serving;
use crate::serving::{FileReadView, HttpReplyView, RequestOutcomeView, SimpleHttpResponseView};
use vstd::prelude::*;

verus! {

/// A file that is text is served with its text, the whole of it and nothing
/// else. A file that is not gets a response in place of its text: the file
/// itself if it can be opened, and else the reason why not.
pub proof fn law_text_is_served_whole(file_path: Seq<char>, read: FileReadView)
    ensures
        match serving::text_or_response(file_path, read) {
            Ok(contents) => read == FileReadView::Text(contents),
            Err(SimpleHttpResponseView::Bin(path)) => read is NotText && path == file_path,
            Err(SimpleHttpResponseView::Error(error)) => {
                &&& read matches FileReadView::NotOpened(reason)
                &&& error == "<p>Error opening file "@ + file_path + ": "@ + reason + "."@
            },
            Err(_) => false,
        },
{
}

/// Different texts are served differently, and what is served of a text does not
/// depend on the path.
pub proof fn law_texts_stay_apart(
    file_path: Seq<char>,
    other_path: Seq<char>,
    text: Seq<char>,
    other: Seq<char>,
)
    ensures
        serving::text_or_response(file_path, FileReadView::Text(text))
            == serving::text_or_response(other_path, FileReadView::Text(other)) <==> text == other,
{
    law_text_is_served_whole(file_path, FileReadView::Text(text));
    law_text_is_served_whole(other_path, FileReadView::Text(other));
}

/// A reply to an answered request brings what the answer held: a document, a
/// text with its content type, or a file. Only an error is not found. Nothing of
/// it depends on the connection.
pub proof fn law_answer_is_passed_on(connection_id: Seq<char>, response: SimpleHttpResponseView)
    ensures
        match serving::request_reply(connection_id, RequestOutcomeView::Answered(response)) {
            HttpReplyView::Html(document) => response == SimpleHttpResponseView::Html(document),
            HttpReplyView::NotFound(error) => response == SimpleHttpResponseView::Error(error),
            HttpReplyView::Raw(body, content_type) => response == SimpleHttpResponseView::Raw(
                body,
                content_type,
            ),
            HttpReplyView::File(path) => response == SimpleHttpResponseView::Bin(path),
            HttpReplyView::Redirect(_) | HttpReplyView::Page(_) => false,
        },
{
}

/// A request that was not answered is not found, and the reply says why.
pub proof fn law_unanswered_is_not_found(connection_id: Seq<char>, reason: Seq<char>)
    ensures
        serving::request_reply(connection_id, RequestOutcomeView::NoTask)
            == HttpReplyView::NotFound(
            "Error: no processing task queue for connection id "@ + connection_id + "."@,
        ),
        serving::request_reply(connection_id, RequestOutcomeView::NotQueued(reason))
            == HttpReplyView::NotFound("Error: unable to enqueue: "@ + reason + "."@),
        serving::request_reply(connection_id, RequestOutcomeView::NotAnswered(reason))
            == HttpReplyView::NotFound("Error: "@ + reason),
{
}

/// The log holds what the reply says, just if the request did not reach a task.
pub proof fn law_log_says_what_the_reply_says(
    connection_id: Seq<char>,
    outcome: RequestOutcomeView,
)
    ensures
        match serving::request_log(connection_id, outcome) {
            Some(line) => {
                &&& outcome is NoTask || outcome is NotQueued
                &&& serving::request_reply(connection_id, outcome) == HttpReplyView::NotFound(line)
            },
            None => outcome is Answered || outcome is NotAnswered,
        },
{
}

/// The table of contents is asked for by the value `toc` and no other.
pub proof fn law_only_toc_asks_for_it(mode: Option<Seq<char>>)
    ensures
        serving::is_toc_mode(mode) <==> (mode matches Some(value) && value =~= seq!['t', 'o', 'c']),
{
    reveal_strlit("toc");
    assert("toc"@ =~= seq!['t', 'o', 'c']);
}

} // verus!
