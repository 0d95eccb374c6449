//! What is served over HTTP.

use vstd::prelude::*;

verus! {

/// What came of reading a file as text.
#[derive(Debug, PartialEq, Eq)]
pub enum FileRead {
    /// The file could not be opened, for this reason.
    NotOpened(String),
    /// The file was opened, but is not readable as Unicode text. Holds what had
    /// been read by then.
    NotText(String),
    /// The whole text.
    Text(String),
}

/// [`FileRead`] with texts in place of strings.
pub enum FileReadView {
    NotOpened(Seq<char>),
    NotText(Seq<char>),
    Text(Seq<char>),
}

impl View for FileRead {
    type V = FileReadView;

    open spec fn view(&self) -> FileReadView {
        match *self {
            FileRead::NotOpened(error) => FileReadView::NotOpened(error@),
            FileRead::NotText(partial) => FileReadView::NotText(partial@),
            FileRead::Text(text) => FileReadView::Text(text@),
        }
    }
}

/// The answer to a request for a file.
#[derive(Debug, PartialEq, Eq)]
pub enum SimpleHttpResponse {
    /// A whole HTML document.
    Html(String),
    /// What went wrong, in HTML.
    Error(String),
    /// A text and its content type.
    Raw(String, String),
    /// The path of a file to send as it is.
    Bin(String),
}

/// [`SimpleHttpResponse`] with texts in place of strings.
pub enum SimpleHttpResponseView {
    Html(Seq<char>),
    Error(Seq<char>),
    Raw(Seq<char>, Seq<char>),
    Bin(Seq<char>),
}

impl View for SimpleHttpResponse {
    type V = SimpleHttpResponseView;

    open spec fn view(&self) -> SimpleHttpResponseView {
        match *self {
            SimpleHttpResponse::Html(document) => SimpleHttpResponseView::Html(document@),
            SimpleHttpResponse::Error(error) => SimpleHttpResponseView::Error(error@),
            SimpleHttpResponse::Raw(body, content_type) => SimpleHttpResponseView::Raw(
                body@,
                content_type@,
            ),
            SimpleHttpResponse::Bin(path) => SimpleHttpResponseView::Bin(path@),
        }
    }
}

/// What is said of a file that could not be opened.
pub open spec fn open_error(file_path: Seq<char>, error: Seq<char>) -> Seq<char> {
    "<p>Error opening file "@ + file_path + ": "@ + error + "."@
}

/// The text of a file, or the answer that takes its place.
pub open spec fn text_or_response(file_path: Seq<char>, read: FileReadView) -> Result<
    Seq<char>,
    SimpleHttpResponseView,
> {
    match read {
        FileReadView::NotOpened(error) => Err(
            SimpleHttpResponseView::Error(open_error(file_path, error)),
        ),
        FileReadView::NotText(_) => Err(SimpleHttpResponseView::Bin(file_path)),
        FileReadView::Text(text) => Ok(text),
    }
}

/// Words what went wrong with opening a file.
fn describe_open_error(file_path: &str, error: &str) -> (description: String)
    ensures
        description@ == open_error(file_path@, error@),
{
    let mut description = "<p>Error opening file ".to_string();
    description.append(file_path);
    description.append(": ");
    description.append(error);
    description.append(".");
    description
}

/// Smart file reader: the text of the file where it is Unicode, or else the
/// response to serve in its place. A file that cannot be read as text is an
/// image, a video or the like, and is served raw.
pub fn smart_read(file_path: &str, read: FileRead) -> (result: Result<String, SimpleHttpResponse>)
    ensures
        match result {
            Ok(text) => text_or_response(file_path@, read@) == Ok::<
                Seq<char>,
                SimpleHttpResponseView,
            >(text@),
            Err(response) => text_or_response(file_path@, read@) == Err::<
                Seq<char>,
                SimpleHttpResponseView,
            >(response@),
        },
        match read {
            FileRead::Text(text) => result matches Ok(contents) && contents@ == text@,
            FileRead::NotText(_) => {
                &&& result matches Err(SimpleHttpResponse::Bin(path))
                &&& path@ == file_path@
            },
            FileRead::NotOpened(reason) => {
                &&& result matches Err(SimpleHttpResponse::Error(error))
                &&& error@ == "<p>Error opening file "@ + file_path@ + ": "@ + reason@ + "."@
            },
        },
{
    match read {
        FileRead::NotOpened(error) => Err(
            SimpleHttpResponse::Error(describe_open_error(file_path, error.as_str())),
        ),
        FileRead::NotText(_) => Err(SimpleHttpResponse::Bin(file_path.to_string())),
        FileRead::Text(text) => Ok(text),
    }
}

/// What an HTTP request is answered.
#[derive(Debug, PartialEq, Eq)]
pub enum HttpReply {
    /// A temporary redirect to this location.
    Redirect(String),
    /// Success, with this body of a web page.
    Page(String),
    /// Not found, with this body of a web page.
    NotFound(String),
    /// Success, with this whole HTML document.
    Html(String),
    /// Success, with this text and its content type.
    Raw(String, String),
    /// The file at this path, as it is.
    File(String),
}

/// [`HttpReply`] with texts in place of strings.
pub enum HttpReplyView {
    Redirect(Seq<char>),
    Page(Seq<char>),
    NotFound(Seq<char>),
    Html(Seq<char>),
    Raw(Seq<char>, Seq<char>),
    File(Seq<char>),
}

impl View for HttpReply {
    type V = HttpReplyView;

    open spec fn view(&self) -> HttpReplyView {
        match *self {
            HttpReply::Redirect(location) => HttpReplyView::Redirect(location@),
            HttpReply::Page(body) => HttpReplyView::Page(body@),
            HttpReply::NotFound(body) => HttpReplyView::NotFound(body@),
            HttpReply::Html(document) => HttpReplyView::Html(document@),
            HttpReply::Raw(body, content_type) => HttpReplyView::Raw(body@, content_type@),
            HttpReply::File(path) => HttpReplyView::File(path@),
        }
    }
}

/// The error of a query string that cannot be parsed.
#[verifier::external_type_specification]
#[verifier::external_body]
pub struct ExQueryPayloadError(actix_web::error::QueryPayloadError);

/// The value that a query string gives a parameter, if it gives it one. `None`
/// if the query string cannot be parsed.
pub uninterp spec fn query_value(query: Seq<char>, parameter: Seq<char>) -> Option<
    Option<Seq<char>>,
>;

/// Whether a text is made of ASCII letters and digits.
pub open spec fn is_alphanumeric(text: Seq<char>) -> bool {
    forall|i: int|
        0 <= i < text.len() ==> {
            let c = #[trigger] text[i];
            'a' <= c <= 'z' || 'A' <= c <= 'Z' || '0' <= c <= '9'
        }
}

/// Whether a query string is just a parameter, an equals sign and a value, with
/// nothing in it to decode.
pub open spec fn is_single_pair(query: Seq<char>, parameter: Seq<char>) -> bool {
    &&& is_alphanumeric(parameter)
    &&& query.len() > parameter.len()
    &&& query.take(parameter.len() as int) == parameter
    &&& query[parameter.len() as int] == '='
    &&& is_alphanumeric(query.skip(parameter.len() as int + 1))
}

/// Calls `actix_web::web::Query::from_query` for a map from parameters to
/// values, and looks a parameter up in the map. The result depends on the query
/// string and the parameter alone. An empty query string gives no parameter a
/// value, and one that is a single pair gives its parameter its value. How
/// other query strings are parsed is not stated.
#[verifier::external_body]
fn from_query(query: &str, parameter: &str) -> (value: Result<
    Option<String>,
    actix_web::error::QueryPayloadError,
>)
    ensures
        match value {
            Ok(Some(value)) => query_value(query@, parameter@) == Some(Some(value@)),
            Ok(None) => query_value(query@, parameter@) == Some(None::<Seq<char>>),
            Err(_) => query_value(query@, parameter@) is None,
        },
        query@.len() == 0 ==> value matches Ok(None),
        is_single_pair(query@, parameter@) ==> {
            &&& value matches Ok(Some(value))
            &&& value@ == query@.skip(parameter@.len() as int + 1)
        },
{
    let map = actix_web::web::Query::<std::collections::HashMap<String, String>>::from_query(query)?;
    Ok(map.get(parameter).cloned())
}

/// Whether this value of the parameter `mode` asks for the table of contents.
pub open spec fn is_toc_mode(mode: Option<Seq<char>>) -> bool {
    mode == Some("toc"@)
}

/// Tells whether a value of the parameter `mode` asks for the table of
/// contents. It does not if there is none.
pub fn asks_for_toc(mode: Option<String>) -> (is_toc: bool)
    ensures
        is_toc == is_toc_mode(
            match mode {
                Some(mode) => Some(mode@),
                None => None,
            },
        ),
        is_toc <==> (mode matches Some(value) && value@ == "toc"@),
{
    match mode {
        Some(mode) => mode == "toc".to_string(),
        None => false,
    }
}

/// Tells whether a query string asks for the table of contents. One that cannot
/// be parsed does not.
pub fn is_toc_query(query: &str) -> (is_toc: bool)
    ensures
        is_toc == match query_value(query@, "mode"@) {
            Some(mode) => is_toc_mode(mode),
            None => false,
        },
        query@.len() == 0 ==> !is_toc,
        is_single_pair(query@, "mode"@) ==> is_toc == is_toc_mode(
            Some(query@.skip("mode"@.len() as int + 1)),
        ),
        is_toc == (query_value(query@, "mode"@) == Some(Some("toc"@))),
{
    match from_query(query, "mode") {
        Ok(mode) => asks_for_toc(mode),
        Err(_) => false,
    }
}

/// What came of handing a request to the task of its connection.
#[derive(Debug, PartialEq, Eq)]
pub enum RequestOutcome {
    /// The connection has no task.
    NoTask,
    /// The request could not be put on the task's queue, for this reason.
    NotQueued(String),
    /// The task answered.
    Answered(SimpleHttpResponse),
    /// The task went away without an answer, for this reason.
    NotAnswered(String),
}

/// [`RequestOutcome`] with texts in place of strings.
pub enum RequestOutcomeView {
    NoTask,
    NotQueued(Seq<char>),
    Answered(SimpleHttpResponseView),
    NotAnswered(Seq<char>),
}

impl View for RequestOutcome {
    type V = RequestOutcomeView;

    open spec fn view(&self) -> RequestOutcomeView {
        match *self {
            RequestOutcome::NoTask => RequestOutcomeView::NoTask,
            RequestOutcome::NotQueued(error) => RequestOutcomeView::NotQueued(error@),
            RequestOutcome::Answered(response) => RequestOutcomeView::Answered(response@),
            RequestOutcome::NotAnswered(error) => RequestOutcomeView::NotAnswered(error@),
        }
    }
}

/// The reply that passes a task's response on.
pub open spec fn passed_on(response: SimpleHttpResponseView) -> HttpReplyView {
    match response {
        SimpleHttpResponseView::Html(document) => HttpReplyView::Html(document),
        SimpleHttpResponseView::Error(error) => HttpReplyView::NotFound(error),
        SimpleHttpResponseView::Raw(body, content_type) => HttpReplyView::Raw(body, content_type),
        SimpleHttpResponseView::Bin(path) => HttpReplyView::File(path),
    }
}

/// What is said of a connection that has no task.
pub open spec fn no_task_error(connection_id: Seq<char>) -> Seq<char> {
    "Error: no processing task queue for connection id "@ + connection_id + "."@
}

/// What is said of a request that cannot be put on its task's queue.
pub open spec fn not_queued_error(reason: Seq<char>) -> Seq<char> {
    "Error: unable to enqueue: "@ + reason + "."@
}

/// Words that a connection has no task.
fn describe_no_task(connection_id: &str) -> (error: String)
    ensures
        error@ == no_task_error(connection_id@),
{
    let mut error = "Error: no processing task queue for connection id ".to_string();
    error.append(connection_id);
    error.append(".");
    error
}

/// Words that a request cannot be put on its task's queue.
fn describe_not_queued(reason: &str) -> (error: String)
    ensures
        error@ == not_queued_error(reason@),
{
    let mut error = "Error: unable to enqueue: ".to_string();
    error.append(reason);
    error.append(".");
    error
}

/// The reply to a request for a file.
pub open spec fn request_reply(
    connection_id: Seq<char>,
    outcome: RequestOutcomeView,
) -> HttpReplyView {
    match outcome {
        RequestOutcomeView::NoTask => HttpReplyView::NotFound(no_task_error(connection_id)),
        RequestOutcomeView::NotQueued(reason) => HttpReplyView::NotFound(not_queued_error(reason)),
        RequestOutcomeView::Answered(response) => passed_on(response),
        RequestOutcomeView::NotAnswered(error) => HttpReplyView::NotFound("Error: "@ + error),
    }
}

/// Replies to a request for a file, which the task of its connection was to
/// answer.
pub fn serve_filewatcher(connection_id: &str, outcome: RequestOutcome) -> (reply: HttpReply)
    ensures
        reply@ == request_reply(connection_id@, outcome@),
        match outcome {
            RequestOutcome::Answered(SimpleHttpResponse::Html(document)) => {
                &&& reply matches HttpReply::Html(sent)
                &&& sent@ == document@
            },
            RequestOutcome::Answered(SimpleHttpResponse::Error(error)) => {
                &&& reply matches HttpReply::NotFound(sent)
                &&& sent@ == error@
            },
            RequestOutcome::Answered(SimpleHttpResponse::Raw(body, content_type)) => {
                &&& reply matches HttpReply::Raw(sent, sent_type)
                &&& sent@ == body@
                &&& sent_type@ == content_type@
            },
            RequestOutcome::Answered(SimpleHttpResponse::Bin(path)) => {
                &&& reply matches HttpReply::File(sent)
                &&& sent@ == path@
            },
            RequestOutcome::NoTask => {
                &&& reply matches HttpReply::NotFound(error)
                &&& error@ == "Error: no processing task queue for connection id "@ + connection_id@
                    + "."@
            },
            RequestOutcome::NotQueued(reason) => {
                &&& reply matches HttpReply::NotFound(error)
                &&& error@ == "Error: unable to enqueue: "@ + reason@ + "."@
            },
            RequestOutcome::NotAnswered(reason) => {
                &&& reply matches HttpReply::NotFound(error)
                &&& error@ == "Error: "@ + reason@
            },
        },
{
    match outcome {
        RequestOutcome::NoTask => HttpReply::NotFound(describe_no_task(connection_id)),
        RequestOutcome::NotQueued(reason) => HttpReply::NotFound(
            describe_not_queued(reason.as_str()),
        ),
        RequestOutcome::Answered(response) => match response {
            SimpleHttpResponse::Html(document) => HttpReply::Html(document),
            SimpleHttpResponse::Error(error) => HttpReply::NotFound(error),
            SimpleHttpResponse::Raw(body, content_type) => HttpReply::Raw(body, content_type),
            SimpleHttpResponse::Bin(path) => HttpReply::File(path),
        },
        RequestOutcome::NotAnswered(reason) => HttpReply::NotFound(
            "Error: ".to_string().concat(reason.as_str()),
        ),
    }
}

/// The line in the log for a request: there is one if it did not reach a task.
pub open spec fn request_log(
    connection_id: Seq<char>,
    outcome: RequestOutcomeView,
) -> Option<Seq<char>> {
    match outcome {
        RequestOutcomeView::NoTask => Some(no_task_error(connection_id)),
        RequestOutcomeView::NotQueued(reason) => Some(not_queued_error(reason)),
        RequestOutcomeView::Answered(_) | RequestOutcomeView::NotAnswered(_) => None,
    }
}

/// Names the error to log for a request: what the reply says, if the request
/// did not reach a task.
pub fn log_request(connection_id: &str, outcome: &RequestOutcome) -> (line: Option<String>)
    ensures
        match line {
            Some(line) => request_log(connection_id@, outcome@) == Some(line@),
            None => request_log(connection_id@, outcome@) is None,
        },
        match outcome {
            RequestOutcome::NoTask => {
                &&& line matches Some(error)
                &&& error@ == "Error: no processing task queue for connection id "@ + connection_id@
                    + "."@
            },
            RequestOutcome::NotQueued(reason) => {
                &&& line matches Some(error)
                &&& error@ == "Error: unable to enqueue: "@ + reason@ + "."@
            },
            RequestOutcome::Answered(_) | RequestOutcome::NotAnswered(_) => line is None,
        },
{
    match outcome {
        RequestOutcome::NoTask => Some(describe_no_task(connection_id)),
        RequestOutcome::NotQueued(reason) => Some(describe_not_queued(reason.as_str())),
        _ => None,
    }
}

/// Replies in place of a file that was to be sent as it is, but cannot be
/// opened.
pub fn file_not_opened(file_path: &str, error: &str) -> (reply: HttpReply)
    ensures
        reply@ == HttpReplyView::NotFound(open_error(file_path@, error@)),
        reply matches HttpReply::NotFound(body) && body@ == "<p>Error opening file "@ + file_path@
            + ": "@ + error@ + "."@,
{
    HttpReply::NotFound(describe_open_error(file_path, error))
}

} // verus!
