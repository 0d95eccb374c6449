use filewatcher::serving::{
    asks_for_toc, file_not_opened, is_toc_query, log_request, serve_filewatcher, smart_read, FileRead,
    HttpReply, RequestOutcome, SimpleHttpResponse,
};

#[test]
fn smart_read_tells_text_from_the_rest() {
    assert_eq!(
        smart_read("/a", FileRead::Text("text".to_string())),
        Ok("text".to_string())
    );
    assert_eq!(
        smart_read("/a", FileRead::NotText("te".to_string())),
        Err(SimpleHttpResponse::Bin("/a".to_string()))
    );
    assert_eq!(
        smart_read("/a", FileRead::NotOpened("no such file".to_string())),
        Err(SimpleHttpResponse::Error(
            "<p>Error opening file /a: no such file.".to_string()
        ))
    );
}

#[test]
fn the_mode_decides_on_the_table_of_contents() {
    assert!(asks_for_toc(Some("toc".to_string())));
    assert!(!asks_for_toc(Some("TOC".to_string())));
    assert!(!asks_for_toc(Some("".to_string())));
    assert!(!asks_for_toc(None));
}

#[test]
fn queries_are_parsed_for_the_mode() {
    assert!(is_toc_query("mode=toc"));
    assert!(is_toc_query("a=b&mode=toc"));
    assert!(is_toc_query("mode=%74oc"));
    assert!(is_toc_query("mode=x&mode=toc"));
    assert!(!is_toc_query("mode=toc&mode=x"));
    assert!(!is_toc_query(""));
    assert!(!is_toc_query("mode"));
    assert!(!is_toc_query("mode=toc2"));
    assert!(!is_toc_query("mode=toc+"));
    assert!(!is_toc_query("other=toc"));
    assert!(!is_toc_query("toc"));
}

#[test]
fn responses_are_passed_on() {
    let pass = |response| serve_filewatcher("3", RequestOutcome::Answered(response));
    assert_eq!(
        pass(SimpleHttpResponse::Html("<html>".to_string())),
        HttpReply::Html("<html>".to_string())
    );
    assert_eq!(
        pass(SimpleHttpResponse::Error("<p>no".to_string())),
        HttpReply::NotFound("<p>no".to_string())
    );
    assert_eq!(
        pass(SimpleHttpResponse::Raw(
            "x".to_string(),
            "text/css".to_string()
        )),
        HttpReply::Raw("x".to_string(), "text/css".to_string())
    );
    assert_eq!(
        pass(SimpleHttpResponse::Bin("/x.png".to_string())),
        HttpReply::File("/x.png".to_string())
    );
}

#[test]
fn requests_without_a_response_are_not_found() {
    let not_found = |body: &str| HttpReply::NotFound(body.to_string());
    assert_eq!(
        serve_filewatcher("3", RequestOutcome::NoTask),
        not_found("Error: no processing task queue for connection id 3.")
    );
    assert_eq!(
        serve_filewatcher("3", RequestOutcome::NotQueued("channel closed".to_string())),
        not_found("Error: unable to enqueue: channel closed.")
    );
    assert_eq!(
        serve_filewatcher("3", RequestOutcome::NotAnswered("channel closed".to_string())),
        not_found("Error: channel closed")
    );
    assert_eq!(
        file_not_opened("/x", "denied"),
        not_found("<p>Error opening file /x: denied.")
    );
}

#[test]
fn requests_that_reach_no_task_are_logged() {
    assert_eq!(
        log_request("42", &RequestOutcome::NoTask).as_deref(),
        Some("Error: no processing task queue for connection id 42.")
    );
    assert_eq!(
        log_request("7", &RequestOutcome::NotQueued("channel closed".to_string())).as_deref(),
        Some("Error: unable to enqueue: channel closed.")
    );
    assert_eq!(
        log_request("7", &RequestOutcome::NotAnswered("channel closed".to_string())),
        None
    );
    let failed = SimpleHttpResponse::Error("no".to_string());
    assert_eq!(log_request("7", &RequestOutcome::Answered(failed)), None);
}
