use small_interface::answer::{expects_answer, settle, AnswerBody, AnswerState, ErrorBody, Reply};
use small_interface::form::Backend;
use small_interface::pipeline::{validate, OutboundRequest, Page, ValidationError};

fn page_with(text: &str) -> Page {
    let mut p = Page::new();
    p.set_query_text(text.to_string());
    p
}

fn placeholder() -> AnswerState {
    AnswerState::Idle("Your answer will appear here.".to_string())
}

#[test]
fn fresh_page_shows_placeholder() {
    let p = Page::new();
    assert_eq!(*p.answer(), placeholder());
    assert_eq!(p.form().draft().text, "");
    assert_eq!(p.form().draft().retrieval_depth, 5);
    assert_eq!(p.form().backend(), Backend::Local);
    assert_eq!(p.form().notice(), None);
}

#[test]
fn empty_query_is_refused() {
    let mut p = page_with("");
    assert_eq!(p.submit(), Err(ValidationError::EmptyQuery));
    assert_eq!(*p.answer(), placeholder());
    assert_eq!(p.form().notice(), Some(ValidationError::EmptyQuery));
}

#[test]
fn whitespace_query_is_refused() {
    for text in [" ", "   ", "\t\n \r", "\u{3000}\u{a0}\u{2009}"] {
        let mut p = page_with(text);
        assert_eq!(p.submit(), Err(ValidationError::EmptyQuery));
        assert_eq!(*p.answer(), placeholder());
    }
}

#[test]
fn long_query_is_refused() {
    let mut p = page_with(&"a".repeat(501));
    assert_eq!(p.submit(), Err(ValidationError::QueryTooLong));
    assert_eq!(*p.answer(), placeholder());
    assert_eq!(p.form().notice(), Some(ValidationError::QueryTooLong));
}

#[test]
fn query_of_exactly_the_limit_is_sent() {
    let text = "a".repeat(500);
    let mut p = page_with(&format!("  {}  ", text));
    let req = p.submit().unwrap();
    assert_eq!(req.query, text);
    assert_eq!(*p.answer(), AnswerState::Loading);
}

#[test]
fn limit_counts_characters_not_bytes() {
    let text = "é".repeat(500);
    assert_eq!(validate(&text), Ok(text.clone()));
    assert_eq!(validate(&"é".repeat(501)), Err(ValidationError::QueryTooLong));
}

#[test]
fn request_is_built_from_the_form() {
    let mut p = page_with("  When did the war end?\n");
    p.set_retrieval_depth(12);
    p.set_backend(true);
    let req = p.submit().unwrap();
    assert_eq!(
        req,
        OutboundRequest { query: "When did the war end?".to_string(), top_k: 12, use_openai: true }
    );
    p.set_backend(false);
    let req = p.submit().unwrap();
    assert!(!req.use_openai);
}

#[test]
fn submission_goes_through_loading_to_success() {
    let mut p = page_with("q");
    assert!(p.submit().is_ok());
    assert_eq!(*p.answer(), AnswerState::Loading);
    p.receive(Reply::Answer(AnswerBody { answer: "a".to_string(), backend: None }));
    assert_eq!(*p.answer(), AnswerState::Success("a".to_string(), "unknown".to_string()));
}

#[test]
fn submission_after_failure_goes_through_loading() {
    let mut p = page_with("q");
    p.submit().unwrap();
    p.receive(Reply::TransportFailed("refused".to_string()));
    assert!(matches!(p.answer(), AnswerState::Failed(_)));
    p.submit().unwrap();
    assert_eq!(*p.answer(), AnswerState::Loading);
    p.receive(Reply::AnswerUndecodable("missing field `answer`".to_string()));
    assert_eq!(
        *p.answer(),
        AnswerState::Failed("Failed to parse response: missing field `answer`".to_string())
    );
}

#[test]
fn transport_failure_is_a_connection_error() {
    for (remote, depth) in [(false, 1), (true, 20), (true, 7)] {
        let mut p = page_with("q");
        p.set_backend(remote);
        p.set_retrieval_depth(depth);
        p.submit().unwrap();
        p.receive(Reply::TransportFailed("connection refused".to_string()));
        assert_eq!(
            *p.answer(),
            AnswerState::Failed(
                "Connection error: connection refused. Make sure the API server is running."
                    .to_string()
            )
        );
    }
}

#[test]
fn ok_reply_shows_answer_and_backend() {
    assert!(expects_answer(200));
    let mut p = page_with("q");
    p.submit().unwrap();
    p.receive(Reply::Answer(AnswerBody {
        answer: "42".to_string(),
        backend: Some("local".to_string()),
    }));
    assert_eq!(*p.answer(), AnswerState::Success("42".to_string(), "local".to_string()));
}

#[test]
fn error_reply_shows_error_and_details() {
    assert!(!expects_answer(500));
    let mut p = page_with("q");
    p.submit().unwrap();
    p.receive(Reply::Error(
        500,
        ErrorBody { error: "timeout".to_string(), details: Some("model busy".to_string()) },
    ));
    assert_eq!(*p.answer(), AnswerState::Failed("timeout: model busy".to_string()));
}

#[test]
fn error_reply_without_details() {
    let r = settle(Reply::Error(400, ErrorBody { error: "bad query".to_string(), details: None }));
    assert_eq!(r, AnswerState::Failed("bad query".to_string()));
}

#[test]
fn unreadable_error_reply_names_the_status() {
    let r = settle(Reply::ErrorUndecodable(502, "expected value".to_string()));
    assert_eq!(r, AnswerState::Failed("Server error (502): expected value".to_string()));
    let r = settle(Reply::ErrorUndecodable(7, "x".to_string()));
    assert_eq!(r, AnswerState::Failed("Server error (7): x".to_string()));
}

#[test]
fn success_class_is_two_hundreds() {
    assert!(expects_answer(200));
    assert!(expects_answer(204));
    assert!(expects_answer(299));
    assert!(!expects_answer(199));
    assert!(!expects_answer(300));
    assert!(!expects_answer(404));
}

#[test]
fn last_reply_wins() {
    let mut p = page_with("first");
    p.submit().unwrap();
    p.set_query_text("second".to_string());
    p.submit().unwrap();
    p.receive(Reply::Answer(AnswerBody { answer: "two".to_string(), backend: None }));
    p.receive(Reply::Answer(AnswerBody { answer: "one".to_string(), backend: None }));
    assert_eq!(*p.answer(), AnswerState::Success("one".to_string(), "unknown".to_string()));
}

#[test]
fn editing_clears_validation_error() {
    let mut p = page_with("  ");
    assert!(p.submit().is_err());
    assert_eq!(p.form().notice(), Some(ValidationError::EmptyQuery));
    p.set_query_text("h".to_string());
    assert_eq!(p.form().notice(), None);
    assert_eq!(p.form().draft().text, "h");
}

#[test]
fn accepted_submission_clears_validation_error() {
    let mut p = page_with("");
    assert!(p.submit().is_err());
    p.set_retrieval_depth(3);
    assert_eq!(p.form().notice(), Some(ValidationError::EmptyQuery));
    p.set_query_text("x".to_string());
    assert!(p.submit().is_ok());
    assert_eq!(p.form().notice(), None);
    assert_eq!(*p.answer(), AnswerState::Loading);
}

#[test]
fn validation_messages() {
    assert_eq!(ValidationError::EmptyQuery.message(), "Please enter a query.");
    assert_eq!(ValidationError::QueryTooLong.message(), "Query is too long (max 500 characters).");
}
