use infoundr_gateway::processor::{
    accept, settle, status_is_success, BotResponse, ProcessorAnswer, ProcessorFailure,
    ProcessorReply, ProcessorRequest, ResponseMetadata,
};

fn response(text: &str, bot: &str) -> BotResponse {
    BotResponse { text: text.to_string(), bot_name: bot.to_string(), metadata: None }
}

fn answered(
    status: u16,
    response: Result<BotResponse, String>,
    error: Option<&str>,
) -> ProcessorReply {
    ProcessorReply::Answered(ProcessorAnswer {
        status,
        response,
        error: error.map(|e| e.to_string()),
    })
}

#[test]
fn success_statuses_are_the_two_hundreds() {
    assert!(!status_is_success(199));
    assert!(status_is_success(200));
    assert!(status_is_success(204));
    assert!(status_is_success(299));
    assert!(!status_is_success(300));
    assert!(!status_is_success(404));
    assert!(!status_is_success(0));
    assert!(!status_is_success(u16::MAX));
}

#[test]
fn a_readable_answer_settles_as_the_response() {
    let reply = answered(200, Ok(response("hi", "Benny")), None);
    assert_eq!(settle(reply), Ok(response("hi", "Benny")));
}

#[test]
fn an_unreachable_processor_is_reported() {
    let reply = ProcessorReply::Unreachable("connection refused".to_string());
    let failure = settle(reply).unwrap_err();
    assert_eq!(failure, ProcessorFailure::Unreachable("connection refused".to_string()));
    assert_eq!(failure.message(), "Failed to call Python API: connection refused");
}

#[test]
fn a_refusal_is_reported_in_the_processors_words() {
    let reply = answered(404, Err("no text".to_string()), Some("Repository not found"));
    let failure = settle(reply).unwrap_err();
    assert_eq!(failure, ProcessorFailure::Refused("Repository not found".to_string()));
    assert_eq!(failure.message(), "Repository not found");
}

#[test]
fn a_refusal_without_words_is_reported_by_its_status() {
    let reply = answered(502, Err("expected value".to_string()), None);
    let failure = settle(reply).unwrap_err();
    assert_eq!(failure, ProcessorFailure::Status(502));
    assert_eq!(failure.message(), "Python API returned error status: 502");
}

#[test]
fn a_refusal_is_not_read_as_a_response() {
    let reply = answered(500, Ok(response("hi", "Benny")), None);
    assert_eq!(settle(reply), Err(ProcessorFailure::Status(500)));
}

#[test]
fn an_unreadable_success_is_reported() {
    let reply = answered(200, Err("missing field `text`".to_string()), Some("ignored"));
    let failure = settle(reply).unwrap_err();
    assert_eq!(failure, ProcessorFailure::Unreadable("missing field `text`".to_string()));
    assert_eq!(failure.message(), "Failed to parse Python API response: missing field `text`");
}

#[test]
fn acceptance_looks_at_the_status_alone() {
    assert_eq!(accept(answered(200, Err("garbage".to_string()), None)), Ok(()));
    assert_eq!(
        accept(answered(404, Ok(response("x", "y")), Some("nope"))),
        Err(ProcessorFailure::Refused("nope".to_string()))
    );
    assert_eq!(accept(answered(301, Ok(response("x", "y")), None)), Err(ProcessorFailure::Status(301)));
    assert_eq!(
        accept(ProcessorReply::Unreachable("down".to_string())),
        Err(ProcessorFailure::Unreachable("down".to_string()))
    );
}

#[test]
fn requests_keep_their_arguments_in_order() {
    let one = ProcessorRequest::with1("github_list_repos".to_string(), "user_id", "u1");
    assert_eq!(one.command, "github_list_repos");
    assert_eq!(one.args, vec![("user_id".to_string(), "u1".to_string())]);
    let two = ProcessorRequest::with2("ask_benny".to_string(), "question", "why?", "user_id", "u1");
    assert_eq!(
        two.args,
        vec![
            ("question".to_string(), "why?".to_string()),
            ("user_id".to_string(), "u1".to_string())
        ]
    );
}

#[test]
fn issue_request_names_the_repository() {
    let r = ProcessorRequest::create_issue("T", "B", "u1", "acme/repo");
    assert_eq!(r.command, "github_create_issue");
    assert_eq!(
        r.args,
        vec![
            ("title".to_string(), "T".to_string()),
            ("body".to_string(), "B".to_string()),
            ("user_id".to_string(), "u1".to_string()),
            ("repo".to_string(), "acme/repo".to_string())
        ]
    );
}

#[test]
fn metadata_is_carried_through() {
    let with = BotResponse {
        text: "t".to_string(),
        bot_name: "b".to_string(),
        metadata: Some(ResponseMetadata {
            selected_repo: Some("acme/repo".to_string()),
            workspace_id: None,
            project_ids: None,
        }),
    };
    let reply = answered(200, Ok(BotResponse {
        text: "t".to_string(),
        bot_name: "b".to_string(),
        metadata: Some(ResponseMetadata {
            selected_repo: Some("acme/repo".to_string()),
            workspace_id: None,
            project_ids: None,
        }),
    }), None);
    assert_eq!(settle(reply), Ok(with));
}
