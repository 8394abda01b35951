use infoundr_gateway::ledger::{LedgerCall, LedgerOp, LedgerReply, Platform};
use infoundr_gateway::model::{
    AsanaConnection, ChatMessage, GitHubConnection, MessageRole, SlackUser, UserIdentifier,
};
use infoundr_gateway::principal::Principal;
use infoundr_gateway::response::{Payload, SlackResponse, TokenResponse};
use infoundr_gateway::service::{Served, Service, ServiceReply, ServiceRequest};
use infoundr_gateway::slack::{conclude, texts_of, Exchange, SlackClient, Turn};

fn service() -> Service {
    Service {
        slack_client: SlackClient::new("54ro3-xaaaa-aaaab-qac2q-cai".to_string()),
        api_key: "s3cret".to_string(),
        base_url: "https://dash.example/".to_string(),
    }
}

fn message() -> ChatMessage {
    ChatMessage {
        id: Principal::from_bytes(vec![4]).unwrap(),
        role: MessageRole::User,
        content: "hello".to_string(),
        question_asked: None,
        timestamp: 42,
        bot_name: None,
    }
}

fn register(id: &str) -> Served {
    Served::Call(LedgerCall::RegisterUser { platform: Platform::Slack, id: id.to_string() })
}

fn reply(status: u16, body: SlackResponse<Payload>) -> Served {
    Served::Reply(ServiceReply { status, body })
}

fn done() -> LedgerReply {
    LedgerReply::Done(vec![])
}

/// Takes a request up and feeds the ledger's `replies` back one by one.
fn run(header: Option<&str>, request: ServiceRequest, replies: Vec<LedgerReply>) -> Vec<Served> {
    let service = service();
    let (mut exchange, first) = service.open(header, request);
    let mut served = vec![first];
    for r in replies {
        let (next, s) = service.proceed(exchange, r);
        exchange = next;
        served.push(s);
    }
    served
}

fn is_call(served: &Served) -> bool {
    match served {
        Served::Call(_) => true,
        Served::Reply(_) => false,
    }
}

#[test]
fn a_request_without_the_key_reaches_nothing() {
    let served = run(
        None,
        ServiceRequest::StoreMessage { slack_id: "U1".to_string(), message: message() },
        vec![done(), done()],
    );
    assert_eq!(served[0], reply(401, SlackResponse::error("Missing API key".to_string())));
    assert!(!served.iter().any(is_call));
}

#[test]
fn a_request_with_a_wrong_key_reaches_nothing() {
    let requests = vec![
        ServiceRequest::Admins,
        ServiceRequest::EnsureUser { slack_id: "U1".to_string() },
        ServiceRequest::GenerateToken { slack_id: "U1".to_string() },
        ServiceRequest::UpdateGithubRepo { slack_id: "U1".to_string(), repo_name: "a/b".to_string() },
    ];
    for request in requests {
        let served = run(Some("guess"), request, vec![done(), done()]);
        assert_eq!(served[0], reply(401, SlackResponse::error("Invalid API key".to_string())));
        assert!(!served.iter().any(is_call));
    }
}

#[test]
fn the_guard_alone() {
    assert_eq!(service().auth_middleware(Some("s3cret")), Ok(()));
    assert_eq!(
        service().auth_middleware(None),
        Err(ServiceReply { status: 401, body: SlackResponse::error("Missing API key".to_string()) })
    );
}

#[test]
fn a_message_is_stored_once_its_user_is_registered() {
    let served = run(
        Some("s3cret"),
        ServiceRequest::StoreMessage { slack_id: "U1".to_string(), message: message() },
        vec![done(), done()],
    );
    assert_eq!(
        served,
        vec![
            register("U1"),
            Served::Call(LedgerCall::StoreChatMessage {
                user: UserIdentifier::SlackId("U1".to_string()),
                message: message()
            }),
            reply(200, SlackResponse::success(Payload::Nothing)),
        ]
    );
}

#[test]
fn a_message_is_not_stored_where_the_registration_fails() {
    let served = run(
        Some("s3cret"),
        ServiceRequest::StoreMessage { slack_id: "U1".to_string(), message: message() },
        vec![LedgerReply::Failed("canister stopped".to_string()), done()],
    );
    assert_eq!(
        served,
        vec![
            register("U1"),
            reply(
                200,
                SlackResponse::error("Failed to register user: canister stopped".to_string())
            ),
            reply(
                200,
                SlackResponse::error("Unexpected reply: no such request is pending".to_string())
            ),
        ]
    );
}

#[test]
fn a_registration_that_cannot_be_encoded_is_reported_as_such() {
    let served = run(
        Some("s3cret"),
        ServiceRequest::UpdateGithubRepo { slack_id: "U1".to_string(), repo_name: "a/b".to_string() },
        vec![LedgerReply::Unencodable("bad".to_string())],
    );
    assert_eq!(
        served[1],
        reply(
            200,
            SlackResponse::error(
                "Failed to register user: Failed to encode arguments: bad".to_string()
            )
        )
    );
}

#[test]
fn a_refused_write_is_reported_under_its_heading() {
    let served = run(
        Some("s3cret"),
        ServiceRequest::StoreMessage { slack_id: "U1".to_string(), message: message() },
        vec![done(), LedgerReply::Failed("full".to_string())],
    );
    assert_eq!(served[2], reply(200, SlackResponse::error("Failed to store message: full".to_string())));
}

#[test]
fn connections_are_stored_field_by_field() {
    let served = run(
        Some("s3cret"),
        ServiceRequest::StoreGithubConnection {
            slack_id: "U1".to_string(),
            github: GitHubConnection {
                timestamp: Some(5),
                token: "ghp".to_string(),
                selected_repo: Some("a/b".to_string()),
            },
        },
        vec![done()],
    );
    assert_eq!(
        served[1],
        Served::Call(LedgerCall::StoreGithubConnection {
            user: UserIdentifier::SlackId("U1".to_string()),
            token: "ghp".to_string(),
            selected_repo: Some("a/b".to_string())
        })
    );
    let served = run(
        Some("s3cret"),
        ServiceRequest::StoreAsanaConnection {
            slack_id: "U1".to_string(),
            asana: AsanaConnection {
                token: "t".to_string(),
                workspace_id: "w".to_string(),
                project_ids: vec![("1".to_string(), "One".to_string())],
            },
        },
        vec![done()],
    );
    assert_eq!(
        served[1],
        Served::Call(LedgerCall::StoreAsanaConnection {
            user: UserIdentifier::SlackId("U1".to_string()),
            token: "t".to_string(),
            workspace_id: "w".to_string(),
            project_ids: vec![("1".to_string(), "One".to_string())]
        })
    );
}

#[test]
fn registering_a_user_twice_reports_success_twice() {
    let request = || ServiceRequest::EnsureUser { slack_id: "U1".to_string() };
    let first = run(Some("s3cret"), request(), vec![done()]);
    let again = run(Some("s3cret"), request(), vec![LedgerReply::Done(vec![9, 9])]);
    assert_eq!(first, vec![register("U1"), reply(200, SlackResponse::success(Payload::Nothing))]);
    assert_eq!(first, again);
}

#[test]
fn a_refused_registration_is_reported_in_the_body() {
    let served = run(
        Some("s3cret"),
        ServiceRequest::EnsureUser { slack_id: "U1".to_string() },
        vec![LedgerReply::Failed("no".to_string())],
    );
    assert_eq!(served[1], reply(200, SlackResponse::error("Failed to register user: no".to_string())));
}

#[test]
fn a_user_is_read_without_registration() {
    let user = || SlackUser {
        slack_id: "U1".to_string(),
        site_principal: None,
        display_name: Some("Ada".to_string()),
        team_id: None,
    };
    let served = run(
        Some("s3cret"),
        ServiceRequest::GetUser { slack_id: "U1".to_string() },
        vec![LedgerReply::User(Some(user()))],
    );
    assert_eq!(
        served,
        vec![
            Served::Call(LedgerCall::GetUser { id: "U1".to_string() }),
            reply(200, SlackResponse::success(Payload::User(Some(user())))),
        ]
    );
}

#[test]
fn failures_of_a_read_are_reported() {
    let request = || ServiceRequest::GetUser { slack_id: "U1".to_string() };
    let served = run(Some("s3cret"), request(), vec![LedgerReply::Failed("down".to_string())]);
    assert_eq!(served[1], reply(200, SlackResponse::error("Failed to get user: down".to_string())));
    let served = run(Some("s3cret"), request(), vec![LedgerReply::Undecodable("magic".to_string())]);
    assert_eq!(
        served[1],
        reply(200, SlackResponse::error("Failed to decode response: magic".to_string()))
    );
    let served = run(Some("s3cret"), request(), vec![LedgerReply::Unencodable("x".to_string())]);
    assert_eq!(
        served[1],
        reply(200, SlackResponse::error("Failed to encode arguments: x".to_string()))
    );
    let served = run(Some("s3cret"), request(), vec![done()]);
    assert_eq!(
        served[1],
        reply(200, SlackResponse::error("Unexpected reply: no such request is pending".to_string()))
    );
}

#[test]
fn the_history_is_read() {
    let served = run(
        Some("s3cret"),
        ServiceRequest::GetMessages { slack_id: "U1".to_string() },
        vec![LedgerReply::Messages(vec![message()])],
    );
    assert_eq!(
        served,
        vec![
            Served::Call(LedgerCall::GetMessages {
                user: UserIdentifier::SlackId("U1".to_string())
            }),
            reply(200, SlackResponse::success(Payload::Messages(vec![message()]))),
        ]
    );
    let served = run(
        Some("s3cret"),
        ServiceRequest::GetMessages { slack_id: "U1".to_string() },
        vec![LedgerReply::Failed("down".to_string())],
    );
    assert_eq!(served[1], reply(200, SlackResponse::error("Failed to get messages: down".to_string())));
}

#[test]
fn a_token_leaves_with_its_login_address() {
    let served = run(
        Some("s3cret"),
        ServiceRequest::GenerateToken { slack_id: "U1".to_string() },
        vec![LedgerReply::Done(b"DIDL\x00\x01\x71\x2ctok".to_vec())],
    );
    assert_eq!(
        served,
        vec![
            Served::Call(LedgerCall::GenerateDashboardToken { id: "U1".to_string() }),
            reply(
                200,
                SlackResponse::success(Payload::Login(TokenResponse {
                    token: "DIDL\u{0}\u{1}q,tok".to_string(),
                    login_url: "https://dash.example/bot-login?token=tok".to_string(),
                }))
            ),
        ]
    );
}

#[test]
fn a_token_that_cannot_be_had_is_reported() {
    let request = || ServiceRequest::GenerateToken { slack_id: "U1".to_string() };
    let served = run(Some("s3cret"), request(), vec![LedgerReply::Failed("no".to_string())]);
    assert_eq!(served[1], reply(200, SlackResponse::error("Failed to generate token: no".to_string())));
    let served = run(Some("s3cret"), request(), vec![LedgerReply::Done(vec![0xff])]);
    assert_eq!(
        served[1],
        reply(
            200,
            SlackResponse::error(
                "Failed to decode token: invalid utf-8 sequence of 1 bytes from index 0".to_string()
            )
        )
    );
}

#[test]
fn a_token_reply_without_a_token_is_an_error() {
    assert_eq!(
        service().generate_slack_token(Ok(SlackResponse::success(Payload::Nothing))),
        SlackResponse::error("Failed to generate token".to_string())
    );
    assert_eq!(
        service().generate_slack_token(Ok(SlackResponse::error("x".to_string()))),
        SlackResponse::error("Failed to generate token".to_string())
    );
    assert_eq!(
        service().generate_slack_token(Err("boom".to_string())),
        SlackResponse::error("boom".to_string())
    );
    assert_eq!(
        service().respond(Some(LedgerOp::GetUser), Err("boom".to_string())),
        SlackResponse::error("boom".to_string())
    );
    assert_eq!(
        service().respond(None, Ok(SlackResponse::success(Payload::Nothing))),
        SlackResponse::success(Payload::Nothing)
    );
}

#[test]
fn administrators_are_listed_by_their_text() {
    let admins = vec![
        Principal::from_bytes(vec![4]).unwrap(),
        Principal::from_bytes(vec![]).unwrap(),
    ];
    assert_eq!(texts_of(&admins), vec!["2vxsx-fae".to_string(), "aaaaa-aa".to_string()]);
    let served = run(Some("s3cret"), ServiceRequest::Admins, vec![LedgerReply::Admins(admins)]);
    assert_eq!(
        served,
        vec![
            Served::Call(LedgerCall::GetAdmins),
            reply(
                200,
                SlackResponse::success(Payload::Admins(vec![
                    "2vxsx-fae".to_string(),
                    "aaaaa-aa".to_string()
                ]))
            ),
        ]
    );
    let served =
        run(Some("s3cret"), ServiceRequest::Admins, vec![LedgerReply::Failed("down".to_string())]);
    assert_eq!(served[1], reply(200, SlackResponse::error("down".to_string())));
}

#[test]
fn no_write_is_the_first_call_of_a_route() {
    let requests = vec![
        ServiceRequest::StoreMessage { slack_id: "U1".to_string(), message: message() },
        ServiceRequest::UpdateGithubRepo { slack_id: "U1".to_string(), repo_name: "r".to_string() },
        ServiceRequest::GetMessages { slack_id: "U1".to_string() },
        ServiceRequest::Admins,
    ];
    for request in requests {
        let served = run(Some("s3cret"), request, vec![]);
        match &served[0] {
            Served::Call(call) => assert!(!call.is_write()),
            Served::Reply(_) => panic!("a request with the key is let in"),
        }
    }
}

#[test]
fn conclusions_by_operation() {
    assert_eq!(
        conclude(LedgerOp::StoreAsanaTask, LedgerReply::Failed("e".to_string())),
        Ok(SlackResponse::error("Failed to store Asana task: e".to_string()))
    );
    assert_eq!(
        conclude(LedgerOp::StoreGithubIssue, LedgerReply::Failed("e".to_string())),
        Ok(SlackResponse::error("Failed to store GitHub issue: e".to_string()))
    );
    assert_eq!(
        conclude(LedgerOp::UpdateGithubSelectedRepo, LedgerReply::Failed("e".to_string())),
        Ok(SlackResponse::error("Failed to update selected repo: e".to_string()))
    );
    assert_eq!(
        conclude(LedgerOp::StoreAsanaConnection, LedgerReply::Failed("e".to_string())),
        Ok(SlackResponse::error("Failed to store Asana connection: e".to_string()))
    );
    assert_eq!(
        conclude(LedgerOp::StoreGithubConnection, LedgerReply::Failed("e".to_string())),
        Ok(SlackResponse::error("Failed to store GitHub connection: e".to_string()))
    );
    assert_eq!(
        conclude(LedgerOp::GetMessages, LedgerReply::Failed("e".to_string())),
        Err("Failed to get messages: e".to_string())
    );
    assert_eq!(
        conclude(LedgerOp::StoreAsanaTask, LedgerReply::Unencodable("e".to_string())),
        Err("Failed to encode arguments: e".to_string())
    );
    assert_eq!(
        conclude(LedgerOp::StoreAsanaTask, LedgerReply::Done(vec![1])),
        Ok(SlackResponse::success(Payload::Nothing))
    );
}

#[test]
fn an_exchange_that_is_over_asks_for_nothing() {
    let (exchange, turn) = Exchange::Done.advance(LedgerReply::Done(vec![]));
    assert_eq!(exchange, Exchange::Done);
    assert_eq!(turn, Turn::Done(Err("Unexpected reply: no such request is pending".to_string())));
    assert_eq!(Exchange::Done.purpose(), None);
    assert_eq!(
        Exchange::Calling { op: LedgerOp::GetUser }.purpose(),
        Some(LedgerOp::GetUser)
    );
}
