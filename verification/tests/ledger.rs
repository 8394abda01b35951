use infoundr_gateway::backend::BackendCanisterAgent;
use infoundr_gateway::ledger::{
    decode_token, headed_token, LedgerCall, LedgerOp, LedgerReply, Platform,
};
use infoundr_gateway::model::{
    AsanaTask, ChatMessage, GitHubIssue, IssueStatus, MessageRole, UserIdentifier,
};
use infoundr_gateway::principal::Principal;

fn message() -> ChatMessage {
    ChatMessage {
        id: Principal::from_bytes(vec![4]).unwrap(),
        role: MessageRole::Assistant,
        content: "c".to_string(),
        question_asked: None,
        timestamp: 1,
        bot_name: None,
    }
}

#[test]
fn token_bytes_are_read_as_utf8() {
    assert_eq!(decode_token(b"tok-123".to_vec()), Ok("tok-123".to_string()));
    assert_eq!(decode_token("clé🎉".as_bytes().to_vec()), Ok("clé🎉".to_string()));
    assert_eq!(decode_token(vec![]), Ok(String::new()));
}

#[test]
fn token_bytes_that_are_no_utf8_are_refused() {
    assert_eq!(
        decode_token(vec![0xff, 0x41]),
        Err("Failed to decode token: invalid utf-8 sequence of 1 bytes from index 0".to_string())
    );
    assert_eq!(
        decode_token(vec![0x41, 0xe2, 0x82]),
        Err("Failed to decode token: incomplete utf-8 byte sequence from index 1".to_string())
    );
}

#[test]
fn registration_goes_by_the_platform() {
    let open_chat = LedgerCall::RegisterUser { platform: Platform::OpenChat, id: "u".to_string() };
    let slack = LedgerCall::RegisterUser { platform: Platform::Slack, id: "u".to_string() };
    assert_eq!(open_chat.method(), "ensure_openchat_user");
    assert_eq!(slack.method(), "ensure_slack_user");
    assert_eq!(open_chat.op(), LedgerOp::RegisterUser);
    assert!(!open_chat.is_write());
    assert!(!open_chat.is_query());
}

#[test]
fn reads_are_queries_and_stores_are_writes() {
    let user = || UserIdentifier::SlackId("U1".to_string());
    let get = LedgerCall::GetMessages { user: user() };
    assert_eq!(get.method(), "get_chat_history");
    assert!(get.is_query());
    assert!(!get.is_write());
    let get_user = LedgerCall::GetUser { id: "U1".to_string() };
    assert_eq!(get_user.method(), "get_slack_user");
    assert!(get_user.is_query());
    assert_eq!(LedgerCall::GetAdmins.method(), "get_admins");
    assert!(LedgerCall::GetAdmins.is_query());
    let store = LedgerCall::StoreChatMessage { user: user(), message: message() };
    assert_eq!(store.method(), "store_chat_message");
    assert!(store.is_write());
    assert!(!store.is_query());
    let token = LedgerCall::GenerateDashboardToken { id: "U1".to_string() };
    assert_eq!(token.method(), "generate_dashboard_token");
    assert!(!token.is_write());
    assert!(!token.is_query());
}

#[test]
fn every_write_has_its_method() {
    let user = || UserIdentifier::OpenChatId("u".to_string());
    let calls = vec![
        (
            LedgerCall::StoreGithubConnection {
                user: user(),
                token: "t".to_string(),
                selected_repo: None,
            },
            "store_github_connection",
        ),
        (
            LedgerCall::StoreGithubIssue {
                user: user(),
                issue: GitHubIssue {
                    id: "i".to_string(),
                    title: "t".to_string(),
                    body: "b".to_string(),
                    repository: "r".to_string(),
                    created_at: 0,
                    status: IssueStatus::Open,
                },
            },
            "store_github_issue",
        ),
        (
            LedgerCall::UpdateGithubSelectedRepo { user: user(), repo_name: "r".to_string() },
            "update_github_selected_repo",
        ),
        (
            LedgerCall::StoreAsanaConnection {
                user: user(),
                token: "t".to_string(),
                workspace_id: "w".to_string(),
                project_ids: vec![],
            },
            "store_asana_connection",
        ),
        (
            LedgerCall::StoreAsanaTask {
                user: user(),
                task: AsanaTask {
                    id: "i".to_string(),
                    title: "t".to_string(),
                    description: "d".to_string(),
                    status: "active".to_string(),
                    created_at: 0,
                    platform: "asana".to_string(),
                    platform_id: "pending".to_string(),
                    creator: Principal::from_bytes(vec![4]).unwrap(),
                },
            },
            "store_asana_task",
        ),
    ];
    for (call, method) in calls {
        assert_eq!(call.method(), method);
        assert!(call.is_write());
    }
}

#[test]
fn platform_keys() {
    assert_eq!(Platform::OpenChat.key("u"), UserIdentifier::OpenChatId("u".to_string()));
    assert_eq!(Platform::Slack.key("u"), UserIdentifier::SlackId("u".to_string()));
}

#[test]
fn a_failed_call_is_reported_under_its_heading() {
    let failed = LedgerReply::Failed("canister trapped".to_string());
    assert_eq!(
        failed.failure("Failed to store Asana task: "),
        Some("Failed to store Asana task: canister trapped".to_string())
    );
    assert_eq!(
        LedgerReply::Unencodable("too deep".to_string()).failure("Failed to store Asana task: "),
        Some("Failed to encode arguments: too deep".to_string())
    );
    assert_eq!(
        LedgerReply::Undecodable("bad magic".to_string()).failure("x"),
        Some("Failed to decode response: bad magic".to_string())
    );
    assert_eq!(LedgerReply::Done(vec![1]).failure("x"), None);
    assert_eq!(LedgerReply::User(None).failure("x"), None);
    assert_eq!(LedgerReply::Messages(vec![]).failure("x"), None);
    assert_eq!(LedgerReply::Admins(vec![]).failure("x"), None);
}

#[test]
fn backend_headings() {
    let failed = LedgerReply::Failed("e".to_string());
    let expect = vec![
        (LedgerOp::RegisterUser, "Failed to register user: e"),
        (LedgerOp::StoreChatMessage, "Failed to store chat message: e"),
        (LedgerOp::GenerateDashboardToken, "Failed to generate token: e"),
        (LedgerOp::StoreGithubConnection, "Failed to store GitHub connection: e"),
        (LedgerOp::StoreGithubIssue, "Failed to store GitHub issue: e"),
        (LedgerOp::UpdateGithubSelectedRepo, "Failed to update GitHub selected repo: e"),
        (LedgerOp::StoreAsanaConnection, "Failed to store Asana connection: e"),
        (LedgerOp::StoreAsanaTask, "Failed to store Asana task: e"),
    ];
    for (op, text) in expect {
        assert_eq!(BackendCanisterAgent::failure(op, &failed), Some(text.to_string()));
    }
    assert_eq!(BackendCanisterAgent::failure(LedgerOp::RegisterUser, &LedgerReply::Done(vec![])), None);
}

#[test]
fn backend_calls_are_keyed_by_the_openchat_id() {
    let agent = BackendCanisterAgent::new("g7ko2-fyaaa-aaaam-qdlea-cai".to_string());
    assert_eq!(agent.canister_id, "g7ko2-fyaaa-aaaam-qdlea-cai");
    assert_eq!(
        agent.ensure_user_registered("u".to_string()),
        LedgerCall::RegisterUser { platform: Platform::OpenChat, id: "u".to_string() }
    );
    assert_eq!(
        agent.store_chat_message("u".to_string(), message()),
        LedgerCall::StoreChatMessage {
            user: UserIdentifier::OpenChatId("u".to_string()),
            message: message()
        }
    );
    assert_eq!(
        agent.generate_dashboard_token("u".to_string()),
        LedgerCall::GenerateDashboardToken { id: "u".to_string() }
    );
    assert_eq!(
        agent.store_github_connection("u".to_string(), "t".to_string(), Some("a/b".to_string())),
        LedgerCall::StoreGithubConnection {
            user: UserIdentifier::OpenChatId("u".to_string()),
            token: "t".to_string(),
            selected_repo: Some("a/b".to_string())
        }
    );
    assert_eq!(
        agent.update_github_selected_repo("u".to_string(), "a/b".to_string()),
        LedgerCall::UpdateGithubSelectedRepo {
            user: UserIdentifier::OpenChatId("u".to_string()),
            repo_name: "a/b".to_string()
        }
    );
    assert_eq!(
        agent.store_asana_connection(
            "u".to_string(),
            "t".to_string(),
            "w".to_string(),
            vec![("1".to_string(), "P".to_string())]
        ),
        LedgerCall::StoreAsanaConnection {
            user: UserIdentifier::OpenChatId("u".to_string()),
            token: "t".to_string(),
            workspace_id: "w".to_string(),
            project_ids: vec![("1".to_string(), "P".to_string())]
        }
    );
}

#[test]
fn a_decoding_failure_gets_its_heading() {
    assert_eq!(headed_token(Ok("t".to_string())), Ok("t".to_string()));
    assert_eq!(
        headed_token(Err("bad bytes".to_string())),
        Err("Failed to decode token: bad bytes".to_string())
    );
}
