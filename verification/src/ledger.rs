//! The ledger's calls, one value per round trip, and the replies to them.
//!
//! A call names what is asked of the ledger and carries its payload; putting
//! it on the wire and bringing the reply back is left to the caller.

use crate::model::{
    pairs_view, text_view, AsanaTask, AsanaTaskView, ChatMessage, ChatMessageView, GitHubIssue,
    GitHubIssueView, SlackUser, UserIdentifier, UserIdentifierView,
};
use crate::principal::Principal;
use crate::text::{join, owned};
use vstd::prelude::*;
use vstd::string::*;
use vstd::utf8::*;

verus! {

/// The chat platform through which a user is known.
#[derive(Clone, Copy, Debug, PartialEq, Eq, Structural)]
pub enum Platform {
    OpenChat,
    Slack,
}

/// What a call asks of the ledger, without its payload.
#[derive(Clone, Copy, Debug, PartialEq, Eq, Structural)]
pub enum LedgerOp {
    RegisterUser,
    GetUser,
    GetMessages,
    StoreChatMessage,
    GenerateDashboardToken,
    StoreGithubConnection,
    StoreGithubIssue,
    UpdateGithubSelectedRepo,
    StoreAsanaConnection,
    StoreAsanaTask,
    GetAdmins,
}

/// One round trip to the ledger.
#[derive(Debug, PartialEq, Eq)]
pub enum LedgerCall {
    RegisterUser { platform: Platform, id: String },
    GetUser { id: String },
    GetMessages { user: UserIdentifier },
    StoreChatMessage { user: UserIdentifier, message: ChatMessage },
    GenerateDashboardToken { id: String },
    StoreGithubConnection { user: UserIdentifier, token: String, selected_repo: Option<String> },
    StoreGithubIssue { user: UserIdentifier, issue: GitHubIssue },
    UpdateGithubSelectedRepo { user: UserIdentifier, repo_name: String },
    StoreAsanaConnection {
        user: UserIdentifier,
        token: String,
        workspace_id: String,
        project_ids: Vec<(String, String)>,
    },
    StoreAsanaTask { user: UserIdentifier, task: AsanaTask },
    GetAdmins,
}

/// [`LedgerCall`] as contracts see it: texts and lists as sequences.
pub enum LedgerCallView {
    RegisterUser { platform: Platform, id: Seq<char> },
    GetUser { id: Seq<char> },
    GetMessages { user: UserIdentifierView },
    StoreChatMessage { user: UserIdentifierView, message: ChatMessageView },
    GenerateDashboardToken { id: Seq<char> },
    StoreGithubConnection {
        user: UserIdentifierView,
        token: Seq<char>,
        selected_repo: Option<Seq<char>>,
    },
    StoreGithubIssue { user: UserIdentifierView, issue: GitHubIssueView },
    UpdateGithubSelectedRepo { user: UserIdentifierView, repo_name: Seq<char> },
    StoreAsanaConnection {
        user: UserIdentifierView,
        token: Seq<char>,
        workspace_id: Seq<char>,
        project_ids: Seq<(Seq<char>, Seq<char>)>,
    },
    StoreAsanaTask { user: UserIdentifierView, task: AsanaTaskView },
    GetAdmins,
}

impl View for LedgerCall {
    type V = LedgerCallView;

    open spec fn view(&self) -> LedgerCallView {
        match self {
            LedgerCall::RegisterUser { platform, id } => LedgerCallView::RegisterUser {
                platform: *platform,
                id: id@,
            },
            LedgerCall::GetUser { id } => LedgerCallView::GetUser { id: id@ },
            LedgerCall::GetMessages { user } => LedgerCallView::GetMessages { user: user@ },
            LedgerCall::StoreChatMessage { user, message } => LedgerCallView::StoreChatMessage {
                user: user@,
                message: message@,
            },
            LedgerCall::GenerateDashboardToken { id } => LedgerCallView::GenerateDashboardToken {
                id: id@,
            },
            LedgerCall::StoreGithubConnection {
                user,
                token,
                selected_repo,
            } => LedgerCallView::StoreGithubConnection {
                user: user@,
                token: token@,
                selected_repo: text_view(*selected_repo),
            },
            LedgerCall::StoreGithubIssue { user, issue } => LedgerCallView::StoreGithubIssue {
                user: user@,
                issue: issue@,
            },
            LedgerCall::UpdateGithubSelectedRepo {
                user,
                repo_name,
            } => LedgerCallView::UpdateGithubSelectedRepo { user: user@, repo_name: repo_name@ },
            LedgerCall::StoreAsanaConnection {
                user,
                token,
                workspace_id,
                project_ids,
            } => LedgerCallView::StoreAsanaConnection {
                user: user@,
                token: token@,
                workspace_id: workspace_id@,
                project_ids: pairs_view(project_ids@),
            },
            LedgerCall::StoreAsanaTask { user, task } => LedgerCallView::StoreAsanaTask {
                user: user@,
                task: task@,
            },
            LedgerCall::GetAdmins => LedgerCallView::GetAdmins,
        }
    }
}

impl LedgerCallView {
    /// What the call asks of the ledger.
    pub open spec fn op(self) -> LedgerOp {
        match self {
            LedgerCallView::RegisterUser { platform, id } => LedgerOp::RegisterUser,
            LedgerCallView::GetUser { id } => LedgerOp::GetUser,
            LedgerCallView::GetMessages { user } => LedgerOp::GetMessages,
            LedgerCallView::StoreChatMessage { user, message } => LedgerOp::StoreChatMessage,
            LedgerCallView::GenerateDashboardToken { id } => LedgerOp::GenerateDashboardToken,
            LedgerCallView::StoreGithubConnection {
                user,
                token,
                selected_repo,
            } => LedgerOp::StoreGithubConnection,
            LedgerCallView::StoreGithubIssue { user, issue } => LedgerOp::StoreGithubIssue,
            LedgerCallView::UpdateGithubSelectedRepo {
                user,
                repo_name,
            } => LedgerOp::UpdateGithubSelectedRepo,
            LedgerCallView::StoreAsanaConnection {
                user,
                token,
                workspace_id,
                project_ids,
            } => LedgerOp::StoreAsanaConnection,
            LedgerCallView::StoreAsanaTask { user, task } => LedgerOp::StoreAsanaTask,
            LedgerCallView::GetAdmins => LedgerOp::GetAdmins,
        }
    }

    /// Whether the call stores or updates a record of a user.
    pub open spec fn is_write(self) -> bool {
        self is StoreChatMessage || self is StoreGithubConnection || self is StoreGithubIssue
            || self is UpdateGithubSelectedRepo || self is StoreAsanaConnection
            || self is StoreAsanaTask
    }

    /// Whether the call only reads.
    pub open spec fn is_query(self) -> bool {
        self is GetUser || self is GetMessages || self is GetAdmins
    }

    /// The user whose records a write touches.
    pub open spec fn owner(self) -> UserIdentifierView
        recommends
            self.is_write(),
    {
        match self {
            LedgerCallView::StoreChatMessage { user, message } => user,
            LedgerCallView::StoreGithubConnection { user, token, selected_repo } => user,
            LedgerCallView::StoreGithubIssue { user, issue } => user,
            LedgerCallView::UpdateGithubSelectedRepo { user, repo_name } => user,
            LedgerCallView::StoreAsanaConnection { user, token, workspace_id, project_ids } => user,
            LedgerCallView::StoreAsanaTask { user, task } => user,
            LedgerCallView::GetMessages { user } => user,
            _ => arbitrary(),
        }
    }

    /// The name of the ledger's method that serves the call.
    pub open spec fn method(self) -> Seq<char> {
        match self {
            LedgerCallView::RegisterUser { platform, id } => match platform {
                Platform::OpenChat => "ensure_openchat_user"@,
                Platform::Slack => "ensure_slack_user"@,
            },
            LedgerCallView::GetUser { id } => "get_slack_user"@,
            LedgerCallView::GetMessages { user } => "get_chat_history"@,
            LedgerCallView::StoreChatMessage { user, message } => "store_chat_message"@,
            LedgerCallView::GenerateDashboardToken { id } => "generate_dashboard_token"@,
            LedgerCallView::StoreGithubConnection {
                user,
                token,
                selected_repo,
            } => "store_github_connection"@,
            LedgerCallView::StoreGithubIssue { user, issue } => "store_github_issue"@,
            LedgerCallView::UpdateGithubSelectedRepo {
                user,
                repo_name,
            } => "update_github_selected_repo"@,
            LedgerCallView::StoreAsanaConnection {
                user,
                token,
                workspace_id,
                project_ids,
            } => "store_asana_connection"@,
            LedgerCallView::StoreAsanaTask { user, task } => "store_asana_task"@,
            LedgerCallView::GetAdmins => "get_admins"@,
        }
    }
}

/// The key under which `platform` files the user `id`.
pub open spec fn user_key(platform: Platform, id: Seq<char>) -> UserIdentifierView {
    match platform {
        Platform::OpenChat => UserIdentifierView::OpenChatId(id),
        Platform::Slack => UserIdentifierView::SlackId(id),
    }
}

impl Platform {
    /// The key under which this platform files the user `id`.
    pub fn key(self, id: &str) -> (r: UserIdentifier)
        ensures
            r@ == user_key(self, id@),
    {
        match self {
            Platform::OpenChat => UserIdentifier::OpenChatId(owned(id)),
            Platform::Slack => UserIdentifier::SlackId(owned(id)),
        }
    }
}

impl LedgerCall {
    /// What this call asks of the ledger.
    pub fn op(&self) -> (r: LedgerOp)
        ensures
            r == self@.op(),
    {
        match self {
            LedgerCall::RegisterUser { platform, id } => LedgerOp::RegisterUser,
            LedgerCall::GetUser { id } => LedgerOp::GetUser,
            LedgerCall::GetMessages { user } => LedgerOp::GetMessages,
            LedgerCall::StoreChatMessage { user, message } => LedgerOp::StoreChatMessage,
            LedgerCall::GenerateDashboardToken { id } => LedgerOp::GenerateDashboardToken,
            LedgerCall::StoreGithubConnection {
                user,
                token,
                selected_repo,
            } => LedgerOp::StoreGithubConnection,
            LedgerCall::StoreGithubIssue { user, issue } => LedgerOp::StoreGithubIssue,
            LedgerCall::UpdateGithubSelectedRepo {
                user,
                repo_name,
            } => LedgerOp::UpdateGithubSelectedRepo,
            LedgerCall::StoreAsanaConnection {
                user,
                token,
                workspace_id,
                project_ids,
            } => LedgerOp::StoreAsanaConnection,
            LedgerCall::StoreAsanaTask { user, task } => LedgerOp::StoreAsanaTask,
            LedgerCall::GetAdmins => LedgerOp::GetAdmins,
        }
    }

    /// The name of the ledger's method that serves this call.
    pub fn method(&self) -> (r: &'static str)
        ensures
            r@ == self@.method(),
    {
        match self {
            LedgerCall::RegisterUser { platform, id } => match platform {
                Platform::OpenChat => "ensure_openchat_user",
                Platform::Slack => "ensure_slack_user",
            },
            LedgerCall::GetUser { id } => "get_slack_user",
            LedgerCall::GetMessages { user } => "get_chat_history",
            LedgerCall::StoreChatMessage { user, message } => "store_chat_message",
            LedgerCall::GenerateDashboardToken { id } => "generate_dashboard_token",
            LedgerCall::StoreGithubConnection {
                user,
                token,
                selected_repo,
            } => "store_github_connection",
            LedgerCall::StoreGithubIssue { user, issue } => "store_github_issue",
            LedgerCall::UpdateGithubSelectedRepo {
                user,
                repo_name,
            } => "update_github_selected_repo",
            LedgerCall::StoreAsanaConnection {
                user,
                token,
                workspace_id,
                project_ids,
            } => "store_asana_connection",
            LedgerCall::StoreAsanaTask { user, task } => "store_asana_task",
            LedgerCall::GetAdmins => "get_admins",
        }
    }

    /// Whether this call only reads, so that it can go out as a query.
    pub fn is_query(&self) -> (r: bool)
        ensures
            r == self@.is_query(),
    {
        match self {
            LedgerCall::GetUser { id } => true,
            LedgerCall::GetMessages { user } => true,
            LedgerCall::GetAdmins => true,
            _ => false,
        }
    }

    /// Whether this call stores or updates a record of a user.
    pub fn is_write(&self) -> (r: bool)
        ensures
            r == self@.is_write(),
    {
        match self {
            LedgerCall::StoreChatMessage { user, message } => true,
            LedgerCall::StoreGithubConnection { user, token, selected_repo } => true,
            LedgerCall::StoreGithubIssue { user, issue } => true,
            LedgerCall::UpdateGithubSelectedRepo { user, repo_name } => true,
            LedgerCall::StoreAsanaConnection { user, token, workspace_id, project_ids } => true,
            LedgerCall::StoreAsanaTask { user, task } => true,
            _ => false,
        }
    }
}

/// How a round trip to the ledger ended.
#[derive(Debug, PartialEq, Eq)]
pub enum LedgerReply {
    /// The arguments could not be encoded; nothing was sent.
    Unencodable(String),
    /// The ledger could not be reached, or rejected the call.
    Failed(String),
    /// The ledger answered with these bytes.
    Done(Vec<u8>),
    /// The ledger answered a `GetUser` with this user, if any.
    User(Option<SlackUser>),
    /// The ledger answered a `GetMessages` with this history.
    Messages(Vec<ChatMessage>),
    /// The ledger answered a `GetAdmins` with these principals.
    Admins(Vec<Principal>),
    /// The ledger answered, and the answer could not be decoded.
    Undecodable(String),
}

/// [`LedgerReply`] as contracts see it: texts and lists as sequences.
pub enum LedgerReplyView {
    Unencodable(Seq<char>),
    Failed(Seq<char>),
    Done(Seq<u8>),
    User(Option<SlackUser>),
    Messages(Vec<ChatMessage>),
    Admins(Vec<Principal>),
    Undecodable(Seq<char>),
}

impl View for LedgerReply {
    type V = LedgerReplyView;

    open spec fn view(&self) -> LedgerReplyView {
        match self {
            LedgerReply::Unencodable(e) => LedgerReplyView::Unencodable(e@),
            LedgerReply::Failed(e) => LedgerReplyView::Failed(e@),
            LedgerReply::Done(bytes) => LedgerReplyView::Done(bytes@),
            LedgerReply::User(user) => LedgerReplyView::User(*user),
            LedgerReply::Messages(messages) => LedgerReplyView::Messages(*messages),
            LedgerReply::Admins(admins) => LedgerReplyView::Admins(*admins),
            LedgerReply::Undecodable(e) => LedgerReplyView::Undecodable(e@),
        }
    }
}

impl LedgerReplyView {
    /// Whether the ledger carried the call out and its answer was understood.
    pub open spec fn succeeded(self) -> bool {
        self is Done || self is User || self is Messages || self is Admins
    }

    /// Why the round trip failed, each cause under its own heading, the
    /// ledger's own under `prefix`; nothing where it succeeded.
    pub open spec fn failure(self, prefix: Seq<char>) -> Option<Seq<char>> {
        match self {
            LedgerReplyView::Unencodable(e) => Some("Failed to encode arguments: "@ + e),
            LedgerReplyView::Failed(e) => Some(prefix + e),
            LedgerReplyView::Undecodable(e) => Some("Failed to decode response: "@ + e),
            _ => None,
        }
    }
}

impl LedgerReply {
    /// Why the round trip failed, the ledger's own cause under `prefix`;
    /// nothing where it succeeded.
    pub fn failure(&self, prefix: &str) -> (r: Option<String>)
        ensures
            text_view(r) == self@.failure(prefix@),
    {
        match self {
            LedgerReply::Unencodable(e) => Some(join("Failed to encode arguments: ", e.as_str())),
            LedgerReply::Failed(e) => Some(join(prefix, e.as_str())),
            LedgerReply::Undecodable(e) => Some(join("Failed to decode response: ", e.as_str())),
            _ => None,
        }
    }
}

/// The message of the error with which `String::from_utf8` refuses `bytes`.
pub uninterp spec fn utf8_error_text(bytes: Seq<u8>) -> Seq<char>;

/// `String::from_utf8`, the error turned into its message: the text that the
/// bytes encode where they are valid UTF-8, and otherwise the message of the
/// error, which depends on the bytes alone.
#[verifier::external_body]
fn text_from_utf8(bytes: Vec<u8>) -> (r: Result<String, String>)
    ensures
        r is Ok <==> valid_utf8(bytes@),
        r matches Ok(s) ==> s@ == decode_utf8(bytes@),
        r matches Err(e) ==> e@ == utf8_error_text(bytes@),
{
    match String::from_utf8(bytes) {
        Ok(text) => Ok(text),
        Err(e) => Err(e.to_string()),
    }
}

/// The token that `bytes` spell out, or the reason they spell none.
pub open spec fn token_of(bytes: Seq<u8>) -> Result<Seq<char>, Seq<char>> {
    if valid_utf8(bytes) {
        Ok(decode_utf8(bytes))
    } else {
        Err("Failed to decode token: "@ + utf8_error_text(bytes))
    }
}

/// The view of a text or of the reason there is none.
pub open spec fn text_result_view(r: Result<String, String>) -> Result<Seq<char>, Seq<char>> {
    match r {
        Ok(s) => Ok(s@),
        Err(e) => Err(e@),
    }
}

/// The token that was decoded, or the failure under its heading.
pub open spec fn token_from(decoded: Result<Seq<char>, Seq<char>>) -> Result<Seq<char>, Seq<char>> {
    match decoded {
        Ok(token) => Ok(token),
        Err(e) => Err("Failed to decode token: "@ + e),
    }
}

/// Puts the failure to decode a token under its heading.
pub fn headed_token(decoded: Result<String, String>) -> (r: Result<String, String>)
    ensures
        text_result_view(r) == token_from(text_result_view(decoded)),
{
    match decoded {
        Ok(token) => Ok(token),
        Err(e) => Err(join("Failed to decode token: ", e.as_str())),
    }
}

/// Reads the ledger's answer to a token request as text.
pub fn decode_token(bytes: Vec<u8>) -> (r: Result<String, String>)
    ensures
        text_result_view(r) == token_of(bytes@),
{
    headed_token(text_from_utf8(bytes))
}

} // verus!
