//! The service routes: each request passes the guard, runs one exchange with
//! the ledger and leaves as one reply.

use crate::auth::{check_api_key, header_view, key_failure, AuthFailure, UNAUTHORIZED};
use crate::ledger::{LedgerCall, LedgerCallView, LedgerOp, LedgerReply, LedgerReplyView, Platform};
use crate::model::{
    pairs_view, text_view, AsanaConnection, AsanaTask, ChatMessage, GitHubConnection,
    GitHubIssue, UserIdentifierView,
};
use crate::reply::{login_address, login_url};
use crate::response::{
    carrying, reporting, Payload, PayloadView, SlackResponse, SlackResponseView, TokenResponse,
};
use crate::slack::{
    calling, ensuring, exchanged, result_view, Exchange, ExchangeView, SlackClient, Turn, TurnView,
};
use crate::text::owned;
use vstd::prelude::*;
use vstd::string::*;

verus! {

/// The status of every reply that the guard lets through.
pub const OK: u16 = 200;

/// Sent where the ledger's answer to a token request carries no token.
pub const TOKEN_MISSING: &'static str = "Failed to generate token";

/// What a service route may be asked.
#[derive(Debug, PartialEq, Eq)]
pub enum ServiceRequest {
    Admins,
    GetUser { slack_id: String },
    EnsureUser { slack_id: String },
    GetMessages { slack_id: String },
    StoreMessage { slack_id: String, message: ChatMessage },
    GenerateToken { slack_id: String },
    StoreGithubConnection { slack_id: String, github: GitHubConnection },
    StoreGithubIssue { slack_id: String, issue: GitHubIssue },
    UpdateGithubRepo { slack_id: String, repo_name: String },
    StoreAsanaConnection { slack_id: String, asana: AsanaConnection },
    StoreAsanaTask { slack_id: String, task: AsanaTask },
}

/// What leaves a route: a status and the uniform body.
#[derive(Debug, PartialEq, Eq)]
pub struct ServiceReply {
    pub status: u16,
    pub body: SlackResponse<Payload>,
}

/// What a route asks of its caller next: a call to the ledger, or that the
/// reply be sent.
#[derive(Debug, PartialEq, Eq)]
pub enum Served {
    Call(LedgerCall),
    Reply(ServiceReply),
}

/// [`Served`] as contracts see it: texts and lists as sequences.
pub enum ServedView {
    Call(LedgerCallView),
    Reply { status: u16, body: SlackResponseView },
}

impl View for Served {
    type V = ServedView;

    open spec fn view(&self) -> ServedView {
        match self {
            Served::Call(call) => ServedView::Call(call@),
            Served::Reply(reply) => ServedView::Reply { status: reply.status, body: reply.body@ },
        }
    }
}

/// The exchange that serves a request, and its first call. Reads are made
/// at once; every write is preceded by the registration of its user.
pub open spec fn routed(request: ServiceRequest) -> (ExchangeView, LedgerCallView) {
    match request {
        ServiceRequest::Admins => calling(LedgerCallView::GetAdmins),
        ServiceRequest::GetUser { slack_id } => calling(LedgerCallView::GetUser { id: slack_id@ }),
        ServiceRequest::EnsureUser { slack_id } => calling(
            LedgerCallView::RegisterUser { platform: Platform::Slack, id: slack_id@ },
        ),
        ServiceRequest::GetMessages { slack_id } => calling(
            LedgerCallView::GetMessages { user: UserIdentifierView::SlackId(slack_id@) },
        ),
        ServiceRequest::StoreMessage { slack_id, message } => ensuring(
            slack_id@,
            LedgerCallView::StoreChatMessage {
                user: UserIdentifierView::SlackId(slack_id@),
                message: message@,
            },
        ),
        ServiceRequest::GenerateToken { slack_id } => calling(
            LedgerCallView::GenerateDashboardToken { id: slack_id@ },
        ),
        ServiceRequest::StoreGithubConnection { slack_id, github } => ensuring(
            slack_id@,
            LedgerCallView::StoreGithubConnection {
                user: UserIdentifierView::SlackId(slack_id@),
                token: github.token@,
                selected_repo: text_view(github.selected_repo),
            },
        ),
        ServiceRequest::StoreGithubIssue { slack_id, issue } => ensuring(
            slack_id@,
            LedgerCallView::StoreGithubIssue {
                user: UserIdentifierView::SlackId(slack_id@),
                issue: issue@,
            },
        ),
        ServiceRequest::UpdateGithubRepo { slack_id, repo_name } => ensuring(
            slack_id@,
            LedgerCallView::UpdateGithubSelectedRepo {
                user: UserIdentifierView::SlackId(slack_id@),
                repo_name: repo_name@,
            },
        ),
        ServiceRequest::StoreAsanaConnection { slack_id, asana } => ensuring(
            slack_id@,
            LedgerCallView::StoreAsanaConnection {
                user: UserIdentifierView::SlackId(slack_id@),
                token: asana.token@,
                workspace_id: asana.workspace_id@,
                project_ids: pairs_view(asana.project_ids@),
            },
        ),
        ServiceRequest::StoreAsanaTask { slack_id, task } => ensuring(
            slack_id@,
            LedgerCallView::StoreAsanaTask {
                user: UserIdentifierView::SlackId(slack_id@),
                task: task@,
            },
        ),
    }
}

/// The refusal with which the guard answers.
pub open spec fn refused(failure: AuthFailure) -> ServedView {
    ServedView::Reply { status: UNAUTHORIZED, body: reporting(failure.words()) }
}

/// How a request that carries `header` as its key is taken up: refused by
/// the guard with no exchange begun, or let in and routed.
pub open spec fn opened(header: Option<Seq<char>>, secret: Seq<char>, request: ServiceRequest) -> (
    ExchangeView,
    ServedView,
) {
    match key_failure(header, secret) {
        Some(failure) => (ExchangeView::Done, refused(failure)),
        None => (routed(request).0, ServedView::Call(routed(request).1)),
    }
}

/// What an exchange is after, while it is under way.
pub open spec fn purpose_of(exchange: ExchangeView) -> Option<LedgerOp> {
    match exchange {
        ExchangeView::Registering { then } => Some(then.op()),
        ExchangeView::Calling { op } => Some(op),
        ExchangeView::Done => None,
    }
}

/// The body in which the result of a token exchange leaves: the token with
/// the address at which it logs in.
pub open spec fn token_responded(result: Result<SlackResponseView, Seq<char>>, base_url: Seq<char>)
    -> SlackResponseView {
    match result {
        Err(reason) => reporting(reason),
        Ok(response) => match response.data {
            Some(PayloadView::Token(token)) => carrying(
                PayloadView::Login { token, login_url: login_url(base_url, token) },
            ),
            _ => reporting(TOKEN_MISSING@),
        },
    }
}

/// The body in which the result of an exchange leaves: a failure of the
/// exchange is reported like a refusal by the ledger.
pub open spec fn responded(
    purpose: Option<LedgerOp>,
    result: Result<SlackResponseView, Seq<char>>,
    base_url: Seq<char>,
) -> SlackResponseView {
    if purpose == Some(LedgerOp::GenerateDashboardToken) {
        token_responded(result, base_url)
    } else {
        match result {
            Err(reason) => reporting(reason),
            Ok(response) => response,
        }
    }
}

/// How a route goes on once the ledger has replied.
pub open spec fn proceeded(exchange: ExchangeView, reply: LedgerReplyView, base_url: Seq<char>) -> (
    ExchangeView,
    ServedView,
) {
    let (next, turn) = exchanged(exchange, reply);
    match turn {
        TurnView::Call(call) => (next, ServedView::Call(call)),
        TurnView::Done(result) => (
            next,
            ServedView::Reply { status: OK, body: responded(purpose_of(exchange), result, base_url) },
        ),
    }
}

/// The service: its ledger client, the secret that its callers must show
/// and the address of the dashboard.
#[derive(Debug, PartialEq, Eq)]
pub struct Service {
    pub slack_client: SlackClient,
    pub api_key: String,
    pub base_url: String,
}

impl Service {
    /// The guard of every route: lets a request in where the key it carries
    /// is the secret.
    pub fn auth_middleware(&self, header: Option<&str>) -> (r: Result<(), ServiceReply>)
        ensures
            r is Ok <==> key_failure(header_view(header), self.api_key@) is None,
            r matches Err(reply) ==> key_failure(header_view(header), self.api_key@) matches Some(
                failure,
            ) && (Served::Reply(reply))@ == refused(failure),
    {
        match check_api_key(header, self.api_key.as_str()) {
            Ok(u) => Ok(()),
            Err(failure) => Err(
                ServiceReply {
                    status: UNAUTHORIZED,
                    body: SlackResponse::error(owned(failure.message())),
                },
            ),
        }
    }

    /// The exchange that lists the administrators.
    pub fn get_admins(&self) -> (r: (Exchange, LedgerCall))
        ensures
            (r.0@, r.1@) == calling(LedgerCallView::GetAdmins),
    {
        SlackClient::call(LedgerCall::GetAdmins)
    }

    /// The exchange that serves `request`, and its first call.
    pub fn route(&self, request: ServiceRequest) -> (r: (Exchange, LedgerCall))
        ensures
            (r.0@, r.1@) == routed(request),
    {
        match request {
            ServiceRequest::Admins => self.get_admins(),
            ServiceRequest::GetUser { slack_id } => self.slack_client.get_user(slack_id),
            ServiceRequest::EnsureUser { slack_id } => self.slack_client.ensure_user_registered(
                slack_id,
            ),
            ServiceRequest::GetMessages { slack_id } => self.slack_client.get_messages(slack_id),
            ServiceRequest::StoreMessage { slack_id, message } => {
                self.slack_client.store_chat_message(slack_id, message)
            },
            ServiceRequest::GenerateToken { slack_id } => {
                self.slack_client.generate_dashboard_token(slack_id)
            },
            ServiceRequest::StoreGithubConnection { slack_id, github } => {
                self.slack_client.store_github_connection(
                    slack_id,
                    github.token,
                    github.selected_repo,
                )
            },
            ServiceRequest::StoreGithubIssue { slack_id, issue } => {
                self.slack_client.store_github_issue(slack_id, issue)
            },
            ServiceRequest::UpdateGithubRepo { slack_id, repo_name } => {
                self.slack_client.update_github_selected_repo(slack_id, repo_name)
            },
            ServiceRequest::StoreAsanaConnection { slack_id, asana } => {
                self.slack_client.store_asana_connection(
                    slack_id,
                    asana.token,
                    asana.workspace_id,
                    asana.project_ids,
                )
            },
            ServiceRequest::StoreAsanaTask { slack_id, task } => {
                self.slack_client.store_asana_task(slack_id, task)
            },
        }
    }

    /// Takes up a request: the guard first, then the route.
    pub fn open(&self, header: Option<&str>, request: ServiceRequest) -> (r: (Exchange, Served))
        ensures
            (r.0@, r.1@) == opened(header_view(header), self.api_key@, request),
    {
        match self.auth_middleware(header) {
            Err(reply) => (Exchange::Done, Served::Reply(reply)),
            Ok(u) => {
                let (exchange, call) = self.route(request);
                (exchange, Served::Call(call))
            },
        }
    }

    /// The body in which the result of a token exchange leaves.
    pub fn generate_slack_token(&self, result: Result<SlackResponse<Payload>, String>) -> (r:
        SlackResponse<Payload>)
        ensures
            r@ == token_responded(result_view(result), self.base_url@),
    {
        match result {
            Err(reason) => SlackResponse::error(reason),
            Ok(response) => match response.data {
                Some(Payload::Token(token)) => {
                    let login_url = login_address(self.base_url.as_str(), token.as_str());
                    SlackResponse::success(Payload::Login(TokenResponse { token, login_url }))
                },
                _ => SlackResponse::error(owned(TOKEN_MISSING)),
            },
        }
    }

    /// The body in which the result of an exchange for `purpose` leaves.
    pub fn respond(&self, purpose: Option<LedgerOp>, result: Result<SlackResponse<Payload>, String>)
        -> (r: SlackResponse<Payload>)
        ensures
            r@ == responded(purpose, result_view(result), self.base_url@),
    {
        let for_token = match purpose {
            Some(LedgerOp::GenerateDashboardToken) => true,
            _ => false,
        };
        if for_token {
            self.generate_slack_token(result)
        } else {
            match result {
                Err(reason) => SlackResponse::error(reason),
                Ok(response) => response,
            }
        }
    }

    /// Goes on with a route once the ledger has replied.
    pub fn proceed(&self, exchange: Exchange, reply: LedgerReply) -> (r: (Exchange, Served))
        ensures
            (r.0@, r.1@) == proceeded(exchange@, reply@, self.base_url@),
    {
        let purpose = exchange.purpose();
        let (next, turn) = exchange.advance(reply);
        match turn {
            Turn::Call(call) => (next, Served::Call(call)),
            Turn::Done(result) => {
                let body = self.respond(purpose, result);
                (next, Served::Reply(ServiceReply { status: OK, body }))
            },
        }
    }
}

} // verus!
