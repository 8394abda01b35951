//! The ledger client of the service routes. Every write is preceded by the
//! registration of its user: an exchange is the registration, if the
//! operation needs one, then the call itself.

use crate::engine::OUT_OF_TURN;
use crate::ledger::{
    decode_token, token_of, LedgerCall, LedgerCallView, LedgerOp, LedgerReply, LedgerReplyView,
    Platform,
};
use crate::model::{
    pairs_view, text_view, AsanaTask, ChatMessage, GitHubIssue, UserIdentifier, UserIdentifierView,
};
use crate::principal::{principal_text, Principal};
use crate::response::{
    carrying, reporting, texts_view, Payload, PayloadView, SlackResponse, SlackResponseView,
};
use crate::text::{join, owned};
use vstd::prelude::*;
use vstd::string::*;

verus! {

/// The heading under which the failure of a registration is reported.
pub const REGISTRATION_FAILED: &'static str = "Failed to register user: ";

/// The heading under which the failure of a call is reported.
pub open spec fn slack_prefix(op: LedgerOp) -> Seq<char> {
    match op {
        LedgerOp::RegisterUser => REGISTRATION_FAILED@,
        LedgerOp::GetUser => "Failed to get user: "@,
        LedgerOp::GetMessages => "Failed to get messages: "@,
        LedgerOp::StoreChatMessage => "Failed to store message: "@,
        LedgerOp::GenerateDashboardToken => "Failed to generate token: "@,
        LedgerOp::StoreGithubConnection => "Failed to store GitHub connection: "@,
        LedgerOp::StoreGithubIssue => "Failed to store GitHub issue: "@,
        LedgerOp::UpdateGithubSelectedRepo => "Failed to update selected repo: "@,
        LedgerOp::StoreAsanaConnection => "Failed to store Asana connection: "@,
        LedgerOp::StoreAsanaTask => "Failed to store Asana task: "@,
        LedgerOp::GetAdmins => Seq::empty(),
    }
}

/// Whether the ledger's refusal of a call is reported in the body of a reply
/// rather than as a failure of the exchange: so it is for the registration
/// and for every write.
pub open spec fn reports_in_body(op: LedgerOp) -> bool {
    op == LedgerOp::RegisterUser || op == LedgerOp::StoreChatMessage || op
        == LedgerOp::StoreGithubConnection || op == LedgerOp::StoreGithubIssue || op
        == LedgerOp::UpdateGithubSelectedRepo || op == LedgerOp::StoreAsanaConnection || op
        == LedgerOp::StoreAsanaTask
}

/// The text forms of a list of principals.
pub open spec fn admin_texts(admins: Seq<Principal>) -> Seq<Seq<char>> {
    Seq::new(admins.len(), |i: int| principal_text(admins[i]@))
}

/// What the answer to a call carries back, where it is the answer that the
/// call expects.
pub open spec fn carried(op: LedgerOp, reply: LedgerReplyView) -> Result<PayloadView, Seq<char>> {
    match op {
        LedgerOp::GetUser => match reply {
            LedgerReplyView::User(user) => Ok(PayloadView::User(user)),
            _ => Err(OUT_OF_TURN@),
        },
        LedgerOp::GetMessages => match reply {
            LedgerReplyView::Messages(messages) => Ok(PayloadView::Messages(messages)),
            _ => Err(OUT_OF_TURN@),
        },
        LedgerOp::GetAdmins => match reply {
            LedgerReplyView::Admins(admins) => Ok(PayloadView::Admins(admin_texts(admins@))),
            _ => Err(OUT_OF_TURN@),
        },
        LedgerOp::GenerateDashboardToken => match reply {
            LedgerReplyView::Done(bytes) => match token_of(bytes) {
                Ok(token) => Ok(PayloadView::Token(token)),
                Err(reason) => Err(reason),
            },
            _ => Err(OUT_OF_TURN@),
        },
        _ => Ok(PayloadView::Nothing),
    }
}

/// How the call for `op` ends on `reply`.
pub open spec fn concluded(op: LedgerOp, reply: LedgerReplyView) -> Result<
    SlackResponseView,
    Seq<char>,
> {
    match reply {
        LedgerReplyView::Failed(e) => if reports_in_body(op) {
            Ok(reporting(slack_prefix(op) + e))
        } else {
            Err(slack_prefix(op) + e)
        },
        LedgerReplyView::Unencodable(e) => Err("Failed to encode arguments: "@ + e),
        LedgerReplyView::Undecodable(e) => Err("Failed to decode response: "@ + e),
        _ => match carried(op, reply) {
            Ok(payload) => Ok(carrying(payload)),
            Err(reason) => Err(reason),
        },
    }
}

/// An exchange with the ledger under way.
#[derive(Debug, PartialEq, Eq)]
pub enum Exchange {
    /// The registration is out; `then` follows once it is confirmed.
    Registering { then: LedgerCall },
    /// The call for `op` is out.
    Calling { op: LedgerOp },
    /// Nothing is out.
    Done,
}

/// [`Exchange`] as contracts see it: texts and lists as sequences.
pub enum ExchangeView {
    Registering { then: LedgerCallView },
    Calling { op: LedgerOp },
    Done,
}

impl View for Exchange {
    type V = ExchangeView;

    open spec fn view(&self) -> ExchangeView {
        match self {
            Exchange::Registering { then } => ExchangeView::Registering { then: then@ },
            Exchange::Calling { op } => ExchangeView::Calling { op: *op },
            Exchange::Done => ExchangeView::Done,
        }
    }
}

/// What an exchange asks of its caller next: one more call, or nothing, the
/// exchange being over with this result.
#[derive(Debug, PartialEq, Eq)]
pub enum Turn {
    Call(LedgerCall),
    Done(Result<SlackResponse<Payload>, String>),
}

/// [`Turn`] as contracts see it: texts and lists as sequences.
pub enum TurnView {
    Call(LedgerCallView),
    Done(Result<SlackResponseView, Seq<char>>),
}

impl View for Turn {
    type V = TurnView;

    open spec fn view(&self) -> TurnView {
        match self {
            Turn::Call(call) => TurnView::Call(call@),
            Turn::Done(result) => TurnView::Done(
                match result {
                    Ok(response) => Ok(response@),
                    Err(reason) => Err(reason@),
                },
            ),
        }
    }
}

/// The exchange after a reply, and what it asks next. A registration that
/// the ledger does not confirm ends the exchange: the write that was to
/// follow is not made.
pub open spec fn exchanged(exchange: ExchangeView, reply: LedgerReplyView) -> (
    ExchangeView,
    TurnView,
) {
    match exchange {
        ExchangeView::Registering { then } => match reply.failure(Seq::empty()) {
            Some(reason) => (
                ExchangeView::Done,
                TurnView::Done(Ok(reporting(REGISTRATION_FAILED@ + reason))),
            ),
            None => (ExchangeView::Calling { op: then.op() }, TurnView::Call(then)),
        },
        ExchangeView::Calling { op } => (ExchangeView::Done, TurnView::Done(concluded(op, reply))),
        ExchangeView::Done => (ExchangeView::Done, TurnView::Done(Err(OUT_OF_TURN@))),
    }
}

/// The exchange that makes `call` alone.
pub open spec fn calling(call: LedgerCallView) -> (ExchangeView, LedgerCallView) {
    (ExchangeView::Calling { op: call.op() }, call)
}

/// The exchange that registers the Slack user `slack_id` and then makes
/// `then`.
pub open spec fn ensuring(slack_id: Seq<char>, then: LedgerCallView) -> (
    ExchangeView,
    LedgerCallView,
) {
    (
        ExchangeView::Registering { then },
        LedgerCallView::RegisterUser { platform: Platform::Slack, id: slack_id },
    )
}

/// The text forms of `admins`.
pub fn texts_of(admins: &Vec<Principal>) -> (r: Vec<String>)
    ensures
        texts_view(r@) == admin_texts(admins@),
{
    let mut out: Vec<String> = Vec::new();
    let mut i: usize = 0;
    while i < admins.len()
        invariant
            i <= admins.len(),
            out@.len() == i,
            forall|k: int| 0 <= k < i ==> (#[trigger] out@[k])@ == principal_text(admins@[k]@),
        decreases admins.len() - i,
    {
        out.push(admins[i].to_text());
        i += 1;
    }
    assert(texts_view(out@) =~= admin_texts(admins@));
    out
}

/// The heading under which the failure of a call is reported.
pub fn prefix(op: LedgerOp) -> (r: &'static str)
    ensures
        r@ == slack_prefix(op),
{
    let r = match op {
        LedgerOp::RegisterUser => REGISTRATION_FAILED,
        LedgerOp::GetUser => "Failed to get user: ",
        LedgerOp::GetMessages => "Failed to get messages: ",
        LedgerOp::StoreChatMessage => "Failed to store message: ",
        LedgerOp::GenerateDashboardToken => "Failed to generate token: ",
        LedgerOp::StoreGithubConnection => "Failed to store GitHub connection: ",
        LedgerOp::StoreGithubIssue => "Failed to store GitHub issue: ",
        LedgerOp::UpdateGithubSelectedRepo => "Failed to update selected repo: ",
        LedgerOp::StoreAsanaConnection => "Failed to store Asana connection: ",
        LedgerOp::StoreAsanaTask => "Failed to store Asana task: ",
        LedgerOp::GetAdmins => "",
    };
    proof {
        reveal_strlit("");
        assert(""@ =~= Seq::<char>::empty());
    }
    r
}

/// Whether the ledger's refusal of a call is reported in the body of a reply.
pub fn in_body(op: LedgerOp) -> (r: bool)
    ensures
        r == reports_in_body(op),
{
    match op {
        LedgerOp::RegisterUser => true,
        LedgerOp::StoreChatMessage => true,
        LedgerOp::StoreGithubConnection => true,
        LedgerOp::StoreGithubIssue => true,
        LedgerOp::UpdateGithubSelectedRepo => true,
        LedgerOp::StoreAsanaConnection => true,
        LedgerOp::StoreAsanaTask => true,
        _ => false,
    }
}

/// The view of a payload or of the reason there is none.
pub open spec fn payload_result_view(r: Result<Payload, String>) -> Result<PayloadView, Seq<char>> {
    match r {
        Ok(payload) => Ok(payload@),
        Err(reason) => Err(reason@),
    }
}

/// What the answer to a call carries back.
pub fn carry(op: LedgerOp, reply: LedgerReply) -> (r: Result<Payload, String>)
    ensures
        payload_result_view(r) == carried(op, reply@),
{
    match op {
        LedgerOp::GetUser => match reply {
            LedgerReply::User(user) => Ok(Payload::User(user)),
            _ => Err(owned(OUT_OF_TURN)),
        },
        LedgerOp::GetMessages => match reply {
            LedgerReply::Messages(messages) => Ok(Payload::Messages(messages)),
            _ => Err(owned(OUT_OF_TURN)),
        },
        LedgerOp::GetAdmins => match reply {
            LedgerReply::Admins(admins) => Ok(Payload::Admins(texts_of(&admins))),
            _ => Err(owned(OUT_OF_TURN)),
        },
        LedgerOp::GenerateDashboardToken => match reply {
            LedgerReply::Done(bytes) => match decode_token(bytes) {
                Ok(token) => Ok(Payload::Token(token)),
                Err(reason) => Err(reason),
            },
            _ => Err(owned(OUT_OF_TURN)),
        },
        _ => Ok(Payload::Nothing),
    }
}

/// The view of the result of an exchange.
pub open spec fn result_view(r: Result<SlackResponse<Payload>, String>) -> Result<
    SlackResponseView,
    Seq<char>,
> {
    match r {
        Ok(response) => Ok(response@),
        Err(reason) => Err(reason@),
    }
}

/// How the call for `op` ends on `reply`.
pub fn conclude(op: LedgerOp, reply: LedgerReply) -> (r: Result<SlackResponse<Payload>, String>)
    ensures
        result_view(r) == concluded(op, reply@),
{
    match reply {
        LedgerReply::Failed(e) => {
            let reason = join(prefix(op), e.as_str());
            if in_body(op) {
                Ok(SlackResponse::error(reason))
            } else {
                Err(reason)
            }
        },
        LedgerReply::Unencodable(e) => Err(join("Failed to encode arguments: ", e.as_str())),
        LedgerReply::Undecodable(e) => Err(join("Failed to decode response: ", e.as_str())),
        other => match carry(op, other) {
            Ok(payload) => Ok(SlackResponse::success(payload)),
            Err(reason) => Err(reason),
        },
    }
}

impl Exchange {
    /// Takes the reply to the call that this exchange asked for last.
    pub fn advance(self, reply: LedgerReply) -> (r: (Exchange, Turn))
        ensures
            (r.0@, r.1@) == exchanged(self@, reply@),
    {
        match self {
            Exchange::Registering { then } => match reply.failure("") {
                Some(reason) => {
                    proof {
                        reveal_strlit("");
                        assert(""@ =~= Seq::<char>::empty());
                    }
                    (
                        Exchange::Done,
                        Turn::Done(
                            Ok(SlackResponse::error(join(REGISTRATION_FAILED, reason.as_str()))),
                        ),
                    )
                },
                None => {
                    proof {
                        reveal_strlit("");
                        assert(""@ =~= Seq::<char>::empty());
                    }
                    let op = then.op();
                    (Exchange::Calling { op }, Turn::Call(then))
                },
            },
            Exchange::Calling { op } => (Exchange::Done, Turn::Done(conclude(op, reply))),
            Exchange::Done => (Exchange::Done, Turn::Done(Err(owned(OUT_OF_TURN)))),
        }
    }

    /// What the exchange is after, while it is under way.
    pub fn purpose(&self) -> (r: Option<LedgerOp>)
        ensures
            r == match self@ {
                ExchangeView::Registering { then } => Some(then.op()),
                ExchangeView::Calling { op } => Some(op),
                ExchangeView::Done => None,
            },
    {
        match self {
            Exchange::Registering { then } => Some(then.op()),
            Exchange::Calling { op } => Some(*op),
            Exchange::Done => None,
        }
    }
}

/// The ledger client of the service routes. It addresses one canister.
#[derive(Debug, PartialEq, Eq)]
pub struct SlackClient {
    pub canister_id: String,
}

impl SlackClient {
    /// The client of the ledger that lives in `canister_id`.
    pub fn new(canister_id: String) -> (r: SlackClient)
        ensures
            r.canister_id == canister_id,
    {
        SlackClient { canister_id }
    }

    /// The exchange that makes `call` alone.
    pub fn call(call: LedgerCall) -> (r: (Exchange, LedgerCall))
        ensures
            (r.0@, r.1@) == calling(call@),
    {
        let op = call.op();
        (Exchange::Calling { op }, call)
    }

    /// The exchange that registers `slack_id` and then makes `then`.
    pub fn ensure_then(slack_id: String, then: LedgerCall) -> (r: (Exchange, LedgerCall))
        ensures
            (r.0@, r.1@) == ensuring(slack_id@, then@),
    {
        (
            Exchange::Registering { then },
            LedgerCall::RegisterUser { platform: Platform::Slack, id: slack_id },
        )
    }

    /// Registers the user, or finds them registered.
    pub fn ensure_user_registered(&self, slack_id: String) -> (r: (Exchange, LedgerCall))
        ensures
            (r.0@, r.1@) == calling(
                LedgerCallView::RegisterUser { platform: Platform::Slack, id: slack_id@ },
            ),
    {
        SlackClient::call(LedgerCall::RegisterUser { platform: Platform::Slack, id: slack_id })
    }

    /// Reads the user.
    pub fn get_user(&self, slack_id: String) -> (r: (Exchange, LedgerCall))
        ensures
            (r.0@, r.1@) == calling(LedgerCallView::GetUser { id: slack_id@ }),
    {
        SlackClient::call(LedgerCall::GetUser { id: slack_id })
    }

    /// Appends `message` to the user's history, once the user is registered.
    pub fn store_chat_message(&self, slack_id: String, message: ChatMessage) -> (r: (
        Exchange,
        LedgerCall,
    ))
        ensures
            (r.0@, r.1@) == ensuring(
                slack_id@,
                LedgerCallView::StoreChatMessage {
                    user: UserIdentifierView::SlackId(slack_id@),
                    message: message@,
                },
            ),
    {
        let then = LedgerCall::StoreChatMessage {
            user: UserIdentifier::SlackId(slack_id.clone()),
            message,
        };
        SlackClient::ensure_then(slack_id, then)
    }

    /// Reads the user's history.
    pub fn get_messages(&self, slack_id: String) -> (r: (Exchange, LedgerCall))
        ensures
            (r.0@, r.1@) == calling(
                LedgerCallView::GetMessages { user: UserIdentifierView::SlackId(slack_id@) },
            ),
    {
        SlackClient::call(LedgerCall::GetMessages { user: UserIdentifier::SlackId(slack_id) })
    }

    /// Asks for a token to the user's dashboard.
    pub fn generate_dashboard_token(&self, slack_id: String) -> (r: (Exchange, LedgerCall))
        ensures
            (r.0@, r.1@) == calling(LedgerCallView::GenerateDashboardToken { id: slack_id@ }),
    {
        SlackClient::call(LedgerCall::GenerateDashboardToken { id: slack_id })
    }

    /// Stores the user's GitHub credential, once the user is registered.
    pub fn store_github_connection(
        &self,
        slack_id: String,
        token: String,
        selected_repo: Option<String>,
    ) -> (r: (Exchange, LedgerCall))
        ensures
            (r.0@, r.1@) == ensuring(
                slack_id@,
                LedgerCallView::StoreGithubConnection {
                    user: UserIdentifierView::SlackId(slack_id@),
                    token: token@,
                    selected_repo: text_view(selected_repo),
                },
            ),
    {
        let then = LedgerCall::StoreGithubConnection {
            user: UserIdentifier::SlackId(slack_id.clone()),
            token,
            selected_repo,
        };
        SlackClient::ensure_then(slack_id, then)
    }

    /// Records an issue, once the user is registered.
    pub fn store_github_issue(&self, slack_id: String, issue: GitHubIssue) -> (r: (
        Exchange,
        LedgerCall,
    ))
        ensures
            (r.0@, r.1@) == ensuring(
                slack_id@,
                LedgerCallView::StoreGithubIssue {
                    user: UserIdentifierView::SlackId(slack_id@),
                    issue: issue@,
                },
            ),
    {
        let then = LedgerCall::StoreGithubIssue {
            user: UserIdentifier::SlackId(slack_id.clone()),
            issue,
        };
        SlackClient::ensure_then(slack_id, then)
    }

    /// Changes the repository chosen for the user's GitHub credential, once
    /// the user is registered.
    pub fn update_github_selected_repo(&self, slack_id: String, repo_name: String) -> (r: (
        Exchange,
        LedgerCall,
    ))
        ensures
            (r.0@, r.1@) == ensuring(
                slack_id@,
                LedgerCallView::UpdateGithubSelectedRepo {
                    user: UserIdentifierView::SlackId(slack_id@),
                    repo_name: repo_name@,
                },
            ),
    {
        let then = LedgerCall::UpdateGithubSelectedRepo {
            user: UserIdentifier::SlackId(slack_id.clone()),
            repo_name,
        };
        SlackClient::ensure_then(slack_id, then)
    }

    /// Stores the user's Asana credential, once the user is registered.
    pub fn store_asana_connection(
        &self,
        slack_id: String,
        token: String,
        workspace_id: String,
        project_ids: Vec<(String, String)>,
    ) -> (r: (Exchange, LedgerCall))
        ensures
            (r.0@, r.1@) == ensuring(
                slack_id@,
                LedgerCallView::StoreAsanaConnection {
                    user: UserIdentifierView::SlackId(slack_id@),
                    token: token@,
                    workspace_id: workspace_id@,
                    project_ids: pairs_view(project_ids@),
                },
            ),
    {
        let then = LedgerCall::StoreAsanaConnection {
            user: UserIdentifier::SlackId(slack_id.clone()),
            token,
            workspace_id,
            project_ids,
        };
        SlackClient::ensure_then(slack_id, then)
    }

    /// Records a task, once the user is registered.
    pub fn store_asana_task(&self, slack_id: String, task: AsanaTask) -> (r: (Exchange, LedgerCall))
        ensures
            (r.0@, r.1@) == ensuring(
                slack_id@,
                LedgerCallView::StoreAsanaTask {
                    user: UserIdentifierView::SlackId(slack_id@),
                    task: task@,
                },
            ),
    {
        let then = LedgerCall::StoreAsanaTask {
            user: UserIdentifier::SlackId(slack_id.clone()),
            task,
        };
        SlackClient::ensure_then(slack_id, then)
    }
}

} // verus!
