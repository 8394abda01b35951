//! The steps of a session in executable form, each held to the model of the
//! engine.

use crate::backend::BackendCanisterAgent;
use crate::command::{CommandKind, CommandResult};
use crate::engine::{
    act, advanced, answer_step, ask_step, asking, begun, check_failure, check_step, failed,
    github_step, persisted_step, project_step, rejected, replied, state_or_open, token_step,
    writing, Effect, Next, Pending, Reply, Session, Stage, DEFAULT_WORKSPACE, OUT_OF_TURN,
    SAVE_FAILED_CLOSING, SAVE_FAILED_OPENING,
};
use crate::grammar::{parse_action, parse_ask, parse_issue, Action, Ask};
use crate::ledger::{decode_token, LedgerCall, LedgerOp, LedgerReply, Platform};
use crate::model::{
    pairs_view, AsanaTask, ChatMessage, GitHubIssue, IssueStatus, MessageRole, UserIdentifier,
};
use crate::principal::Principal;
use crate::processor::{accept, settle, ProcessorFailure, ProcessorReply, ProcessorRequest};
use crate::reply::{
    dashboard_reply, format_reply, unknown_expert_reply, ASANA_TOKEN_MISSING, ASK_FORMAT_HELP,
    HELP_TEXT, ISSUE_FORMAT_HELP, NO_REPOSITORY_SELECTED, TASK_DESCRIPTION_MISSING,
    UNKNOWN_GITHUB_ACTION, UNKNOWN_PROJECT_ACTION,
};
use crate::text::{decimal_text, join, join3, owned, same};
use vstd::prelude::*;
use vstd::string::*;

verus! {

/// Ends the invocation with `text` sent to the user.
pub fn reply_with(text: String) -> (r: (Stage, Effect))
    ensures
        (r.0@, r.1@) == replied(text@),
{
    (Stage::Replied, Effect::Finish(CommandResult::Success(text)))
}

/// Ends the invocation because the request was at fault.
pub fn reject_with(text: String) -> (r: (Stage, Effect))
    ensures
        (r.0@, r.1@) == rejected(text@),
{
    (Stage::Failed, Effect::Finish(CommandResult::BadRequest(text)))
}

/// Ends the invocation because the ledger or the processor failed.
pub fn fail_with(text: String) -> (r: (Stage, Effect))
    ensures
        (r.0@, r.1@) == failed(text@),
{
    (Stage::Failed, Effect::Finish(CommandResult::InternalError(text)))
}

/// Asks the processor.
pub fn ask_processor(request: ProcessorRequest, pending: Pending) -> (r: (Stage, Effect))
    ensures
        (r.0@, r.1@) == asking(request@, pending@),
{
    (Stage::Acting(pending), Effect::Process(request))
}

/// Asks the ledger to write.
pub fn write_ledger(call: LedgerCall, wrapped: bool, next: Next) -> (r: (Stage, Effect))
    ensures
        (r.0@, r.1@) == writing(call@, wrapped, next@),
{
    let op = call.op();
    (Stage::Persisting { op, wrapped, next }, Effect::Ledger(call))
}

/// The step that follows the reading of an `ask` message.
pub fn ask_act(ask: Ask, user_id: &str) -> (r: (Stage, Effect))
    ensures
        (r.0@, r.1@) == ask_step(ask@, user_id@),
{
    match ask {
        Ask::Malformed => reply_with(owned(ASK_FORMAT_HELP)),
        Ask::UnknownExpert { named } => reply_with(unknown_expert_reply(named.as_str())),
        Ask::Question { expert, question } => {
            let request = ProcessorRequest::with2(
                join("ask_", expert.as_str()),
                "question",
                question.as_str(),
                "user_id",
                user_id,
            );
            ask_processor(request, Pending::Answer { expert, question })
        },
    }
}

/// The step that follows the reading of a `project` command.
pub fn project_act(action: Action, user_id: &str, initiator: &Principal, now: u64) -> (r: (
    Stage,
    Effect,
))
    ensures
        (r.0@, r.1@) == project_step(action@, user_id@, initiator@, now),
{
    let Action { name, params } = action;
    let empty = params.as_str().unicode_len() == 0;
    if same(name.as_str(), "connect") {
        if empty {
            reject_with(owned(ASANA_TOKEN_MISSING))
        } else {
            let projects: Vec<(String, String)> = Vec::new();
            assert(pairs_view(projects@) =~= Seq::empty());
            let call = LedgerCall::StoreAsanaConnection {
                user: UserIdentifier::OpenChatId(owned(user_id)),
                token: params.clone(),
                workspace_id: owned(DEFAULT_WORKSPACE),
                project_ids: projects,
            };
            let request = ProcessorRequest::with2(
                owned("project_connect"),
                "token",
                params.as_str(),
                "user_id",
                user_id,
            );
            write_ledger(
                call,
                false,
                Next::Process { request, pending: Pending::Enrich { token: params } },
            )
        }
    } else if same(name.as_str(), "list") {
        ask_processor(
            ProcessorRequest::with1(owned("project_list_tasks"), "user_id", user_id),
            Pending::Forward { asana: true },
        )
    } else if same(name.as_str(), "create") {
        if empty {
            reject_with(owned(TASK_DESCRIPTION_MISSING))
        } else {
            let task = AsanaTask {
                id: params.clone(),
                title: params.clone(),
                description: params.clone(),
                status: owned("active"),
                created_at: now,
                platform: owned("asana"),
                platform_id: owned("pending"),
                creator: initiator.clone(),
            };
            let call = LedgerCall::StoreAsanaTask {
                user: UserIdentifier::OpenChatId(owned(user_id)),
                task,
            };
            let request = ProcessorRequest::with2(
                owned("project_create_task"),
                "description",
                params.as_str(),
                "user_id",
                user_id,
            );
            write_ledger(
                call,
                false,
                Next::Process { request, pending: Pending::Forward { asana: true } },
            )
        }
    } else {
        reject_with(owned(UNKNOWN_PROJECT_ACTION))
    }
}

/// The state asked for where the command names none.
pub fn state_or_default(params: String) -> (r: String)
    ensures
        r@ == state_or_open(params@),
{
    if params.as_str().unicode_len() == 0 {
        owned("open")
    } else {
        params
    }
}

/// The step that follows the reading of a `github` command.
pub fn github_act(action: Action, user_id: &str) -> (r: (Stage, Effect))
    ensures
        (r.0@, r.1@) == github_step(action@, user_id@),
{
    let Action { name, params } = action;
    if same(name.as_str(), "connect") {
        let call = LedgerCall::StoreGithubConnection {
            user: UserIdentifier::OpenChatId(owned(user_id)),
            token: params.clone(),
            selected_repo: None,
        };
        let request = ProcessorRequest::with2(
            owned("github_connect"),
            "token",
            params.as_str(),
            "user_id",
            user_id,
        );
        write_ledger(
            call,
            false,
            Next::Process { request, pending: Pending::Forward { asana: false } },
        )
    } else if same(name.as_str(), "list") {
        ask_processor(
            ProcessorRequest::with1(owned("github_list_repos"), "user_id", user_id),
            Pending::Forward { asana: false },
        )
    } else if same(name.as_str(), "select") {
        let request = ProcessorRequest::with2(
            owned("github_select_repo"),
            "repo_name",
            params.as_str(),
            "user_id",
            user_id,
        );
        ask_processor(request, Pending::Validate { repo: params })
    } else if same(name.as_str(), "create") {
        match parse_issue(params.as_str()) {
            None => reply_with(owned(ISSUE_FORMAT_HELP)),
            Some(pair) => {
                let (title, body) = pair;
                ask_processor(
                    ProcessorRequest::with1(owned("github_check_repo"), "user_id", user_id),
                    Pending::CheckRepo { title, body },
                )
            },
        }
    } else if same(name.as_str(), "list_issues") {
        let state = state_or_default(params);
        ask_processor(
            ProcessorRequest::with2(
                owned("github_list_issues"),
                "state",
                state.as_str(),
                "user_id",
                user_id,
            ),
            Pending::Forward { asana: false },
        )
    } else if same(name.as_str(), "list_prs") {
        let state = state_or_default(params);
        ask_processor(
            ProcessorRequest::with2(
                owned("github_list_prs"),
                "state",
                state.as_str(),
                "user_id",
                user_id,
            ),
            Pending::Forward { asana: false },
        )
    } else if same(name.as_str(), "check_repo") {
        ask_processor(
            ProcessorRequest::with1(owned("github_check_repo"), "user_id", user_id),
            Pending::Forward { asana: false },
        )
    } else {
        reject_with(owned(UNKNOWN_GITHUB_ACTION))
    }
}

/// The step that a registered user's command takes first.
pub fn act_on(kind: CommandKind, text: &str, user_id: &str, initiator: &Principal, now: u64) -> (r:
    (Stage, Effect))
    ensures
        (r.0@, r.1@) == act(kind, text@, user_id@, initiator@, now),
{
    match kind {
        CommandKind::Ask => ask_act(parse_ask(text), user_id),
        CommandKind::Project => project_act(parse_action(text), user_id, initiator, now),
        CommandKind::GitHub => github_act(parse_action(text), user_id),
        CommandKind::Dashboard => (
            Stage::FetchingToken,
            Effect::Ledger(LedgerCall::GenerateDashboardToken { id: owned(user_id) }),
        ),
        CommandKind::Help => reply_with(owned(HELP_TEXT)),
    }
}

/// The words in which a failure of the processor is reported to a user of the
/// project commands.
pub fn asana_failure_text(failure: ProcessorFailure) -> (r: String)
    ensures
        r@ == crate::engine::asana_failure(failure@),
{
    match failure {
        ProcessorFailure::Refused(e) => join("Asana API error: ", e.as_str()),
        other => other.message(),
    }
}

/// The words in which a failure of the check for the selected repository is
/// reported.
pub fn check_failure_text(failure: ProcessorFailure) -> (r: String)
    ensures
        r@ == check_failure(failure@),
{
    match failure {
        ProcessorFailure::Unreachable(e) => join("Failed to check repository: ", e.as_str()),
        ProcessorFailure::Unreadable(e) => join(
            "Failed to parse repository check response: ",
            e.as_str(),
        ),
        other => other.message(),
    }
}

/// The step that follows the processor's word on the selected repository.
pub fn check(title: String, body: String, reply: ProcessorReply, user_id: &str, now: u64) -> (r: (
    Stage,
    Effect,
))
    ensures
        (r.0@, r.1@) == check_step(title@, body@, reply@, user_id@, now),
{
    match settle(reply) {
        Err(failure) => fail_with(check_failure_text(failure)),
        Ok(response) => {
            let selected = match response.metadata {
                Some(m) => m.selected_repo,
                None => None,
            };
            match selected {
                None => reject_with(owned(NO_REPOSITORY_SELECTED)),
                Some(repo) => {
                    let stamp = decimal_text(now);
                    let issue = GitHubIssue {
                        id: join3(repo.as_str(), "#", stamp.as_str()),
                        title: title.clone(),
                        body: body.clone(),
                        repository: repo.clone(),
                        created_at: now,
                        status: IssueStatus::Open,
                    };
                    let request = ProcessorRequest::create_issue(
                        title.as_str(),
                        body.as_str(),
                        user_id,
                        repo.as_str(),
                    );
                    write_ledger(
                        LedgerCall::StoreGithubIssue {
                            user: UserIdentifier::OpenChatId(owned(user_id)),
                            issue,
                        },
                        false,
                        Next::Process { request, pending: Pending::Forward { asana: false } },
                    )
                },
            }
        },
    }
}

/// The step that follows an answer of the processor.
pub fn answer(
    pending: Pending,
    reply: ProcessorReply,
    user_id: &str,
    initiator: &Principal,
    now: u64,
) -> (r: (Stage, Effect))
    ensures
        (r.0@, r.1@) == answer_step(pending@, reply@, user_id@, initiator@, now),
{
    match pending {
        Pending::Answer { expert, question } => match settle(reply) {
            Err(failure) => fail_with(failure.message()),
            Ok(response) => {
                let text = format_reply(response.bot_name.as_str(), response.text.as_str());
                let message = ChatMessage {
                    id: initiator.clone(),
                    role: MessageRole::Assistant,
                    content: response.text,
                    question_asked: Some(question),
                    timestamp: now,
                    bot_name: Some(expert),
                };
                write_ledger(
                    LedgerCall::StoreChatMessage {
                        user: UserIdentifier::OpenChatId(owned(user_id)),
                        message,
                    },
                    false,
                    Next::Reply(text),
                )
            },
        },
        Pending::Forward { asana } => match settle(reply) {
            Err(failure) => {
                if asana {
                    fail_with(asana_failure_text(failure))
                } else {
                    fail_with(failure.message())
                }
            },
            Ok(response) => reply_with(
                format_reply(response.bot_name.as_str(), response.text.as_str()),
            ),
        },
        Pending::Enrich { token } => match settle(reply) {
            Err(failure) => fail_with(asana_failure_text(failure)),
            Ok(response) => {
                let text = format_reply(response.bot_name.as_str(), response.text.as_str());
                let (workspace, projects) = match response.metadata {
                    Some(m) => (m.workspace_id, m.project_ids),
                    None => (None, None),
                };
                let workspace_id = match workspace {
                    Some(w) => w,
                    None => owned(DEFAULT_WORKSPACE),
                };
                let project_ids = match projects {
                    Some(p) => p,
                    None => {
                        let none: Vec<(String, String)> = Vec::new();
                        assert(pairs_view(none@) =~= Seq::empty());
                        none
                    },
                };
                write_ledger(
                    LedgerCall::StoreAsanaConnection {
                        user: UserIdentifier::OpenChatId(owned(user_id)),
                        token,
                        workspace_id,
                        project_ids,
                    },
                    true,
                    Next::Reply(text),
                )
            },
        },
        Pending::Validate { repo } => match accept(reply) {
            Err(failure) => fail_with(failure.message()),
            Ok(u) => {
                let request = ProcessorRequest::with2(
                    owned("github_select_repo"),
                    "repo_name",
                    repo.as_str(),
                    "user_id",
                    user_id,
                );
                write_ledger(
                    LedgerCall::UpdateGithubSelectedRepo {
                        user: UserIdentifier::OpenChatId(owned(user_id)),
                        repo_name: repo,
                    },
                    false,
                    Next::Process { request, pending: Pending::Forward { asana: false } },
                )
            },
        },
        Pending::CheckRepo { title, body } => check(title, body, reply, user_id, now),
    }
}

/// The step that follows the ledger's word on a write.
pub fn persisted(op: LedgerOp, wrapped: bool, next: Next, reply: &LedgerReply) -> (r: (
    Stage,
    Effect,
))
    ensures
        (r.0@, r.1@) == persisted_step(op, wrapped, next@, reply@),
{
    match BackendCanisterAgent::failure(op, reply) {
        Some(reason) => {
            if wrapped {
                fail_with(join3(SAVE_FAILED_OPENING, reason.as_str(), SAVE_FAILED_CLOSING))
            } else {
                fail_with(reason)
            }
        },
        None => match next {
            Next::Reply(text) => reply_with(text),
            Next::Process { request, pending } => ask_processor(request, pending),
        },
    }
}

/// The step that follows the ledger's answer to a request for a token.
pub fn token(reply: LedgerReply, dashboard_url: &str) -> (r: (Stage, Effect))
    ensures
        (r.0@, r.1@) == token_step(reply@, dashboard_url@),
{
    match BackendCanisterAgent::failure(LedgerOp::GenerateDashboardToken, &reply) {
        Some(reason) => fail_with(reason),
        None => match reply {
            LedgerReply::Done(bytes) => match decode_token(bytes) {
                Ok(token) => reply_with(dashboard_reply(dashboard_url, token.as_str())),
                Err(reason) => fail_with(reason),
            },
            _ => fail_with(owned(OUT_OF_TURN)),
        },
    }
}

impl Session {
    /// Opens the session of an invocation by `user_id`, the text form of
    /// `initiator`, and asks that the user be registered.
    pub fn begin(
        kind: CommandKind,
        text: String,
        user_id: String,
        initiator: Principal,
        dashboard_url: String,
    ) -> (r: (Session, Effect))
        ensures
            (r.0@, r.1@) == begun(kind, text@, user_id@, initiator@, dashboard_url@),
    {
        let call = LedgerCall::RegisterUser { platform: Platform::OpenChat, id: user_id.clone() };
        (
            Session { user_id, initiator, dashboard_url, stage: Stage::Registering { kind, text } },
            Effect::Ledger(call),
        )
    }

    /// Takes the reply to the effect that this session asked for last, `now`
    /// being the time of its arrival, and says what the session asks next.
    pub fn advance(self, reply: Reply, now: u64) -> (r: (Session, Effect))
        ensures
            (r.0@, r.1@) == advanced(self@, reply@, now),
    {
        let Session { user_id, initiator, dashboard_url, stage } = self;
        let (stage, effect) = match stage {
            Stage::Registering { kind, text } => match reply {
                Reply::Ledger(r) => match BackendCanisterAgent::failure(
                    LedgerOp::RegisterUser,
                    &r,
                ) {
                    Some(reason) => fail_with(reason),
                    None => act_on(kind, text.as_str(), user_id.as_str(), &initiator, now),
                },
                Reply::Processor(p) => fail_with(owned(OUT_OF_TURN)),
            },
            Stage::Acting(pending) => match reply {
                Reply::Processor(p) => answer(pending, p, user_id.as_str(), &initiator, now),
                Reply::Ledger(r) => fail_with(owned(OUT_OF_TURN)),
            },
            Stage::FetchingToken => match reply {
                Reply::Ledger(r) => token(r, dashboard_url.as_str()),
                Reply::Processor(p) => fail_with(owned(OUT_OF_TURN)),
            },
            Stage::Persisting { op, wrapped, next } => match reply {
                Reply::Ledger(r) => persisted(op, wrapped, next, &r),
                Reply::Processor(p) => fail_with(owned(OUT_OF_TURN)),
            },
            Stage::Replied => (
                Stage::Replied,
                Effect::Finish(CommandResult::InternalError(owned(OUT_OF_TURN))),
            ),
            Stage::Failed => fail_with(owned(OUT_OF_TURN)),
        };
        (Session { user_id, initiator, dashboard_url, stage }, effect)
    }

    /// Whether the invocation is over.
    pub fn is_over(&self) -> (r: bool)
        ensures
            r == self@.stage.is_terminal(),
    {
        match self.stage {
            Stage::Replied => true,
            Stage::Failed => true,
            _ => false,
        }
    }
}

} // verus!
