//! The workflow of one command: register the user, act, persist, reply.
//!
//! An invocation is a session that moves one step at a time. Each step hands
//! out one effect, a call to the ledger, a request to the processor or the
//! final result, and takes the reply to the effect before it. The caller
//! performs the effects; every decision is taken here.

use crate::backend::backend_prefix;
use crate::command::{CommandKind, CommandResult, CommandResultView};
use crate::grammar::{action_of, ask_of, issue_of, ActionView, AskView};
use crate::ledger::{
    token_of, LedgerCall, LedgerCallView, LedgerOp, LedgerReply, LedgerReplyView, Platform,
};
use crate::model::{
    AsanaTaskView, ChatMessageView, GitHubIssueView, IssueStatus, MessageRole, UserIdentifierView,
};
use crate::processor::{
    accepted, failure_message, issue_request, request1, request2, settled, ProcessorFailureView,
    ProcessorReply, ProcessorReplyView, ProcessorRequest, ProcessorRequestView,
    ResponseMetadataView,
};
use crate::reply::{
    dashboard_message, formatted, unknown_expert, ASANA_TOKEN_MISSING, ASK_FORMAT_HELP, HELP_TEXT,
    ISSUE_FORMAT_HELP, NO_REPOSITORY_SELECTED, TASK_DESCRIPTION_MISSING, UNKNOWN_GITHUB_ACTION,
    UNKNOWN_PROJECT_ACTION,
};
use crate::text::decimal;
use vstd::prelude::*;

verus! {

/// Reported where a reply arrives that answers nothing the session asked.
pub const OUT_OF_TURN: &'static str = "Unexpected reply: no such request is pending";

/// The workspace under which a connection is filed until the processor names
/// one.
pub const DEFAULT_WORKSPACE: &'static str = "default_workspace";

/// What opens the report of a connection that could not be saved.
pub const SAVE_FAILED_OPENING: &'static str = "Failed to save Asana connection: ";

/// What closes the report of a connection that could not be saved.
pub const SAVE_FAILED_CLOSING: &'static str =
    ". Please try again or contact support if the issue persists.";

/// What the session asks of its caller next.
#[derive(Debug, PartialEq, Eq)]
pub enum Effect {
    Ledger(LedgerCall),
    Process(ProcessorRequest),
    Finish(CommandResult),
}

/// [`Effect`] as contracts see it: texts and lists as sequences.
pub enum EffectView {
    Ledger(LedgerCallView),
    Process(ProcessorRequestView),
    Finish(CommandResultView),
}

impl View for Effect {
    type V = EffectView;

    open spec fn view(&self) -> EffectView {
        match self {
            Effect::Ledger(call) => EffectView::Ledger(call@),
            Effect::Process(request) => EffectView::Process(request@),
            Effect::Finish(result) => EffectView::Finish(result@),
        }
    }
}

/// What came back for the last effect.
#[derive(Debug, PartialEq, Eq)]
pub enum Reply {
    Ledger(LedgerReply),
    Processor(ProcessorReply),
}

/// [`Reply`] as contracts see it: texts and lists as sequences.
pub enum ReplyView {
    Ledger(LedgerReplyView),
    Processor(ProcessorReplyView),
}

impl View for Reply {
    type V = ReplyView;

    open spec fn view(&self) -> ReplyView {
        match self {
            Reply::Ledger(reply) => ReplyView::Ledger(reply@),
            Reply::Processor(reply) => ReplyView::Processor(reply@),
        }
    }
}

/// What is done with the processor's answer once it is here.
#[derive(Debug, PartialEq, Eq)]
pub enum Pending {
    /// Record the answer to a question, then send it.
    Answer { expert: String, question: String },
    /// Send the answer.
    Forward { asana: bool },
    /// Save the connection with what the processor found out about it.
    Enrich { token: String },
    /// Select the repository, now that the processor has seen it.
    Validate { repo: String },
    /// Record the issue under the repository that the processor names.
    CheckRepo { title: String, body: String },
}

/// [`Pending`] as contracts see it: texts and lists as sequences.
pub enum PendingView {
    Answer { expert: Seq<char>, question: Seq<char> },
    Forward { asana: bool },
    Enrich { token: Seq<char> },
    Validate { repo: Seq<char> },
    CheckRepo { title: Seq<char>, body: Seq<char> },
}

impl View for Pending {
    type V = PendingView;

    open spec fn view(&self) -> PendingView {
        match self {
            Pending::Answer { expert, question } => PendingView::Answer {
                expert: expert@,
                question: question@,
            },
            Pending::Forward { asana } => PendingView::Forward { asana: *asana },
            Pending::Enrich { token } => PendingView::Enrich { token: token@ },
            Pending::Validate { repo } => PendingView::Validate { repo: repo@ },
            Pending::CheckRepo { title, body } => PendingView::CheckRepo {
                title: title@,
                body: body@,
            },
        }
    }
}

/// What follows a write once the ledger has confirmed it.
#[derive(Debug, PartialEq, Eq)]
pub enum Next {
    Reply(String),
    Process { request: ProcessorRequest, pending: Pending },
}

/// [`Next`] as contracts see it: texts and lists as sequences.
pub enum NextView {
    Reply(Seq<char>),
    Process { request: ProcessorRequestView, pending: PendingView },
}

impl View for Next {
    type V = NextView;

    open spec fn view(&self) -> NextView {
        match self {
            Next::Reply(text) => NextView::Reply(text@),
            Next::Process { request, pending } => NextView::Process {
                request: request@,
                pending: pending@,
            },
        }
    }
}

/// Where an invocation stands.
#[derive(Debug, PartialEq, Eq)]
pub enum Stage {
    /// The ledger has been asked to register the user.
    Registering { kind: CommandKind, text: String },
    /// The processor has been asked.
    Acting(Pending),
    /// The ledger has been asked for a dashboard token.
    FetchingToken,
    /// The ledger has been asked to store or update a record; `wrapped` where
    /// a failure is reported as a connection that could not be saved.
    Persisting { op: LedgerOp, wrapped: bool, next: Next },
    /// The reply is out.
    Replied,
    /// The invocation has failed.
    Failed,
}

/// [`Stage`] as contracts see it: texts and lists as sequences.
pub enum StageView {
    Registering { kind: CommandKind, text: Seq<char> },
    Acting(PendingView),
    FetchingToken,
    Persisting { op: LedgerOp, wrapped: bool, next: NextView },
    Replied,
    Failed,
}

impl View for Stage {
    type V = StageView;

    open spec fn view(&self) -> StageView {
        match self {
            Stage::Registering { kind, text } => StageView::Registering { kind: *kind, text: text@ },
            Stage::Acting(pending) => StageView::Acting(pending@),
            Stage::FetchingToken => StageView::FetchingToken,
            Stage::Persisting { op, wrapped, next } => StageView::Persisting {
                op: *op,
                wrapped: *wrapped,
                next: next@,
            },
            Stage::Replied => StageView::Replied,
            Stage::Failed => StageView::Failed,
        }
    }
}

impl StageView {
    /// Whether the invocation is over.
    pub open spec fn is_terminal(self) -> bool {
        self is Replied || self is Failed
    }
}

/// One invocation under way.
#[derive(Debug, PartialEq, Eq)]
pub struct Session {
    pub user_id: String,
    pub initiator: crate::principal::Principal,
    pub dashboard_url: String,
    pub stage: Stage,
}

/// [`Session`] as contracts see it: texts and lists as sequences.
pub struct SessionView {
    pub user_id: Seq<char>,
    pub initiator: Seq<u8>,
    pub dashboard_url: Seq<char>,
    pub stage: StageView,
}

impl View for Session {
    type V = SessionView;

    open spec fn view(&self) -> SessionView {
        SessionView {
            user_id: self.user_id@,
            initiator: self.initiator@,
            dashboard_url: self.dashboard_url@,
            stage: self.stage@,
        }
    }
}

/// The invocation ends with `text` sent to the user.
pub open spec fn replied(text: Seq<char>) -> (StageView, EffectView) {
    (StageView::Replied, EffectView::Finish(CommandResultView::Success(text)))
}

/// The invocation ends because the request was at fault.
pub open spec fn rejected(text: Seq<char>) -> (StageView, EffectView) {
    (StageView::Failed, EffectView::Finish(CommandResultView::BadRequest(text)))
}

/// The invocation ends because the ledger or the processor failed.
pub open spec fn failed(text: Seq<char>) -> (StageView, EffectView) {
    (StageView::Failed, EffectView::Finish(CommandResultView::InternalError(text)))
}

/// The processor is asked, and `pending` says what its answer is for.
pub open spec fn asking(request: ProcessorRequestView, pending: PendingView) -> (
    StageView,
    EffectView,
) {
    (StageView::Acting(pending), EffectView::Process(request))
}

/// The ledger is asked to write, and `next` says what follows.
pub open spec fn writing(call: LedgerCallView, wrapped: bool, next: NextView) -> (
    StageView,
    EffectView,
) {
    (StageView::Persisting { op: call.op(), wrapped, next }, EffectView::Ledger(call))
}

/// The key under which the ledger files the user of a session.
pub open spec fn key(user_id: Seq<char>) -> UserIdentifierView {
    UserIdentifierView::OpenChatId(user_id)
}

/// The call that registers the user of a session.
pub open spec fn registration(user_id: Seq<char>) -> LedgerCallView {
    LedgerCallView::RegisterUser { platform: Platform::OpenChat, id: user_id }
}

/// The step that follows the reading of an `ask` message.
pub open spec fn ask_step(ask: AskView, user_id: Seq<char>) -> (StageView, EffectView) {
    match ask {
        AskView::Malformed => replied(ASK_FORMAT_HELP@),
        AskView::UnknownExpert { named } => replied(unknown_expert(named)),
        AskView::Question { expert, question } => asking(
            request2("ask_"@ + expert, "question"@, question, "user_id"@, user_id),
            PendingView::Answer { expert, question },
        ),
    }
}

/// The task as it is recorded before the processor has created it.
pub open spec fn pending_task(description: Seq<char>, creator: Seq<u8>, now: u64) -> AsanaTaskView {
    AsanaTaskView {
        id: description,
        title: description,
        description,
        status: "active"@,
        created_at: now,
        platform: "asana"@,
        platform_id: "pending"@,
        creator,
    }
}

/// The step that follows the reading of a `project` command.
pub open spec fn project_step(action: ActionView, user_id: Seq<char>, initiator: Seq<u8>, now: u64)
    -> (StageView, EffectView) {
    if action.name == "connect"@ {
        if action.params.len() == 0 {
            rejected(ASANA_TOKEN_MISSING@)
        } else {
            writing(
                LedgerCallView::StoreAsanaConnection {
                    user: key(user_id),
                    token: action.params,
                    workspace_id: DEFAULT_WORKSPACE@,
                    project_ids: Seq::empty(),
                },
                false,
                NextView::Process {
                    request: request2(
                        "project_connect"@,
                        "token"@,
                        action.params,
                        "user_id"@,
                        user_id,
                    ),
                    pending: PendingView::Enrich { token: action.params },
                },
            )
        }
    } else if action.name == "list"@ {
        asking(
            request1("project_list_tasks"@, "user_id"@, user_id),
            PendingView::Forward { asana: true },
        )
    } else if action.name == "create"@ {
        if action.params.len() == 0 {
            rejected(TASK_DESCRIPTION_MISSING@)
        } else {
            writing(
                LedgerCallView::StoreAsanaTask {
                    user: key(user_id),
                    task: pending_task(action.params, initiator, now),
                },
                false,
                NextView::Process {
                    request: request2(
                        "project_create_task"@,
                        "description"@,
                        action.params,
                        "user_id"@,
                        user_id,
                    ),
                    pending: PendingView::Forward { asana: true },
                },
            )
        }
    } else {
        rejected(UNKNOWN_PROJECT_ACTION@)
    }
}

/// The state asked for where the command names none.
pub open spec fn state_or_open(params: Seq<char>) -> Seq<char> {
    if params.len() == 0 {
        "open"@
    } else {
        params
    }
}

/// The step that follows the reading of a `github` command.
pub open spec fn github_step(action: ActionView, user_id: Seq<char>) -> (StageView, EffectView) {
    if action.name == "connect"@ {
        writing(
            LedgerCallView::StoreGithubConnection {
                user: key(user_id),
                token: action.params,
                selected_repo: None,
            },
            false,
            NextView::Process {
                request: request2("github_connect"@, "token"@, action.params, "user_id"@, user_id),
                pending: PendingView::Forward { asana: false },
            },
        )
    } else if action.name == "list"@ {
        asking(
            request1("github_list_repos"@, "user_id"@, user_id),
            PendingView::Forward { asana: false },
        )
    } else if action.name == "select"@ {
        asking(
            request2("github_select_repo"@, "repo_name"@, action.params, "user_id"@, user_id),
            PendingView::Validate { repo: action.params },
        )
    } else if action.name == "create"@ {
        match issue_of(action.params) {
            None => replied(ISSUE_FORMAT_HELP@),
            Some((title, body)) => asking(
                request1("github_check_repo"@, "user_id"@, user_id),
                PendingView::CheckRepo { title, body },
            ),
        }
    } else if action.name == "list_issues"@ {
        asking(
            request2(
                "github_list_issues"@,
                "state"@,
                state_or_open(action.params),
                "user_id"@,
                user_id,
            ),
            PendingView::Forward { asana: false },
        )
    } else if action.name == "list_prs"@ {
        asking(
            request2(
                "github_list_prs"@,
                "state"@,
                state_or_open(action.params),
                "user_id"@,
                user_id,
            ),
            PendingView::Forward { asana: false },
        )
    } else if action.name == "check_repo"@ {
        asking(
            request1("github_check_repo"@, "user_id"@, user_id),
            PendingView::Forward { asana: false },
        )
    } else {
        rejected(UNKNOWN_GITHUB_ACTION@)
    }
}

/// The step that a registered user's command takes first.
pub open spec fn act(
    kind: CommandKind,
    text: Seq<char>,
    user_id: Seq<char>,
    initiator: Seq<u8>,
    now: u64,
) -> (StageView, EffectView) {
    match kind {
        CommandKind::Ask => ask_step(ask_of(text), user_id),
        CommandKind::Project => project_step(action_of(text), user_id, initiator, now),
        CommandKind::GitHub => github_step(action_of(text), user_id),
        CommandKind::Dashboard => (
            StageView::FetchingToken,
            EffectView::Ledger(LedgerCallView::GenerateDashboardToken { id: user_id }),
        ),
        CommandKind::Help => replied(HELP_TEXT@),
    }
}

/// The words in which a failure of the processor is reported to a user of the
/// project commands.
pub open spec fn asana_failure(failure: ProcessorFailureView) -> Seq<char> {
    match failure {
        ProcessorFailureView::Refused(e) => "Asana API error: "@ + e,
        _ => failure_message(failure),
    }
}

/// The workspace that the processor names, or the default.
pub open spec fn workspace_of(metadata: Option<ResponseMetadataView>) -> Seq<char> {
    match metadata {
        Some(m) => match m.workspace_id {
            Some(w) => w,
            None => DEFAULT_WORKSPACE@,
        },
        None => DEFAULT_WORKSPACE@,
    }
}

/// The projects that the processor names, or none.
pub open spec fn projects_of(metadata: Option<ResponseMetadataView>) -> Seq<(Seq<char>, Seq<char>)> {
    match metadata {
        Some(m) => match m.project_ids {
            Some(p) => p,
            None => Seq::empty(),
        },
        None => Seq::empty(),
    }
}

/// The repository that the processor names as selected, if any.
pub open spec fn selected_repo_of(metadata: Option<ResponseMetadataView>) -> Option<Seq<char>> {
    match metadata {
        Some(m) => m.selected_repo,
        None => None,
    }
}

/// The issue as it is recorded before the processor has created it.
pub open spec fn new_issue(title: Seq<char>, body: Seq<char>, repo: Seq<char>, now: u64)
    -> GitHubIssueView {
    GitHubIssueView {
        id: repo + "#"@ + decimal(now as nat),
        title,
        body,
        repository: repo,
        created_at: now,
        status: IssueStatus::Open,
    }
}

/// The message that records the answer to a question.
pub open spec fn answer_message(
    initiator: Seq<u8>,
    expert: Seq<char>,
    question: Seq<char>,
    text: Seq<char>,
    now: u64,
) -> ChatMessageView {
    ChatMessageView {
        id: initiator,
        role: MessageRole::Assistant,
        content: text,
        question_asked: Some(question),
        timestamp: now,
        bot_name: Some(expert),
    }
}

/// The words in which a failure of the check for the selected repository is
/// reported: under the check's own headings where the processor could not be
/// reached or its answer not read, else as any failure of the processor.
pub open spec fn check_failure(failure: ProcessorFailureView) -> Seq<char> {
    match failure {
        ProcessorFailureView::Unreachable(e) => "Failed to check repository: "@ + e,
        ProcessorFailureView::Unreadable(e) => "Failed to parse repository check response: "@ + e,
        _ => failure_message(failure),
    }
}

/// The step that follows the processor's word on the selected repository.
/// Only an answer that the processor gave with success names a repository.
pub open spec fn check_step(
    title: Seq<char>,
    body: Seq<char>,
    reply: ProcessorReplyView,
    user_id: Seq<char>,
    now: u64,
) -> (StageView, EffectView) {
    match settled(reply) {
        Err(failure) => failed(check_failure(failure)),
        Ok(response) => match selected_repo_of(response.metadata) {
            None => rejected(NO_REPOSITORY_SELECTED@),
            Some(repo) => writing(
                LedgerCallView::StoreGithubIssue {
                    user: key(user_id),
                    issue: new_issue(title, body, repo, now),
                },
                false,
                NextView::Process {
                    request: issue_request(title, body, user_id, repo),
                    pending: PendingView::Forward { asana: false },
                },
            ),
        },
    }
}

/// The step that follows an answer of the processor.
pub open spec fn answer_step(
    pending: PendingView,
    reply: ProcessorReplyView,
    user_id: Seq<char>,
    initiator: Seq<u8>,
    now: u64,
) -> (StageView, EffectView) {
    match pending {
        PendingView::Answer { expert, question } => match settled(reply) {
            Err(failure) => failed(failure_message(failure)),
            Ok(response) => writing(
                LedgerCallView::StoreChatMessage {
                    user: key(user_id),
                    message: answer_message(initiator, expert, question, response.text, now),
                },
                false,
                NextView::Reply(formatted(response.bot_name, response.text)),
            ),
        },
        PendingView::Forward { asana } => match settled(reply) {
            Err(failure) => failed(
                if asana {
                    asana_failure(failure)
                } else {
                    failure_message(failure)
                },
            ),
            Ok(response) => replied(formatted(response.bot_name, response.text)),
        },
        PendingView::Enrich { token } => match settled(reply) {
            Err(failure) => failed(asana_failure(failure)),
            Ok(response) => writing(
                LedgerCallView::StoreAsanaConnection {
                    user: key(user_id),
                    token,
                    workspace_id: workspace_of(response.metadata),
                    project_ids: projects_of(response.metadata),
                },
                true,
                NextView::Reply(formatted(response.bot_name, response.text)),
            ),
        },
        PendingView::Validate { repo } => match accepted(reply) {
            Err(failure) => failed(failure_message(failure)),
            Ok(u) => writing(
                LedgerCallView::UpdateGithubSelectedRepo { user: key(user_id), repo_name: repo },
                false,
                NextView::Process {
                    request: request2("github_select_repo"@, "repo_name"@, repo, "user_id"@, user_id),
                    pending: PendingView::Forward { asana: false },
                },
            ),
        },
        PendingView::CheckRepo { title, body } => check_step(title, body, reply, user_id, now),
    }
}

/// The step that follows the ledger's word on a write.
pub open spec fn persisted_step(op: LedgerOp, wrapped: bool, next: NextView, reply: LedgerReplyView)
    -> (StageView, EffectView) {
    match reply.failure(backend_prefix(op)) {
        Some(reason) => failed(
            if wrapped {
                SAVE_FAILED_OPENING@ + reason + SAVE_FAILED_CLOSING@
            } else {
                reason
            },
        ),
        None => match next {
            NextView::Reply(text) => replied(text),
            NextView::Process { request, pending } => asking(request, pending),
        },
    }
}

/// The step that follows the ledger's answer to a request for a token.
pub open spec fn token_step(reply: LedgerReplyView, dashboard_url: Seq<char>) -> (
    StageView,
    EffectView,
) {
    match reply.failure(backend_prefix(LedgerOp::GenerateDashboardToken)) {
        Some(reason) => failed(reason),
        None => match reply {
            LedgerReplyView::Done(bytes) => match token_of(bytes) {
                Ok(token) => replied(dashboard_message(dashboard_url, token)),
                Err(reason) => failed(reason),
            },
            _ => failed(OUT_OF_TURN@),
        },
    }
}

/// The step that a session takes on a reply.
pub open spec fn step(session: SessionView, reply: ReplyView, now: u64) -> (StageView, EffectView) {
    match session.stage {
        StageView::Registering { kind, text } => match reply {
            ReplyView::Ledger(r) => match r.failure(backend_prefix(LedgerOp::RegisterUser)) {
                Some(reason) => failed(reason),
                None => act(kind, text, session.user_id, session.initiator, now),
            },
            ReplyView::Processor(p) => failed(OUT_OF_TURN@),
        },
        StageView::Acting(pending) => match reply {
            ReplyView::Processor(p) => answer_step(
                pending,
                p,
                session.user_id,
                session.initiator,
                now,
            ),
            ReplyView::Ledger(r) => failed(OUT_OF_TURN@),
        },
        StageView::FetchingToken => match reply {
            ReplyView::Ledger(r) => token_step(r, session.dashboard_url),
            ReplyView::Processor(p) => failed(OUT_OF_TURN@),
        },
        StageView::Persisting { op, wrapped, next } => match reply {
            ReplyView::Ledger(r) => persisted_step(op, wrapped, next, r),
            ReplyView::Processor(p) => failed(OUT_OF_TURN@),
        },
        StageView::Replied => (
            StageView::Replied,
            EffectView::Finish(CommandResultView::InternalError(OUT_OF_TURN@)),
        ),
        StageView::Failed => failed(OUT_OF_TURN@),
    }
}

/// The session after a reply, and what it asks next.
pub open spec fn advanced(session: SessionView, reply: ReplyView, now: u64) -> (
    SessionView,
    EffectView,
) {
    let (stage, effect) = step(session, reply, now);
    (SessionView { stage, ..session }, effect)
}

/// The session of a new invocation, and what it asks first: that the user be
/// registered.
pub open spec fn begun(
    kind: CommandKind,
    text: Seq<char>,
    user_id: Seq<char>,
    initiator: Seq<u8>,
    dashboard_url: Seq<char>,
) -> (SessionView, EffectView) {
    (
        SessionView {
            user_id,
            initiator,
            dashboard_url,
            stage: StageView::Registering { kind, text },
        },
        EffectView::Ledger(registration(user_id)),
    )
}

} // verus!
