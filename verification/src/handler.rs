//! Command handlers and their registry: which handler serves a command, and
//! how an invocation starts.

use crate::backend::BackendCanisterAgent;
use crate::command::{
    command_text, kind_named, CommandInvocation, CommandInvocationView, CommandKind,
    CommandResult, CommandResultView,
};
use crate::definition::{
    definition_for, definition_of, definitions_view, BotDefinition, CommandDefinition,
    BOT_DESCRIPTION,
};
use crate::engine::{begun, Effect, EffectView, Session, SessionView, Stage, StageView};
use crate::ledger::{LedgerCall, LedgerCallView, Platform};
use crate::principal::{principal_text, Principal};
use crate::reply::UNKNOWN_COMMAND;
use crate::text::{join, owned, same};
use vstd::prelude::*;
use vstd::string::*;

verus! {

/// The path of the processor's one endpoint.
pub const PROCESS_COMMAND_PATH: &'static str = "/api/process_command";

/// The handler of one command: its definition and where its collaborators
/// are found.
#[derive(Debug, PartialEq, Eq)]
pub struct BotCommandHandler {
    definition: CommandDefinition,
    command_name: String,
    python_api_url: String,
    dashboard_url: String,
    backend_canister_agent: BackendCanisterAgent,
}

/// [`BotCommandHandler`] as contracts see it: texts and lists as sequences.
pub struct BotCommandHandlerView {
    pub command_name: Seq<char>,
    pub python_api_url: Seq<char>,
    pub dashboard_url: Seq<char>,
    pub canister_id: Seq<char>,
}

impl View for BotCommandHandler {
    type V = BotCommandHandlerView;

    closed spec fn view(&self) -> BotCommandHandlerView {
        BotCommandHandlerView {
            command_name: self.command_name@,
            python_api_url: self.python_api_url@,
            dashboard_url: self.dashboard_url@,
            canister_id: self.backend_canister_agent.canister_id@,
        }
    }
}

/// An invocation that no handler serves ends at once, with nothing asked of
/// the ledger or the processor.
pub open spec fn turned_away(invocation: CommandInvocationView) -> (SessionView, EffectView) {
    (
        SessionView {
            user_id: principal_text(invocation.initiator),
            initiator: invocation.initiator,
            dashboard_url: Seq::empty(),
            stage: StageView::Failed,
        },
        EffectView::Finish(CommandResultView::BadRequest(UNKNOWN_COMMAND@)),
    )
}

/// How the handler of `command_name` starts on an invocation by the user
/// whose principal reads `user_id`.
pub open spec fn started(
    command_name: Seq<char>,
    invocation: CommandInvocationView,
    user_id: Seq<char>,
    dashboard_url: Seq<char>,
) -> (SessionView, EffectView) {
    match kind_named(command_name) {
        Some(kind) => begun(
            kind,
            command_text(kind, invocation.args),
            user_id,
            invocation.initiator,
            dashboard_url,
        ),
        None => (
            SessionView {
                user_id,
                initiator: invocation.initiator,
                dashboard_url: Seq::empty(),
                stage: StageView::Failed,
            },
            EffectView::Finish(CommandResultView::BadRequest(UNKNOWN_COMMAND@)),
        ),
    }
}

/// How the handler of `command_name` starts on an invocation: the user is
/// known to the ledger and the processor by the text of their principal.
pub open spec fn executed(
    command_name: Seq<char>,
    invocation: CommandInvocationView,
    dashboard_url: Seq<char>,
) -> (SessionView, EffectView) {
    started(command_name, invocation, principal_text(invocation.initiator), dashboard_url)
}

/// Starts the handler of `command_name` on an invocation by the user whose
/// principal reads `user_id`.
pub fn start(
    command_name: &str,
    invocation: CommandInvocation,
    user_id: String,
    dashboard_url: &str,
) -> (r: (Session, Effect))
    ensures
        (r.0@, r.1@) == started(command_name@, invocation@, user_id@, dashboard_url@),
{
    match CommandKind::named(command_name) {
        Some(kind) => {
            let text = invocation.text_for(kind);
            Session::begin(kind, text, user_id, invocation.initiator, owned(dashboard_url))
        },
        None => (
            Session {
                user_id,
                initiator: invocation.initiator,
                dashboard_url: String::new(),
                stage: Stage::Failed,
            },
            Effect::Finish(CommandResult::BadRequest(owned(UNKNOWN_COMMAND))),
        ),
    }
}

impl BotCommandHandler {
    #[verifier::type_invariant]
    spec fn defined(&self) -> bool {
        self.definition@ == definition_of(self.command_name@)
    }

    /// The handler of the command `command_name`, which finds the processor
    /// at `python_api_url`, the dashboard at `dashboard_url` and the ledger
    /// through `backend_canister_agent`.
    pub fn new(
        command_name: String,
        python_api_url: String,
        dashboard_url: String,
        backend_canister_agent: BackendCanisterAgent,
    ) -> (r: Self)
        ensures
            r@ == (BotCommandHandlerView {
                command_name: command_name@,
                python_api_url: python_api_url@,
                dashboard_url: dashboard_url@,
                canister_id: backend_canister_agent.canister_id@,
            }),
    {
        let definition = definition_for(command_name.as_str());
        BotCommandHandler {
            definition,
            command_name,
            python_api_url,
            dashboard_url,
            backend_canister_agent,
        }
    }

    /// The name of the command that this handler serves.
    pub fn command_name(&self) -> (r: &str)
        ensures
            r@ == self@.command_name,
    {
        self.command_name.as_str()
    }

    /// The definition of the command that this handler serves.
    pub fn definition(&self) -> (r: &CommandDefinition)
        ensures
            r@ == definition_of(self@.command_name),
    {
        proof {
            use_type_invariant(self);
        }
        &self.definition
    }

    /// The ledger client of this handler.
    pub fn backend(&self) -> (r: &BackendCanisterAgent)
        ensures
            r.canister_id@ == self@.canister_id,
    {
        &self.backend_canister_agent
    }

    /// The address to which this handler's requests to the processor go.
    pub fn endpoint(&self) -> (r: String)
        ensures
            r@ == self@.python_api_url + PROCESS_COMMAND_PATH@,
    {
        join(self.python_api_url.as_str(), PROCESS_COMMAND_PATH)
    }

    /// The call that registers the user who invoked the command.
    pub fn ensure_user_registered(&self, initiator: &Principal) -> (r: LedgerCall)
        ensures
            r@ == (LedgerCallView::RegisterUser {
                platform: Platform::OpenChat,
                id: principal_text(initiator@),
            }),
    {
        self.backend_canister_agent.ensure_user_registered(initiator.to_text())
    }

    /// Starts on an invocation: the session, and the first thing it asks
    /// for, which is the registration of the user.
    pub fn execute(&self, invocation: CommandInvocation) -> (r: (Session, Effect))
        ensures
            (r.0@, r.1@) == executed(self@.command_name, invocation@, self@.dashboard_url),
    {
        let user_id = invocation.initiator.to_text();
        start(self.command_name.as_str(), invocation, user_id, self.dashboard_url.as_str())
    }
}

/// The index of the first handler at or after `from` that serves `name`.
pub open spec fn first_named(handlers: Seq<BotCommandHandlerView>, name: Seq<char>, from: int)
    -> Option<int>
    decreases handlers.len() - from,
{
    if from < 0 || from >= handlers.len() {
        None
    } else if handlers[from].command_name == name {
        Some(from)
    } else {
        first_named(handlers, name, from + 1)
    }
}

/// How a registry of `handlers` starts on an invocation: the first handler
/// that goes by the exact name of the command serves it; where there is
/// none, the invocation is turned away.
pub open spec fn dispatched(handlers: Seq<BotCommandHandlerView>, invocation: CommandInvocationView)
    -> (SessionView, EffectView) {
    match first_named(handlers, invocation.command, 0) {
        Some(i) => executed(handlers[i].command_name, invocation, handlers[i].dashboard_url),
        None => turned_away(invocation),
    }
}

/// The handlers of the gateway, in the order of their registration.
#[derive(Debug, PartialEq, Eq)]
pub struct CommandRegistry {
    handlers: Vec<BotCommandHandler>,
}

impl View for CommandRegistry {
    type V = Seq<BotCommandHandlerView>;

    closed spec fn view(&self) -> Seq<BotCommandHandlerView> {
        Seq::new(self.handlers@.len(), |i: int| self.handlers@[i]@)
    }
}

impl CommandRegistry {
    /// A registry without handlers.
    pub fn new() -> (r: Self)
        ensures
            r@ == Seq::<BotCommandHandlerView>::empty(),
    {
        let r = CommandRegistry { handlers: Vec::new() };
        assert(r@ =~= Seq::<BotCommandHandlerView>::empty());
        r
    }

    /// The registry with `handler` added after the others.
    pub fn register(self, handler: BotCommandHandler) -> (r: Self)
        ensures
            r@ == self@.push(handler@),
    {
        let mut handlers = self.handlers;
        handlers.push(handler);
        let r = CommandRegistry { handlers };
        assert(r@ =~= self@.push(handler@));
        r
    }

    /// The number of handlers.
    pub fn len(&self) -> (r: usize)
        ensures
            r == self@.len(),
    {
        self.handlers.len()
    }

    /// The index of the first handler that serves `name`.
    pub fn find(&self, name: &str) -> (r: Option<usize>)
        ensures
            r is Some <==> first_named(self@, name@, 0) is Some,
            r matches Some(i) ==> first_named(self@, name@, 0) == Some(i as int) && i < self@.len(),
    {
        let mut i: usize = 0;
        while i < self.handlers.len()
            invariant
                i <= self.handlers.len(),
                self@.len() == self.handlers.len(),
                first_named(self@, name@, 0) == first_named(self@, name@, i as int),
            decreases self.handlers.len() - i,
        {
            assert(self@[i as int] == self.handlers@[i as int]@);
            if same(self.handlers[i].command_name(), name) {
                return Some(i);
            }
            i += 1;
        }
        None
    }

    /// The definitions of all handlers, in the order of their registration.
    pub fn definitions(&self) -> (r: Vec<CommandDefinition>)
        ensures
            definitions_view(r@) == Seq::new(
                self@.len(),
                |i: int| definition_of(self@[i].command_name),
            ),
    {
        let mut out: Vec<CommandDefinition> = Vec::new();
        let mut i: usize = 0;
        while i < self.handlers.len()
            invariant
                i <= self.handlers.len(),
                self@.len() == self.handlers.len(),
                out@.len() == i,
                forall|k: int| 0 <= k < i ==> (#[trigger] out@[k])@ == definition_of(
                    self@[k].command_name,
                ),
            decreases self.handlers.len() - i,
        {
            assert(self@[i as int] == self.handlers@[i as int]@);
            out.push(definition_for(self.handlers[i].command_name()));
            i += 1;
        }
        assert(definitions_view(out@) =~= Seq::new(
            self@.len(),
            |i: int| definition_of(self@[i].command_name),
        ));
        out
    }

    /// The document that the platform fetches.
    pub fn bot_definition(&self) -> (r: BotDefinition)
        ensures
            r.description@ == BOT_DESCRIPTION@,
            definitions_view(r.commands@) == Seq::new(
                self@.len(),
                |i: int| definition_of(self@[i].command_name),
            ),
    {
        BotDefinition { description: owned(BOT_DESCRIPTION), commands: self.definitions() }
    }

    /// Starts on an invocation with the handler that serves its command.
    pub fn execute(&self, invocation: CommandInvocation) -> (r: (Session, Effect))
        ensures
            (r.0@, r.1@) == dispatched(self@, invocation@),
    {
        match self.find(invocation.command.as_str()) {
            Some(i) => {
                assert(self@[i as int] == self.handlers@[i as int]@);
                self.handlers[i].execute(invocation)
            },
            None => {
                let user_id = invocation.initiator.to_text();
                (
                    Session {
                        user_id,
                        initiator: invocation.initiator,
                        dashboard_url: String::new(),
                        stage: Stage::Failed,
                    },
                    Effect::Finish(CommandResult::BadRequest(owned(UNKNOWN_COMMAND))),
                )
            },
        }
    }
}

} // verus!
