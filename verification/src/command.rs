//! Commands as they arrive and results as they leave.

use crate::model::pairs_view;
use crate::principal::Principal;
use crate::text::same;
use vstd::prelude::*;
use vstd::string::*;

verus! {

/// The commands that the gateway serves.
#[derive(Clone, Copy, Debug, PartialEq, Eq, Structural)]
pub enum CommandKind {
    Ask,
    Project,
    GitHub,
    Dashboard,
    Help,
}

/// The command that goes by `name`, if any. Names are matched exactly.
pub open spec fn kind_named(name: Seq<char>) -> Option<CommandKind> {
    if name == "ask"@ {
        Some(CommandKind::Ask)
    } else if name == "project"@ {
        Some(CommandKind::Project)
    } else if name == "github"@ {
        Some(CommandKind::GitHub)
    } else if name == "dashboard"@ {
        Some(CommandKind::Dashboard)
    } else if name == "help"@ {
        Some(CommandKind::Help)
    } else {
        None
    }
}

impl CommandKind {
    /// The command that goes by `name`, if any.
    pub fn named(name: &str) -> (r: Option<CommandKind>)
        ensures
            r == kind_named(name@),
    {
        if same(name, "ask") {
            Some(CommandKind::Ask)
        } else if same(name, "project") {
            Some(CommandKind::Project)
        } else if same(name, "github") {
            Some(CommandKind::GitHub)
        } else if same(name, "dashboard") {
            Some(CommandKind::Dashboard)
        } else if same(name, "help") {
            Some(CommandKind::Help)
        } else {
            None
        }
    }

    /// The name of the argument that carries this command's text, if it takes
    /// one.
    pub open spec fn argument_name(self) -> Option<Seq<char>> {
        match self {
            CommandKind::Ask => Some("message"@),
            CommandKind::Project => Some("command"@),
            CommandKind::GitHub => Some("command"@),
            CommandKind::Dashboard => None,
            CommandKind::Help => None,
        }
    }
}

/// The value of the first argument called `name`; empty where there is none.
pub open spec fn argument(args: Seq<(Seq<char>, Seq<char>)>, name: Seq<char>) -> Seq<char>
    decreases args.len(),
{
    if args.len() == 0 {
        Seq::empty()
    } else if args[0].0 == name {
        args[0].1
    } else {
        argument(args.drop_first(), name)
    }
}

/// The text that a command of this kind works on.
pub open spec fn command_text(kind: CommandKind, args: Seq<(Seq<char>, Seq<char>)>) -> Seq<char> {
    match kind.argument_name() {
        Some(name) => argument(args, name),
        None => Seq::empty(),
    }
}

/// One authenticated request to run a command.
#[derive(Debug, PartialEq, Eq)]
pub struct CommandInvocation {
    pub command: String,
    pub args: Vec<(String, String)>,
    pub initiator: Principal,
}

/// [`CommandInvocation`] as contracts see it: texts and lists as sequences.
pub struct CommandInvocationView {
    pub command: Seq<char>,
    pub args: Seq<(Seq<char>, Seq<char>)>,
    pub initiator: Seq<u8>,
}

impl View for CommandInvocation {
    type V = CommandInvocationView;

    open spec fn view(&self) -> CommandInvocationView {
        CommandInvocationView {
            command: self.command@,
            args: pairs_view(self.args@),
            initiator: self.initiator@,
        }
    }
}

impl CommandInvocation {
    /// The value of the first argument called `name`; empty where there is
    /// none.
    pub fn arg(&self, name: &str) -> (r: String)
        ensures
            r@ == argument(self@.args, name@),
    {
        let ghost all = pairs_view(self.args@);
        let mut i: usize = 0;
        assert(all.subrange(0, all.len() as int) =~= all);
        while i < self.args.len()
            invariant
                i <= self.args.len(),
                all == pairs_view(self.args@),
                argument(all, name@) == argument(all.subrange(i as int, all.len() as int), name@),
            decreases self.args.len() - i,
        {
            let ghost rest = all.subrange(i as int, all.len() as int);
            assert(rest[0] == all[i as int]);
            assert(rest.drop_first() =~= all.subrange(i + 1, all.len() as int));
            if same(self.args[i].0.as_str(), name) {
                return self.args[i].1.clone();
            }
            i += 1;
        }
        String::new()
    }

    /// The text that a command of this kind works on.
    pub fn text_for(&self, kind: CommandKind) -> (r: String)
        ensures
            r@ == command_text(kind, self@.args),
    {
        match kind {
            CommandKind::Ask => self.arg("message"),
            CommandKind::Project => self.arg("command"),
            CommandKind::GitHub => self.arg("command"),
            CommandKind::Dashboard => String::new(),
            CommandKind::Help => String::new(),
        }
    }
}

/// How an invocation ended.
#[derive(Debug, PartialEq, Eq)]
pub enum CommandResult {
    /// The reply that goes to the user.
    Success(String),
    /// The request was at fault; the text says how.
    BadRequest(String),
    /// The ledger or the processor failed; the text says how.
    InternalError(String),
    TooManyRequests,
}

/// [`CommandResult`] as contracts see it: texts and lists as sequences.
pub enum CommandResultView {
    Success(Seq<char>),
    BadRequest(Seq<char>),
    InternalError(Seq<char>),
    TooManyRequests,
}

impl View for CommandResult {
    type V = CommandResultView;

    open spec fn view(&self) -> CommandResultView {
        match self {
            CommandResult::Success(t) => CommandResultView::Success(t@),
            CommandResult::BadRequest(t) => CommandResultView::BadRequest(t@),
            CommandResult::InternalError(t) => CommandResultView::InternalError(t@),
            CommandResult::TooManyRequests => CommandResultView::TooManyRequests,
        }
    }
}

impl CommandResultView {
    /// The HTTP status under which the result leaves.
    pub open spec fn status(self) -> u16 {
        match self {
            CommandResultView::Success(t) => 200,
            CommandResultView::BadRequest(t) => 400,
            CommandResultView::InternalError(t) => 500,
            CommandResultView::TooManyRequests => 429,
        }
    }

    /// The body with which the result leaves.
    pub open spec fn body(self) -> Seq<char> {
        match self {
            CommandResultView::Success(t) => t,
            CommandResultView::BadRequest(t) => t,
            CommandResultView::InternalError(t) => t,
            CommandResultView::TooManyRequests => Seq::empty(),
        }
    }
}

impl CommandResult {
    /// The HTTP status under which this result leaves.
    pub fn status(&self) -> (r: u16)
        ensures
            r == self@.status(),
    {
        match self {
            CommandResult::Success(t) => 200,
            CommandResult::BadRequest(t) => 400,
            CommandResult::InternalError(t) => 500,
            CommandResult::TooManyRequests => 429,
        }
    }

    /// The body with which this result leaves.
    pub fn body(&self) -> (r: String)
        ensures
            r@ == self@.body(),
    {
        match self {
            CommandResult::Success(t) => t.clone(),
            CommandResult::BadRequest(t) => t.clone(),
            CommandResult::InternalError(t) => t.clone(),
            CommandResult::TooManyRequests => String::new(),
        }
    }
}

} // verus!
