//! What the gateway tells the chat platform about its commands: for each
//! command its name, its description and the schema of its parameters.

use crate::text::{join, join3, lowercase, owned, same};
use vstd::prelude::*;
use vstd::string::*;

verus! {

/// What the platform shows of the gateway as a whole.
pub const BOT_DESCRIPTION: &'static str =
    "The Genius AI Co-Founder—get expert advice and manage tasks directly in OpenChat";

/// The description of the text that a `project` command takes.
pub const PROJECT_ACTIONS: &'static str = "\
    Available Actions:\n\
    • connect [token] - Connect your Asana account\n\
    • list - View your tasks\n\
    • create [description] - Create a new task\n\
    \n\
    Example: create Build landing page";

/// The description of the text that a `github` command takes.
pub const GITHUB_ACTIONS: &'static str = "\
    Available commands:\n\
    • connect <token> - Connect your GitHub account\n\
    • list - List your repositories\n\
    • select <owner/repo> - Select a repository to work with\n\
    • create Issue title -- Description - Create a new issue\n\
    • list_issues [open/closed] - List repository issues\n\
    • list_prs [open/closed] - List pull requests\n\
    • check_repo - Check the currently connected repository";

/// One text parameter of a command, with the bounds on its length in
/// characters and whether it may span several lines.
#[derive(Debug, PartialEq, Eq)]
pub struct CommandParam {
    pub name: String,
    pub description: String,
    pub placeholder: String,
    pub required: bool,
    pub min_length: u16,
    pub max_length: u16,
    pub multi_line: bool,
}

/// [`CommandParam`] as contracts see it: texts and lists as sequences.
pub struct CommandParamView {
    pub name: Seq<char>,
    pub description: Seq<char>,
    pub placeholder: Seq<char>,
    pub required: bool,
    pub min_length: u16,
    pub max_length: u16,
    pub multi_line: bool,
}

impl View for CommandParam {
    type V = CommandParamView;

    open spec fn view(&self) -> CommandParamView {
        CommandParamView {
            name: self.name@,
            description: self.description@,
            placeholder: self.placeholder@,
            required: self.required,
            min_length: self.min_length,
            max_length: self.max_length,
            multi_line: self.multi_line,
        }
    }
}

/// The view of a list of parameters.
pub open spec fn params_view(params: Seq<CommandParam>) -> Seq<CommandParamView> {
    Seq::new(params.len(), |i: int| params[i]@)
}

/// One command as the platform lists it.
#[derive(Debug, PartialEq, Eq)]
pub struct CommandDefinition {
    pub name: String,
    pub description: String,
    pub placeholder: String,
    pub params: Vec<CommandParam>,
    pub direct_messages: bool,
}

/// [`CommandDefinition`] as contracts see it: texts and lists as sequences.
pub struct CommandDefinitionView {
    pub name: Seq<char>,
    pub description: Seq<char>,
    pub placeholder: Seq<char>,
    pub params: Seq<CommandParamView>,
    pub direct_messages: bool,
}

impl View for CommandDefinition {
    type V = CommandDefinitionView;

    open spec fn view(&self) -> CommandDefinitionView {
        CommandDefinitionView {
            name: self.name@,
            description: self.description@,
            placeholder: self.placeholder@,
            params: params_view(self.params@),
            direct_messages: self.direct_messages,
        }
    }
}

/// The view of a list of definitions.
pub open spec fn definitions_view(definitions: Seq<CommandDefinition>) -> Seq<
    CommandDefinitionView,
> {
    Seq::new(definitions.len(), |i: int| definitions[i]@)
}

/// The document that the platform fetches: the gateway's description and its
/// commands.
#[derive(Debug, PartialEq, Eq)]
pub struct BotDefinition {
    pub description: String,
    pub commands: Vec<CommandDefinition>,
}

/// A required text parameter of at least one character.
pub open spec fn text_param(
    name: Seq<char>,
    description: Seq<char>,
    placeholder: Seq<char>,
    max_length: u16,
    multi_line: bool,
) -> CommandParamView {
    CommandParamView {
        name,
        description,
        placeholder,
        required: true,
        min_length: 1,
        max_length,
        multi_line,
    }
}

/// A command that is not offered in direct messages.
pub open spec fn listed(
    name: Seq<char>,
    description: Seq<char>,
    placeholder: Seq<char>,
    params: Seq<CommandParamView>,
) -> CommandDefinitionView {
    CommandDefinitionView { name, description, placeholder, params, direct_messages: false }
}

/// The definition of the command that goes by `name`. A name that the
/// gateway does not serve is listed as an unknown command without
/// parameters.
pub open spec fn definition_of(name: Seq<char>) -> CommandDefinitionView {
    if name == "ask"@ {
        listed(
            name,
            "Ask an AI expert for help: Benny, Felix, or Sheila"@,
            "Asking expert..."@,
            seq![
                text_param(
                    "message"@,
                    "Format: [Expert Name] - [Your Question]"@,
                    "e.g., Benny - How do I validate my startup idea?"@,
                    10000,
                    true,
                ),
            ],
        )
    } else if name == "project"@ {
        listed(
            name,
            "Manage your Asana projects and tasks"@,
            "Processing your request..."@,
            seq![text_param("command"@, PROJECT_ACTIONS@, "[action] [parameters]"@, 10000, true)],
        )
    } else if name == "help"@ {
        listed(name, "Get help and list of available commands"@, "Processing..."@, Seq::empty())
    } else if name == "github"@ {
        listed(
            name,
            "Manage GitHub repositories and issues"@,
            "Processing your request..."@,
            seq![text_param("command"@, GITHUB_ACTIONS@, "[command] [parameters]"@, 10000, true)],
        )
    } else if name == "dashboard"@ {
        listed(
            name,
            "Log into your dashboard to see your activity"@,
            "Fetching token..."@,
            Seq::empty(),
        )
    } else {
        listed(name, "Unknown command"@, "Unknown command"@, Seq::empty())
    }
}

/// The definition of the command that asks the bot `bot_name`, whose name in
/// lowercase is `lowered` and whose role is `role`.
pub open spec fn bot_definition_of(bot_name: Seq<char>, lowered: Seq<char>, role: Seq<char>)
    -> CommandDefinitionView {
    listed(
        "ask_"@ + lowered,
        "Ask "@ + bot_name + " ("@ + role + ")"@,
        "Asking "@ + bot_name + "..."@,
        seq![
            text_param(
                "question"@,
                "The question to ask "@ + bot_name,
                "Your question"@,
                10000,
                true,
            ),
        ],
    )
}

/// The definitions of the three project commands.
pub open spec fn project_definitions() -> Seq<CommandDefinitionView> {
    seq![
        listed(
            "project_connect"@,
            "Connect your Asana account"@,
            "Connecting to Asana..."@,
            seq![
                text_param(
                    "token"@,
                    "Your Asana Personal Access Token"@,
                    "Paste your token here"@,
                    1000,
                    false,
                ),
            ],
        ),
        listed(
            "project_create_task"@,
            "Create a new task in Asana"@,
            "Creating task..."@,
            seq![
                text_param(
                    "description"@,
                    "Description of the task"@,
                    "What needs to be done?"@,
                    10000,
                    true,
                ),
            ],
        ),
        listed("project_list_tasks"@, "List your Asana tasks"@, "Fetching tasks..."@, Seq::empty()),
    ]
}

/// A required text parameter of at least one character.
pub fn make_text_param(
    name: &str,
    description: String,
    placeholder: &str,
    max_length: u16,
    multi_line: bool,
) -> (r: CommandParam)
    ensures
        r@ == text_param(name@, description@, placeholder@, max_length, multi_line),
{
    CommandParam {
        name: owned(name),
        description,
        placeholder: owned(placeholder),
        required: true,
        min_length: 1,
        max_length,
        multi_line,
    }
}

/// A command without parameters that is not offered in direct messages.
pub fn list_bare(name: String, description: &str, placeholder: &str) -> (r: CommandDefinition)
    ensures
        r@ == listed(name@, description@, placeholder@, Seq::empty()),
{
    let params: Vec<CommandParam> = Vec::new();
    assert(params_view(params@) =~= Seq::empty());
    CommandDefinition {
        name,
        description: owned(description),
        placeholder: owned(placeholder),
        params,
        direct_messages: false,
    }
}

/// A command with one parameter that is not offered in direct messages.
pub fn list_with(name: String, description: String, placeholder: String, param: CommandParam) -> (r:
    CommandDefinition)
    ensures
        r@ == listed(name@, description@, placeholder@, seq![param@]),
{
    let mut params: Vec<CommandParam> = Vec::new();
    params.push(param);
    assert(params_view(params@) =~= seq![param@]);
    CommandDefinition { name, description, placeholder, params, direct_messages: false }
}

/// The definition of the command that goes by `name`.
pub fn definition_for(name: &str) -> (r: CommandDefinition)
    ensures
        r@ == definition_of(name@),
{
    if same(name, "ask") {
        list_with(
            owned(name),
            owned("Ask an AI expert for help: Benny, Felix, or Sheila"),
            owned("Asking expert..."),
            make_text_param(
                "message",
                owned("Format: [Expert Name] - [Your Question]"),
                "e.g., Benny - How do I validate my startup idea?",
                10000,
                true,
            ),
        )
    } else if same(name, "project") {
        list_with(
            owned(name),
            owned("Manage your Asana projects and tasks"),
            owned("Processing your request..."),
            make_text_param(
                "command",
                owned(PROJECT_ACTIONS),
                "[action] [parameters]",
                10000,
                true,
            ),
        )
    } else if same(name, "help") {
        list_bare(owned(name), "Get help and list of available commands", "Processing...")
    } else if same(name, "github") {
        list_with(
            owned(name),
            owned("Manage GitHub repositories and issues"),
            owned("Processing your request..."),
            make_text_param("command", owned(GITHUB_ACTIONS), "[command] [parameters]", 10000, true),
        )
    } else if same(name, "dashboard") {
        list_bare(
            owned(name),
            "Log into your dashboard to see your activity",
            "Fetching token...",
        )
    } else {
        list_bare(owned(name), "Unknown command", "Unknown command")
    }
}

/// The definition of the command that asks the bot `bot_name`, whose name in
/// lowercase is `lowered`.
pub fn bot_command_definition(bot_name: &str, lowered: &str, role: &str) -> (r: CommandDefinition)
    ensures
        r@ == bot_definition_of(bot_name@, lowered@, role@),
{
    let mut description = join3("Ask ", bot_name, " (");
    description.append(role);
    description.append(")");
    list_with(
        join("ask_", lowered),
        description,
        join3("Asking ", bot_name, "..."),
        make_text_param(
            "question",
            join("The question to ask ", bot_name),
            "Your question",
            10000,
            true,
        ),
    )
}

/// The definition of the command that asks the bot `bot_name`.
pub fn create_bot_command_definition(bot_name: &str, role: &str) -> (r: CommandDefinition)
    ensures
        r@ == bot_definition_of(bot_name@, lowercase(bot_name@), role@),
{
    let lowered = bot_name.to_lowercase();
    bot_command_definition(bot_name, lowered.as_str(), role)
}

/// The definitions of the three project commands.
pub fn create_project_command_definitions() -> (r: Vec<CommandDefinition>)
    ensures
        definitions_view(r@) == project_definitions(),
{
    let mut out: Vec<CommandDefinition> = Vec::new();
    let connect = list_with(
        owned("project_connect"),
        owned("Connect your Asana account"),
        owned("Connecting to Asana..."),
        make_text_param(
            "token",
            owned("Your Asana Personal Access Token"),
            "Paste your token here",
            1000,
            false,
        ),
    );
    let create = list_with(
        owned("project_create_task"),
        owned("Create a new task in Asana"),
        owned("Creating task..."),
        make_text_param(
            "description",
            owned("Description of the task"),
            "What needs to be done?",
            10000,
            true,
        ),
    );
    let list = list_bare(owned("project_list_tasks"), "List your Asana tasks", "Fetching tasks...");
    out.push(connect);
    out.push(create);
    out.push(list);
    assert(definitions_view(out@) =~= project_definitions());
    out
}

} // verus!
