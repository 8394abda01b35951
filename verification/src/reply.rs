//! The words of the gateway: its fixed replies and the replies it builds.

use crate::text::{
    chars_of, find, find_in, join3, occurs, occurs_at, slice, strip_trailing, strip_trailing_len,
};
use vstd::prelude::*;
use vstd::string::*;

verus! {

/// Sent where an `ask` message has no dash, or asks an expert nothing.
pub const ASK_FORMAT_HELP: &'static str = "\
    Please use the format: [Expert Name] - [Your Question]\n\
    \n\
    Available experts:\n\
    • Benny - Backend & Business Expert\n\
    • Felix - Frontend Expert\n\
    • Dean - DevOps Expert\n\
    \n\
    Example: `Benny - How do I validate my startup idea?`";

/// What precedes the name in the reply to a question for an unknown expert.
pub const UNKNOWN_EXPERT_OPENING: &'static str = "Unknown expert '";

/// What follows the name in the reply to a question for an unknown expert.
pub const UNKNOWN_EXPERT_CLOSING: &'static str = "\
    '. Available experts:\n\
    • Benny - Backend & Business Expert\n\
    • Felix - Frontend Expert\n\
    • Dean - DevOps Expert";

/// Sent where `project connect` comes without a token.
pub const ASANA_TOKEN_MISSING: &'static str =
    "Please provide your Asana Personal Access Token. You can get it from https://app.asana.com/0/developer-console";

/// Sent where `project create` comes without a description.
pub const TASK_DESCRIPTION_MISSING: &'static str = "Please provide a task description";

/// Sent where the action of a `project` command is not one of its three.
pub const UNKNOWN_PROJECT_ACTION: &'static str =
    "Unknown project action. Available actions: connect, list, create";

/// Sent where `github create` comes without the separator.
pub const ISSUE_FORMAT_HELP: &'static str =
    "Please provide the issue title and description separated by ' -- ': create Issue title -- Description";

/// Sent where an issue is to be created and no repository has been selected.
pub const NO_REPOSITORY_SELECTED: &'static str =
    "No repository selected. Please select a repository first using `/github select <owner/repo>`";

/// Sent where the action of a `github` command is not one the gateway knows.
pub const UNKNOWN_GITHUB_ACTION: &'static str =
    "Unknown GitHub action. Available actions: connect, list, select, create, list_issues, list_prs";

/// Sent where no handler goes by the name of the command.
pub const UNKNOWN_COMMAND: &'static str = "Unknown command";

/// What precedes the login address in the reply to `dashboard`.
pub const DASHBOARD_OPENING: &'static str = "🎉 Access your personal dashboard:\n";

/// What follows the login address in the reply to `dashboard`.
pub const DASHBOARD_CLOSING: &'static str = "\
    \n\
    \n\
    There you can:\n\
    • View all your chat history\n\
    • Manage your tasks\n\
    • Configure integrations\n\
    • And more!";

/// The reply to `help`.
pub const HELP_TEXT: &'static str = "\
    🤖 **Infoundr: The Genius AI Co-Founder and Assistant**\n\
    \n\
    I'm your AI-powered assistant that can help with various tasks:\n\
    \n\
    **Dashboard Access** 🔐\n\
    Access your personal dashboard to manage all your interactions and settings:\n\
    `/dashboard` - Get a secure link to your personal dashboard\n\
    \n\
    **Ask AI Experts** 📚\n\
    You can ask any question to our AI experts, and they will answer you in a friendly and engaging way.\n\
    `/ask [Expert Name] [Your Question]`\n\
    Available experts:\n\
    • Beniah (Founder of Payd) - Bot Name: Benny\n\
    • Innocent Mangothe (Founder of Startinev) - Bot Name: Uncle Startups\n\
    • Dean Gichuki (Founder of Quick API) - Bot Name: Dean\n\
    • Sheila Waswa (Founder of Chasing Maverick) - Bot Name: Sheila\n\
    • Felix Macharia (Founder of KotaniPay) - Bot Name: Felix\n\
    \n\
    **Project Management** 📋\n\
    *Task Management Commands:*\n\
    1. First, connect your Asana account:\n\
    `/project connect YOUR_TOKEN` - Get your token from https://app.asana.com/0/developer-console\n\
    \n\
    2. Create a new task:\n\
    `/project create Task Name Task Description` - Create a new task in Asana\n\
    \n\
    3. List your tasks:\n\
    `/project list` - View your current tasks\n\
    \n\
    **GitHub Integration** 💻\n\
    `/github connect YOUR_TOKEN` - Connect GitHub account\n\
    To connect, you'll need a personal access token. Get it from: https://github.com/settings/personal-access-tokens\n\
    Steps to create a new token:\n\
    1. Click on 'Generate new token' in the top right section.\n\
    2. Set 'Repository access' to: All repositories.\n\
    3. Under 'Repository permissions':\n\
    - Issues: Set to read & write.\n\
    - Pull requests: Set to read & write.\n\
    \n\
    `/github list` - List repositories\n\
    `/github select REPO_NAME` - Select repository\n\
    `/github create ISSUE_TITLE ISSUE_DESCRIPTION` - Create issue\n\
    `/github list_issues [open/closed]` - List issues\n\
    `/github list_prs [open/closed]` - List pull requests\n\
    \n\
    For more details on any command, use it with --help\n\
    Example: /github --help";

/// The bytes that open a token which the ledger sent in its wire encoding.
pub const TOKEN_PREFIX: &'static str = "DIDL\u{0}\u{1}q,";

/// What joins the dashboard's address and the token.
pub const LOGIN_PATH: &'static str = "/bot-login?token=";

/// A processor's answer as the user sees it: the bot's name in asterisks on a
/// line of its own, then the text.
pub open spec fn formatted(bot_name: Seq<char>, text: Seq<char>) -> Seq<char> {
    "*"@ + bot_name + "*\n"@ + text
}

/// The reply to a question for `named`, whom the gateway does not know.
pub open spec fn unknown_expert(named: Seq<char>) -> Seq<char> {
    UNKNOWN_EXPERT_OPENING@ + named + UNKNOWN_EXPERT_CLOSING@
}

/// The token without the prefix of the wire encoding: where the token opens
/// with the prefix, what stands between it and the next occurrence of the
/// prefix, or the end; any other token unchanged.
pub open spec fn clean_token(token: Seq<char>) -> Seq<char> {
    let prefix = TOKEN_PREFIX@;
    if occurs_at(token, prefix, 0) {
        let rest = token.subrange(prefix.len() as int, token.len() as int);
        match find(rest, prefix, 0) {
            Some(at) => rest.subrange(0, at),
            None => rest,
        }
    } else {
        token
    }
}

/// The address at which `token` logs in to the dashboard found at `base`.
pub open spec fn login_url(base: Seq<char>, token: Seq<char>) -> Seq<char> {
    strip_trailing(base, '/') + LOGIN_PATH@ + clean_token(token)
}

/// The reply to `dashboard`.
pub open spec fn dashboard_message(base: Seq<char>, token: Seq<char>) -> Seq<char> {
    DASHBOARD_OPENING@ + login_url(base, token) + DASHBOARD_CLOSING@
}

/// A processor's answer as the user sees it.
pub fn format_reply(bot_name: &str, text: &str) -> (r: String)
    ensures
        r@ == formatted(bot_name@, text@),
{
    let mut out = join3("*", bot_name, "*\n");
    out.append(text);
    out
}

/// The reply to a question for `named`, whom the gateway does not know.
pub fn unknown_expert_reply(named: &str) -> (r: String)
    ensures
        r@ == unknown_expert(named@),
{
    join3(UNKNOWN_EXPERT_OPENING, named, UNKNOWN_EXPERT_CLOSING)
}

/// The token without the prefix of the wire encoding.
pub fn strip_token(token: &str) -> (r: String)
    ensures
        r@ == clean_token(token@),
{
    let chars = chars_of(token);
    let prefix = chars_of(TOKEN_PREFIX);
    if occurs(&chars, &prefix, 0) {
        let start: usize = prefix.len();
        let rest = slice(token, start, chars.len());
        let rest_chars = chars_of(rest.as_str());
        match find_in(&rest_chars, &prefix, 0) {
            Some(at) => slice(rest.as_str(), 0, at),
            None => rest,
        }
    } else {
        String::from_str(token)
    }
}

/// The address at which `token` logs in to the dashboard found at `base`.
pub fn login_address(base: &str, token: &str) -> (r: String)
    ensures
        r@ == login_url(base@, token@),
{
    let chars = chars_of(base);
    let keep: usize = strip_trailing_len(&chars, '/');
    let mut out = slice(base, 0, keep);
    out.append(LOGIN_PATH);
    let clean = strip_token(token);
    out.append(clean.as_str());
    out
}

/// The reply to `dashboard`.
pub fn dashboard_reply(base: &str, token: &str) -> (r: String)
    ensures
        r@ == dashboard_message(base@, token@),
{
    let address = login_address(base, token);
    join3(DASHBOARD_OPENING, address.as_str(), DASHBOARD_CLOSING)
}

} // verus!
