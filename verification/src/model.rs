//! The records that the gateway stores on the ledger, and their views.

use crate::principal::Principal;
use crate::text::{lowercase, same};
use vstd::prelude::*;

verus! {

/// Who wrote a chat message.
#[derive(Clone, Copy, Debug, PartialEq, Eq, Structural)]
pub enum MessageRole {
    User,
    Assistant,
}

/// Whether an issue is still open.
#[derive(Clone, Copy, Debug, PartialEq, Eq, Structural)]
pub enum IssueStatus {
    Open,
    Closed,
}

/// The status that a lowercase status word stands for: `closed` is closed,
/// every other word is open.
pub open spec fn status_of_word(lowered: Seq<char>) -> IssueStatus {
    if lowered == "closed"@ {
        IssueStatus::Closed
    } else {
        IssueStatus::Open
    }
}

impl IssueStatus {
    /// The status named by a word that is already in lowercase.
    pub fn from_lowercase(lowered: &str) -> (r: IssueStatus)
        ensures
            r == status_of_word(lowered@),
    {
        if same(lowered, "closed") {
            IssueStatus::Closed
        } else {
            IssueStatus::Open
        }
    }

    /// The status named by `word`, read without regard to case. A word that
    /// names no status stands for an open issue.
    pub fn from_text(word: &str) -> (r: IssueStatus)
        ensures
            r == status_of_word(lowercase(word@)),
    {
        let lowered = word.to_lowercase();
        IssueStatus::from_lowercase(lowered.as_str())
    }
}

/// The view of an optional text.
pub open spec fn text_view(t: Option<String>) -> Option<Seq<char>> {
    match t {
        Some(s) => Some(s@),
        None => None,
    }
}

/// The view of a list of pairs of texts.
pub open spec fn pairs_view(pairs: Seq<(String, String)>) -> Seq<(Seq<char>, Seq<char>)> {
    Seq::new(pairs.len(), |i: int| (pairs[i].0@, pairs[i].1@))
}

/// The key under which the ledger files a user's records.
#[derive(Debug, PartialEq, Eq)]
pub enum UserIdentifier {
    Principal(Principal),
    OpenChatId(String),
    SlackId(String),
}

/// [`UserIdentifier`] as contracts see it: texts and lists as sequences.
pub enum UserIdentifierView {
    Principal(Seq<u8>),
    OpenChatId(Seq<char>),
    SlackId(Seq<char>),
}

impl View for UserIdentifier {
    type V = UserIdentifierView;

    open spec fn view(&self) -> UserIdentifierView {
        match self {
            UserIdentifier::Principal(p) => UserIdentifierView::Principal(p@),
            UserIdentifier::OpenChatId(id) => UserIdentifierView::OpenChatId(id@),
            UserIdentifier::SlackId(id) => UserIdentifierView::SlackId(id@),
        }
    }
}

/// One entry of a user's chat history.
#[derive(Debug, PartialEq, Eq)]
pub struct ChatMessage {
    pub id: Principal,
    pub role: MessageRole,
    pub content: String,
    pub question_asked: Option<String>,
    pub timestamp: u64,
    pub bot_name: Option<String>,
}

/// [`ChatMessage`] as contracts see it: texts and lists as sequences.
pub struct ChatMessageView {
    pub id: Seq<u8>,
    pub role: MessageRole,
    pub content: Seq<char>,
    pub question_asked: Option<Seq<char>>,
    pub timestamp: u64,
    pub bot_name: Option<Seq<char>>,
}

impl View for ChatMessage {
    type V = ChatMessageView;

    open spec fn view(&self) -> ChatMessageView {
        ChatMessageView {
            id: self.id@,
            role: self.role,
            content: self.content@,
            question_asked: text_view(self.question_asked),
            timestamp: self.timestamp,
            bot_name: text_view(self.bot_name),
        }
    }
}

/// A stored GitHub credential with the repository chosen for it, if any.
#[derive(Debug, PartialEq, Eq)]
pub struct GitHubConnection {
    pub timestamp: Option<u64>,
    pub token: String,
    pub selected_repo: Option<String>,
}

/// [`GitHubConnection`] as contracts see it: texts and lists as sequences.
pub struct GitHubConnectionView {
    pub timestamp: Option<u64>,
    pub token: Seq<char>,
    pub selected_repo: Option<Seq<char>>,
}

impl View for GitHubConnection {
    type V = GitHubConnectionView;

    open spec fn view(&self) -> GitHubConnectionView {
        GitHubConnectionView {
            timestamp: self.timestamp,
            token: self.token@,
            selected_repo: text_view(self.selected_repo),
        }
    }
}

/// An issue as the ledger records it.
#[derive(Debug, PartialEq, Eq)]
pub struct GitHubIssue {
    pub id: String,
    pub title: String,
    pub body: String,
    pub repository: String,
    pub created_at: u64,
    pub status: IssueStatus,
}

/// [`GitHubIssue`] as contracts see it: texts and lists as sequences.
pub struct GitHubIssueView {
    pub id: Seq<char>,
    pub title: Seq<char>,
    pub body: Seq<char>,
    pub repository: Seq<char>,
    pub created_at: u64,
    pub status: IssueStatus,
}

impl View for GitHubIssue {
    type V = GitHubIssueView;

    open spec fn view(&self) -> GitHubIssueView {
        GitHubIssueView {
            id: self.id@,
            title: self.title@,
            body: self.body@,
            repository: self.repository@,
            created_at: self.created_at,
            status: self.status,
        }
    }
}

/// A stored Asana credential with its workspace and its projects, each
/// project as the pair of its id and its name.
#[derive(Debug, PartialEq, Eq)]
pub struct AsanaConnection {
    pub token: String,
    pub workspace_id: String,
    pub project_ids: Vec<(String, String)>,
}

/// [`AsanaConnection`] as contracts see it: texts and lists as sequences.
pub struct AsanaConnectionView {
    pub token: Seq<char>,
    pub workspace_id: Seq<char>,
    pub project_ids: Seq<(Seq<char>, Seq<char>)>,
}

impl View for AsanaConnection {
    type V = AsanaConnectionView;

    open spec fn view(&self) -> AsanaConnectionView {
        AsanaConnectionView {
            token: self.token@,
            workspace_id: self.workspace_id@,
            project_ids: pairs_view(self.project_ids@),
        }
    }
}

/// A task as the ledger records it.
#[derive(Debug, PartialEq, Eq)]
pub struct AsanaTask {
    pub id: String,
    pub title: String,
    pub description: String,
    pub status: String,
    pub created_at: u64,
    pub platform: String,
    pub platform_id: String,
    pub creator: Principal,
}

/// [`AsanaTask`] as contracts see it: texts and lists as sequences.
pub struct AsanaTaskView {
    pub id: Seq<char>,
    pub title: Seq<char>,
    pub description: Seq<char>,
    pub status: Seq<char>,
    pub created_at: u64,
    pub platform: Seq<char>,
    pub platform_id: Seq<char>,
    pub creator: Seq<u8>,
}

impl View for AsanaTask {
    type V = AsanaTaskView;

    open spec fn view(&self) -> AsanaTaskView {
        AsanaTaskView {
            id: self.id@,
            title: self.title@,
            description: self.description@,
            status: self.status@,
            created_at: self.created_at,
            platform: self.platform@,
            platform_id: self.platform_id@,
            creator: self.creator@,
        }
    }
}

/// A user as the ledger knows them through Slack.
#[derive(Debug, PartialEq, Eq)]
pub struct SlackUser {
    pub slack_id: String,
    pub site_principal: Option<Principal>,
    pub display_name: Option<String>,
    pub team_id: Option<String>,
}

/// A user as the ledger knows them through OpenChat.
#[derive(Debug, PartialEq, Eq)]
pub struct OpenChatUser {
    pub openchat_id: String,
    pub site_principal: Option<Principal>,
    pub first_interaction: u64,
    pub last_interaction: u64,
}

} // verus!
