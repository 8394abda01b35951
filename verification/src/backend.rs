//! The ledger client of the OpenChat gateway: which call each step makes, and
//! under which heading a failed call is reported.

use crate::ledger::{LedgerCall, LedgerCallView, LedgerOp, LedgerReply, Platform};
use crate::model::{
    pairs_view, text_view, AsanaTask, ChatMessage, GitHubIssue, UserIdentifier, UserIdentifierView,
};
use vstd::prelude::*;
use vstd::string::*;

verus! {

/// The heading under which the failure of a call is reported.
pub open spec fn backend_prefix(op: LedgerOp) -> Seq<char> {
    match op {
        LedgerOp::RegisterUser => "Failed to register user: "@,
        LedgerOp::GetUser => "Failed to get user: "@,
        LedgerOp::GetMessages => "Failed to get messages: "@,
        LedgerOp::StoreChatMessage => "Failed to store chat message: "@,
        LedgerOp::GenerateDashboardToken => "Failed to generate token: "@,
        LedgerOp::StoreGithubConnection => "Failed to store GitHub connection: "@,
        LedgerOp::StoreGithubIssue => "Failed to store GitHub issue: "@,
        LedgerOp::UpdateGithubSelectedRepo => "Failed to update GitHub selected repo: "@,
        LedgerOp::StoreAsanaConnection => "Failed to store Asana connection: "@,
        LedgerOp::StoreAsanaTask => "Failed to store Asana task: "@,
        LedgerOp::GetAdmins => "Failed to get admins: "@,
    }
}

/// The ledger client of the OpenChat gateway. It addresses one canister.
#[derive(Debug, PartialEq, Eq)]
pub struct BackendCanisterAgent {
    pub canister_id: String,
}

impl BackendCanisterAgent {
    /// The client of the ledger that lives in `canister_id`.
    pub fn new(canister_id: String) -> (r: BackendCanisterAgent)
        ensures
            r.canister_id == canister_id,
    {
        BackendCanisterAgent { canister_id }
    }

    /// The heading under which the failure of a call is reported.
    pub fn prefix(op: LedgerOp) -> (r: &'static str)
        ensures
            r@ == backend_prefix(op),
    {
        match op {
            LedgerOp::RegisterUser => "Failed to register user: ",
            LedgerOp::GetUser => "Failed to get user: ",
            LedgerOp::GetMessages => "Failed to get messages: ",
            LedgerOp::StoreChatMessage => "Failed to store chat message: ",
            LedgerOp::GenerateDashboardToken => "Failed to generate token: ",
            LedgerOp::StoreGithubConnection => "Failed to store GitHub connection: ",
            LedgerOp::StoreGithubIssue => "Failed to store GitHub issue: ",
            LedgerOp::UpdateGithubSelectedRepo => "Failed to update GitHub selected repo: ",
            LedgerOp::StoreAsanaConnection => "Failed to store Asana connection: ",
            LedgerOp::StoreAsanaTask => "Failed to store Asana task: ",
            LedgerOp::GetAdmins => "Failed to get admins: ",
        }
    }

    /// Why a call for `op` failed, as it is reported; nothing where `reply`
    /// shows success.
    pub fn failure(op: LedgerOp, reply: &LedgerReply) -> (r: Option<String>)
        ensures
            text_view(r) == reply@.failure(backend_prefix(op)),
    {
        reply.failure(BackendCanisterAgent::prefix(op))
    }

    /// The call that appends `message` to the user's history.
    pub fn store_chat_message(&self, openchat_id: String, message: ChatMessage) -> (r: LedgerCall)
        ensures
            r@ == (LedgerCallView::StoreChatMessage {
                user: UserIdentifierView::OpenChatId(openchat_id@),
                message: message@,
            }),
    {
        LedgerCall::StoreChatMessage { user: UserIdentifier::OpenChatId(openchat_id), message }
    }

    /// The call that registers the user, or finds them registered.
    pub fn ensure_user_registered(&self, openchat_id: String) -> (r: LedgerCall)
        ensures
            r@ == (LedgerCallView::RegisterUser { platform: Platform::OpenChat, id: openchat_id@ }),
    {
        LedgerCall::RegisterUser { platform: Platform::OpenChat, id: openchat_id }
    }

    /// The call that asks for a token to the user's dashboard.
    pub fn generate_dashboard_token(&self, openchat_id: String) -> (r: LedgerCall)
        ensures
            r@ == (LedgerCallView::GenerateDashboardToken { id: openchat_id@ }),
    {
        LedgerCall::GenerateDashboardToken { id: openchat_id }
    }

    /// The call that stores the user's GitHub credential.
    pub fn store_github_connection(
        &self,
        openchat_id: String,
        token: String,
        selected_repo: Option<String>,
    ) -> (r: LedgerCall)
        ensures
            r@ == (LedgerCallView::StoreGithubConnection {
                user: UserIdentifierView::OpenChatId(openchat_id@),
                token: token@,
                selected_repo: text_view(selected_repo),
            }),
    {
        LedgerCall::StoreGithubConnection {
            user: UserIdentifier::OpenChatId(openchat_id),
            token,
            selected_repo,
        }
    }

    /// The call that records an issue.
    pub fn store_github_issue(&self, openchat_id: String, issue: GitHubIssue) -> (r: LedgerCall)
        ensures
            r@ == (LedgerCallView::StoreGithubIssue {
                user: UserIdentifierView::OpenChatId(openchat_id@),
                issue: issue@,
            }),
    {
        LedgerCall::StoreGithubIssue { user: UserIdentifier::OpenChatId(openchat_id), issue }
    }

    /// The call that stores the user's Asana credential with its workspace
    /// and projects.
    pub fn store_asana_connection(
        &self,
        openchat_id: String,
        token: String,
        workspace_id: String,
        project_ids: Vec<(String, String)>,
    ) -> (r: LedgerCall)
        ensures
            r@ == (LedgerCallView::StoreAsanaConnection {
                user: UserIdentifierView::OpenChatId(openchat_id@),
                token: token@,
                workspace_id: workspace_id@,
                project_ids: pairs_view(project_ids@),
            }),
    {
        LedgerCall::StoreAsanaConnection {
            user: UserIdentifier::OpenChatId(openchat_id),
            token,
            workspace_id,
            project_ids,
        }
    }

    /// The call that records a task.
    pub fn store_asana_task(&self, openchat_id: String, task: AsanaTask) -> (r: LedgerCall)
        ensures
            r@ == (LedgerCallView::StoreAsanaTask {
                user: UserIdentifierView::OpenChatId(openchat_id@),
                task: task@,
            }),
    {
        LedgerCall::StoreAsanaTask { user: UserIdentifier::OpenChatId(openchat_id), task }
    }

    /// The call that changes the repository chosen for the user's GitHub
    /// credential.
    pub fn update_github_selected_repo(&self, openchat_id: String, repo_name: String) -> (r:
        LedgerCall)
        ensures
            r@ == (LedgerCallView::UpdateGithubSelectedRepo {
                user: UserIdentifierView::OpenChatId(openchat_id@),
                repo_name: repo_name@,
            }),
    {
        LedgerCall::UpdateGithubSelectedRepo {
            user: UserIdentifier::OpenChatId(openchat_id),
            repo_name,
        }
    }
}

} // verus!
