//! The downstream processor: what is sent to it and how its answers are read.
//!
//! One request is a command name with named text arguments. One answer is a
//! status with a body that may read as a response, as an error, or as
//! neither. Nothing is retried: a failure is reported as it came.

use crate::model::{pairs_view, text_view};
use crate::text::{decimal, decimal_text, join, owned};
use vstd::prelude::*;
use vstd::string::*;

verus! {

/// A command for the processor, with its arguments in the order given.
#[derive(Debug, PartialEq, Eq)]
pub struct ProcessorRequest {
    pub command: String,
    pub args: Vec<(String, String)>,
}

/// [`ProcessorRequest`] as contracts see it: texts and lists as sequences.
pub struct ProcessorRequestView {
    pub command: Seq<char>,
    pub args: Seq<(Seq<char>, Seq<char>)>,
}

impl View for ProcessorRequest {
    type V = ProcessorRequestView;

    open spec fn view(&self) -> ProcessorRequestView {
        ProcessorRequestView { command: self.command@, args: pairs_view(self.args@) }
    }
}

/// What the processor may add to its text.
#[derive(Debug, PartialEq, Eq)]
pub struct ResponseMetadata {
    pub selected_repo: Option<String>,
    pub workspace_id: Option<String>,
    pub project_ids: Option<Vec<(String, String)>>,
}

/// [`ResponseMetadata`] as contracts see it: texts and lists as sequences.
pub struct ResponseMetadataView {
    pub selected_repo: Option<Seq<char>>,
    pub workspace_id: Option<Seq<char>>,
    pub project_ids: Option<Seq<(Seq<char>, Seq<char>)>>,
}

impl View for ResponseMetadata {
    type V = ResponseMetadataView;

    open spec fn view(&self) -> ResponseMetadataView {
        ResponseMetadataView {
            selected_repo: text_view(self.selected_repo),
            workspace_id: text_view(self.workspace_id),
            project_ids: match self.project_ids {
                Some(p) => Some(pairs_view(p@)),
                None => None,
            },
        }
    }
}

/// A successful answer: the text and the name of the bot that wrote it.
#[derive(Debug, PartialEq, Eq)]
pub struct BotResponse {
    pub text: String,
    pub bot_name: String,
    pub metadata: Option<ResponseMetadata>,
}

/// [`BotResponse`] as contracts see it: texts and lists as sequences.
pub struct BotResponseView {
    pub text: Seq<char>,
    pub bot_name: Seq<char>,
    pub metadata: Option<ResponseMetadataView>,
}

impl View for BotResponse {
    type V = BotResponseView;

    open spec fn view(&self) -> BotResponseView {
        BotResponseView {
            text: self.text@,
            bot_name: self.bot_name@,
            metadata: match self.metadata {
                Some(m) => Some(m@),
                None => None,
            },
        }
    }
}

/// The body of an answer read both ways: as a response, or else the reason it
/// is none; and as an error payload, if it is one.
#[derive(Debug, PartialEq, Eq)]
pub struct ProcessorAnswer {
    pub status: u16,
    pub response: Result<BotResponse, String>,
    pub error: Option<String>,
}

/// [`ProcessorAnswer`] as contracts see it: texts and lists as sequences.
pub struct ProcessorAnswerView {
    pub status: u16,
    pub response: Result<BotResponseView, Seq<char>>,
    pub error: Option<Seq<char>>,
}

impl View for ProcessorAnswer {
    type V = ProcessorAnswerView;

    open spec fn view(&self) -> ProcessorAnswerView {
        ProcessorAnswerView {
            status: self.status,
            response: match self.response {
                Ok(r) => Ok(r@),
                Err(e) => Err(e@),
            },
            error: text_view(self.error),
        }
    }
}

/// How a request to the processor ended.
#[derive(Debug, PartialEq, Eq)]
pub enum ProcessorReply {
    /// No answer came; the text says why.
    Unreachable(String),
    Answered(ProcessorAnswer),
}

/// [`ProcessorReply`] as contracts see it: texts and lists as sequences.
pub enum ProcessorReplyView {
    Unreachable(Seq<char>),
    Answered(ProcessorAnswerView),
}

impl View for ProcessorReply {
    type V = ProcessorReplyView;

    open spec fn view(&self) -> ProcessorReplyView {
        match self {
            ProcessorReply::Unreachable(e) => ProcessorReplyView::Unreachable(e@),
            ProcessorReply::Answered(a) => ProcessorReplyView::Answered(a@),
        }
    }
}

/// Why a request brought no response.
#[derive(Debug, PartialEq, Eq)]
pub enum ProcessorFailure {
    /// The processor could not be reached.
    Unreachable(String),
    /// The processor refused, and said why.
    Refused(String),
    /// The processor refused with this status, and its body says nothing.
    Status(u16),
    /// The processor accepted, and its body is no response.
    Unreadable(String),
}

/// [`ProcessorFailure`] as contracts see it: texts and lists as sequences.
pub enum ProcessorFailureView {
    Unreachable(Seq<char>),
    Refused(Seq<char>),
    Status(u16),
    Unreadable(Seq<char>),
}

impl View for ProcessorFailure {
    type V = ProcessorFailureView;

    open spec fn view(&self) -> ProcessorFailureView {
        match self {
            ProcessorFailure::Unreachable(e) => ProcessorFailureView::Unreachable(e@),
            ProcessorFailure::Refused(e) => ProcessorFailureView::Refused(e@),
            ProcessorFailure::Status(s) => ProcessorFailureView::Status(*s),
            ProcessorFailure::Unreadable(e) => ProcessorFailureView::Unreadable(e@),
        }
    }
}

/// The statuses that stand for success: 200 to 299.
pub open spec fn is_success(status: u16) -> bool {
    200 <= status < 300
}

/// The reading of a reply: a response where the status is a success and the
/// body is one, else the failure.
pub open spec fn settled(reply: ProcessorReplyView) -> Result<BotResponseView, ProcessorFailureView> {
    match reply {
        ProcessorReplyView::Unreachable(e) => Err(ProcessorFailureView::Unreachable(e)),
        ProcessorReplyView::Answered(a) => if is_success(a.status) {
            match a.response {
                Ok(r) => Ok(r),
                Err(e) => Err(ProcessorFailureView::Unreadable(e)),
            }
        } else {
            match a.error {
                Some(e) => Err(ProcessorFailureView::Refused(e)),
                None => Err(ProcessorFailureView::Status(a.status)),
            }
        },
    }
}

/// Whether a reply shows that the processor accepted the request; the body is
/// not looked at on success.
pub open spec fn accepted(reply: ProcessorReplyView) -> Result<(), ProcessorFailureView> {
    match reply {
        ProcessorReplyView::Unreachable(e) => Err(ProcessorFailureView::Unreachable(e)),
        ProcessorReplyView::Answered(a) => if is_success(a.status) {
            Ok(())
        } else {
            match a.error {
                Some(e) => Err(ProcessorFailureView::Refused(e)),
                None => Err(ProcessorFailureView::Status(a.status)),
            }
        },
    }
}

/// The words in which a failure is reported.
pub open spec fn failure_message(failure: ProcessorFailureView) -> Seq<char> {
    match failure {
        ProcessorFailureView::Unreachable(e) => "Failed to call Python API: "@ + e,
        ProcessorFailureView::Refused(e) => e,
        ProcessorFailureView::Status(s) => "Python API returned error status: "@ + decimal(
            s as nat,
        ),
        ProcessorFailureView::Unreadable(e) => "Failed to parse Python API response: "@ + e,
    }
}

/// The view of the outcome of reading a reply.
pub open spec fn outcome_view(r: Result<BotResponse, ProcessorFailure>) -> Result<
    BotResponseView,
    ProcessorFailureView,
> {
    match r {
        Ok(response) => Ok(response@),
        Err(failure) => Err(failure@),
    }
}

/// The view of the outcome of a validation.
pub open spec fn acceptance_view(r: Result<(), ProcessorFailure>) -> Result<
    (),
    ProcessorFailureView,
> {
    match r {
        Ok(u) => Ok(()),
        Err(failure) => Err(failure@),
    }
}

/// Whether `status` stands for success.
pub fn status_is_success(status: u16) -> (r: bool)
    ensures
        r == is_success(status),
{
    200 <= status && status < 300
}

/// Reads a reply.
pub fn settle(reply: ProcessorReply) -> (r: Result<BotResponse, ProcessorFailure>)
    ensures
        outcome_view(r) == settled(reply@),
{
    match reply {
        ProcessorReply::Unreachable(e) => Err(ProcessorFailure::Unreachable(e)),
        ProcessorReply::Answered(answer) => {
            if status_is_success(answer.status) {
                match answer.response {
                    Ok(response) => Ok(response),
                    Err(e) => Err(ProcessorFailure::Unreadable(e)),
                }
            } else {
                match answer.error {
                    Some(e) => Err(ProcessorFailure::Refused(e)),
                    None => Err(ProcessorFailure::Status(answer.status)),
                }
            }
        },
    }
}

/// Reads a reply for its status alone.
pub fn accept(reply: ProcessorReply) -> (r: Result<(), ProcessorFailure>)
    ensures
        acceptance_view(r) == accepted(reply@),
{
    match reply {
        ProcessorReply::Unreachable(e) => Err(ProcessorFailure::Unreachable(e)),
        ProcessorReply::Answered(answer) => {
            if status_is_success(answer.status) {
                Ok(())
            } else {
                match answer.error {
                    Some(e) => Err(ProcessorFailure::Refused(e)),
                    None => Err(ProcessorFailure::Status(answer.status)),
                }
            }
        },
    }
}

impl ProcessorFailure {
    /// The words in which this failure is reported.
    pub fn message(self) -> (r: String)
        ensures
            r@ == failure_message(self@),
    {
        match self {
            ProcessorFailure::Unreachable(e) => join("Failed to call Python API: ", e.as_str()),
            ProcessorFailure::Refused(e) => e,
            ProcessorFailure::Status(s) => {
                let code = decimal_text(s as u64);
                join("Python API returned error status: ", code.as_str())
            },
            ProcessorFailure::Unreadable(e) => join(
                "Failed to parse Python API response: ",
                e.as_str(),
            ),
        }
    }
}

/// A request with one argument.
pub open spec fn request1(command: Seq<char>, k1: Seq<char>, v1: Seq<char>) -> ProcessorRequestView {
    ProcessorRequestView { command, args: seq![(k1, v1)] }
}

/// A request with two arguments.
pub open spec fn request2(
    command: Seq<char>,
    k1: Seq<char>,
    v1: Seq<char>,
    k2: Seq<char>,
    v2: Seq<char>,
) -> ProcessorRequestView {
    ProcessorRequestView { command, args: seq![(k1, v1), (k2, v2)] }
}

/// A request to create an issue.
pub open spec fn issue_request(
    title: Seq<char>,
    body: Seq<char>,
    user_id: Seq<char>,
    repo: Seq<char>,
) -> ProcessorRequestView {
    ProcessorRequestView {
        command: "github_create_issue"@,
        args: seq![("title"@, title), ("body"@, body), ("user_id"@, user_id), ("repo"@, repo)],
    }
}

impl ProcessorRequest {
    /// The request `command` with the argument `k1`.
    pub fn with1(command: String, k1: &str, v1: &str) -> (r: ProcessorRequest)
        ensures
            r@ == request1(command@, k1@, v1@),
    {
        let mut args: Vec<(String, String)> = Vec::new();
        args.push((owned(k1), owned(v1)));
        assert(pairs_view(args@) =~= seq![(k1@, v1@)]);
        ProcessorRequest { command, args }
    }

    /// The request `command` with the arguments `k1` and `k2`.
    pub fn with2(command: String, k1: &str, v1: &str, k2: &str, v2: &str) -> (r: ProcessorRequest)
        ensures
            r@ == request2(command@, k1@, v1@, k2@, v2@),
    {
        let mut args: Vec<(String, String)> = Vec::new();
        args.push((owned(k1), owned(v1)));
        args.push((owned(k2), owned(v2)));
        assert(pairs_view(args@) =~= seq![(k1@, v1@), (k2@, v2@)]);
        ProcessorRequest { command, args }
    }

    /// The request to create an issue in `repo`.
    pub fn create_issue(title: &str, body: &str, user_id: &str, repo: &str) -> (r:
        ProcessorRequest)
        ensures
            r@ == issue_request(title@, body@, user_id@, repo@),
    {
        let mut args: Vec<(String, String)> = Vec::new();
        args.push((owned("title"), owned(title)));
        args.push((owned("body"), owned(body)));
        args.push((owned("user_id"), owned(user_id)));
        args.push((owned("repo"), owned(repo)));
        assert(pairs_view(args@) =~= seq![
            ("title"@, title@),
            ("body"@, body@),
            ("user_id"@, user_id@),
            ("repo"@, repo@),
        ]);
        ProcessorRequest { command: owned("github_create_issue"), args }
    }
}

} // verus!
