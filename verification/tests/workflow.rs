use infoundr_gateway::command::{CommandKind, CommandResult};
use infoundr_gateway::engine::{Effect, Next, Pending, Stage};
use infoundr_gateway::grammar::{Action, Ask};
use infoundr_gateway::ledger::{LedgerCall, LedgerOp, LedgerReply};
use infoundr_gateway::model::UserIdentifier;
use infoundr_gateway::principal::Principal;
use infoundr_gateway::processor::{ProcessorFailure, ProcessorRequest};
use infoundr_gateway::text::{blanks, chars_of, trim_marked};
use infoundr_gateway::workflow::{
    act_on, asana_failure_text, ask_act, check_failure_text, fail_with, github_act, persisted,
    project_act,
    reject_with, reply_with, state_or_default, token, write_ledger,
};

fn initiator() -> Principal {
    Principal::from_bytes(vec![4]).unwrap()
}

fn action(name: &str, params: &str) -> Action {
    Action { name: name.to_string(), params: params.to_string() }
}

#[test]
fn marks_follow_the_characters() {
    assert_eq!(blanks(&chars_of(" a\tb\u{a0}")), vec![true, false, true, false, true]);
    assert_eq!(blanks(&chars_of("")), Vec::<bool>::new());
}

#[test]
fn trimming_by_marks() {
    let marks = vec![true, true, false, true, false, true];
    assert_eq!(trim_marked(&marks, 0, 6), (2, 5));
    assert_eq!(trim_marked(&marks, 3, 6), (4, 5));
    assert_eq!(trim_marked(&marks, 0, 2), (2, 2));
    assert_eq!(trim_marked(&marks, 2, 3), (2, 3));
    assert_eq!(trim_marked(&marks, 4, 4), (4, 4));
    assert_eq!(trim_marked(&vec![], 0, 0), (0, 0));
}

#[test]
fn endings() {
    assert_eq!(
        reply_with("hi".to_string()),
        (Stage::Replied, Effect::Finish(CommandResult::Success("hi".to_string())))
    );
    assert_eq!(
        reject_with("no".to_string()),
        (Stage::Failed, Effect::Finish(CommandResult::BadRequest("no".to_string())))
    );
    assert_eq!(
        fail_with("boom".to_string()),
        (Stage::Failed, Effect::Finish(CommandResult::InternalError("boom".to_string())))
    );
}

#[test]
fn a_question_goes_to_its_expert() {
    let ask = Ask::Question { expert: "dean".to_string(), question: "deploy?".to_string() };
    assert_eq!(
        ask_act(ask, "u1"),
        (
            Stage::Acting(Pending::Answer {
                expert: "dean".to_string(),
                question: "deploy?".to_string()
            }),
            Effect::Process(ProcessorRequest {
                command: "ask_dean".to_string(),
                args: vec![
                    ("question".to_string(), "deploy?".to_string()),
                    ("user_id".to_string(), "u1".to_string())
                ],
            })
        )
    );
}

#[test]
fn actions_are_matched_as_given() {
    let (stage, _) = project_act(action("LIST", ""), "u1", &initiator(), 0);
    assert_eq!(stage, Stage::Failed);
    let (stage, _) = project_act(action("list", "ignored"), "u1", &initiator(), 0);
    assert_eq!(stage, Stage::Acting(Pending::Forward { asana: true }));
    let (stage, _) = github_act(action("select", ""), "u1");
    assert_eq!(stage, Stage::Acting(Pending::Validate { repo: String::new() }));
    let (stage, _) = github_act(action("", ""), "u1");
    assert_eq!(stage, Stage::Failed);
}

#[test]
fn state_defaults_to_open() {
    assert_eq!(state_or_default(String::new()), "open");
    assert_eq!(state_or_default("closed".to_string()), "closed");
    assert_eq!(state_or_default("all".to_string()), "all");
}

#[test]
fn only_refusals_name_asana() {
    assert_eq!(
        asana_failure_text(ProcessorFailure::Refused("bad token".to_string())),
        "Asana API error: bad token"
    );
    assert_eq!(
        asana_failure_text(ProcessorFailure::Unreachable("down".to_string())),
        "Failed to call Python API: down"
    );
    assert_eq!(
        asana_failure_text(ProcessorFailure::Status(418)),
        "Python API returned error status: 418"
    );
    assert_eq!(
        asana_failure_text(ProcessorFailure::Unreadable("eof".to_string())),
        "Failed to parse Python API response: eof"
    );
}

#[test]
fn a_write_remembers_what_it_is_for() {
    let call = LedgerCall::UpdateGithubSelectedRepo {
        user: UserIdentifier::OpenChatId("u1".to_string()),
        repo_name: "a/b".to_string(),
    };
    let (stage, effect) = write_ledger(call, false, Next::Reply("done".to_string()));
    assert_eq!(
        stage,
        Stage::Persisting {
            op: LedgerOp::UpdateGithubSelectedRepo,
            wrapped: false,
            next: Next::Reply("done".to_string())
        }
    );
    assert_eq!(
        effect,
        Effect::Ledger(LedgerCall::UpdateGithubSelectedRepo {
            user: UserIdentifier::OpenChatId("u1".to_string()),
            repo_name: "a/b".to_string(),
        })
    );
}

#[test]
fn a_confirmed_write_goes_on() {
    assert_eq!(
        persisted(
            LedgerOp::StoreChatMessage,
            false,
            Next::Reply("*B*\nt".to_string()),
            &LedgerReply::Done(vec![])
        ),
        reply_with("*B*\nt".to_string())
    );
    assert_eq!(
        persisted(
            LedgerOp::StoreAsanaTask,
            false,
            Next::Reply("x".to_string()),
            &LedgerReply::Failed("e".to_string())
        ),
        fail_with("Failed to store Asana task: e".to_string())
    );
}

#[test]
fn a_token_answer_must_be_bytes() {
    assert_eq!(
        token(LedgerReply::User(None), "https://d"),
        fail_with("Unexpected reply: no such request is pending".to_string())
    );
    assert_eq!(
        token(LedgerReply::Done(b"t".to_vec()), "https://d/"),
        reply_with(
            "🎉 Access your personal dashboard:\nhttps://d/bot-login?token=t\n\nThere you can:\n• View all your chat history\n• Manage your tasks\n• Configure integrations\n• And more!"
                .to_string()
        )
    );
}

#[test]
fn the_first_step_goes_by_the_kind() {
    let (stage, effect) = act_on(CommandKind::Dashboard, "ignored", "u1", &initiator(), 0);
    assert_eq!(stage, Stage::FetchingToken);
    assert_eq!(effect, Effect::Ledger(LedgerCall::GenerateDashboardToken { id: "u1".to_string() }));
    let (stage, _) = act_on(CommandKind::Ask, "Benny - x", "u1", &initiator(), 0);
    assert_eq!(
        stage,
        Stage::Acting(Pending::Answer { expert: "benny".to_string(), question: "x".to_string() })
    );
    let (stage, _) = act_on(CommandKind::Project, "list", "u1", &initiator(), 0);
    assert_eq!(stage, Stage::Acting(Pending::Forward { asana: true }));
    let (stage, _) = act_on(CommandKind::GitHub, "list", "u1", &initiator(), 0);
    assert_eq!(stage, Stage::Acting(Pending::Forward { asana: false }));
    let (stage, _) = act_on(CommandKind::Help, "", "u1", &initiator(), 0);
    assert_eq!(stage, Stage::Replied);
}

#[test]
fn failures_of_the_repository_check_have_their_own_headings() {
    assert_eq!(
        check_failure_text(ProcessorFailure::Unreachable("down".to_string())),
        "Failed to check repository: down"
    );
    assert_eq!(
        check_failure_text(ProcessorFailure::Unreadable("eof".to_string())),
        "Failed to parse repository check response: eof"
    );
    assert_eq!(check_failure_text(ProcessorFailure::Refused("no".to_string())), "no");
    assert_eq!(
        check_failure_text(ProcessorFailure::Status(404)),
        "Python API returned error status: 404"
    );
}
