use infoundr_gateway::grammar::{
    classify_ask, known_expert, parse_action, parse_ask, parse_issue, split_action, Action, Ask,
};

fn question(expert: &str, question: &str) -> Ask {
    Ask::Question { expert: expert.to_string(), question: question.to_string() }
}

#[test]
fn ask_splits_at_the_first_dash() {
    assert_eq!(
        parse_ask("Benny - How do I validate my startup idea?"),
        question("benny", "How do I validate my startup idea?")
    );
    assert_eq!(parse_ask("felix-a - b - c"), question("felix", "a - b - c"));
}

#[test]
fn ask_reads_the_expert_in_any_case() {
    assert_eq!(parse_ask("  DEAN\t-  ship it? "), question("dean", "ship it?"));
    assert_eq!(parse_ask("FeLiX - hi"), question("felix", "hi"));
}

#[test]
fn ask_trims_unicode_whitespace() {
    assert_eq!(parse_ask("\u{a0}Benny\u{2003}- q\u{3000}"), question("benny", "q"));
}

#[test]
fn ask_without_a_dash_is_malformed() {
    assert_eq!(parse_ask("Benny how are you"), Ask::Malformed);
    assert_eq!(parse_ask(""), Ask::Malformed);
}

#[test]
fn ask_of_an_expert_without_a_question_is_malformed() {
    assert_eq!(parse_ask("Benny -   "), Ask::Malformed);
    assert_eq!(parse_ask("Benny-"), Ask::Malformed);
    assert_eq!(parse_ask(" DEAN\t- \n"), Ask::Malformed);
}

#[test]
fn ask_for_an_unknown_expert_keeps_the_name_as_written() {
    assert_eq!(
        parse_ask(" Sheila - what now?"),
        Ask::UnknownExpert { named: "Sheila".to_string() }
    );
    assert_eq!(
        parse_ask("Uncle Startups - hi"),
        Ask::UnknownExpert { named: "Uncle Startups".to_string() }
    );
}

#[test]
fn ask_for_an_unknown_expert_is_unknown_whatever_is_asked() {
    assert_eq!(parse_ask("Bob -"), Ask::UnknownExpert { named: "Bob".to_string() });
    assert_eq!(parse_ask("Bob -   "), Ask::UnknownExpert { named: "Bob".to_string() });
}

#[test]
fn ask_without_a_name_names_nobody_known() {
    assert_eq!(parse_ask(" - what now?"), Ask::UnknownExpert { named: String::new() });
    assert_eq!(parse_ask("-"), Ask::UnknownExpert { named: String::new() });
    assert_eq!(parse_ask("  -- x"), Ask::UnknownExpert { named: String::new() });
}

#[test]
fn the_experts_are_three() {
    assert!(known_expert("benny"));
    assert!(known_expert("felix"));
    assert!(known_expert("dean"));
    assert!(!known_expert("Benny"));
    assert!(!known_expert("sheila"));
    assert!(!known_expert(""));
}

#[test]
fn classification_goes_by_the_lowered_name() {
    assert_eq!(
        classify_ask("Benny".to_string(), "benny".to_string(), "q".to_string()),
        question("benny", "q")
    );
    assert_eq!(
        classify_ask("Benny".to_string(), "bruno".to_string(), "q".to_string()),
        Ask::UnknownExpert { named: "Benny".to_string() }
    );
    assert_eq!(
        classify_ask("Benny".to_string(), "bruno".to_string(), "".to_string()),
        Ask::UnknownExpert { named: "Benny".to_string() }
    );
    assert_eq!(
        classify_ask("".to_string(), "".to_string(), "q".to_string()),
        Ask::UnknownExpert { named: String::new() }
    );
    assert_eq!(
        classify_ask("Benny".to_string(), "benny".to_string(), "".to_string()),
        Ask::Malformed
    );
}

fn action(name: &str, params: &str) -> Action {
    Action { name: name.to_string(), params: params.to_string() }
}

#[test]
fn action_splits_at_the_first_space() {
    assert_eq!(
        parse_action("create Build landing page"),
        action("create", "Build landing page")
    );
    assert_eq!(parse_action("select acme/repo"), action("select", "acme/repo"));
    assert_eq!(parse_action("connect   tok en "), action("connect", "tok en"));
}

#[test]
fn action_without_parameters() {
    assert_eq!(parse_action("list"), action("list", ""));
    assert_eq!(parse_action("list "), action("list", ""));
    assert_eq!(parse_action(""), action("", ""));
}

#[test]
fn action_is_matched_in_lowercase() {
    assert_eq!(parse_action("LIST_ISSUES Closed"), action("list_issues", "Closed"));
    assert_eq!(parse_action("CHEC\u{212a}_REPO"), action("check_repo", ""));
}

#[test]
fn action_after_a_leading_space_is_empty() {
    assert_eq!(parse_action(" list"), action("", "list"));
}

#[test]
fn action_word_is_trimmed_of_other_whitespace() {
    assert_eq!(split_action("\tlist\t now"), ("list".to_string(), "now".to_string()));
    assert_eq!(split_action("\tlist\n"), ("list".to_string(), "".to_string()));
}

#[test]
fn issue_splits_at_the_first_separator() {
    assert_eq!(
        parse_issue("Login fails -- Steps to reproduce"),
        Some(("Login fails".to_string(), "Steps to reproduce".to_string()))
    );
    assert_eq!(
        parse_issue(" A  --  B -- C "),
        Some(("A".to_string(), "B -- C".to_string()))
    );
}

#[test]
fn issue_without_the_separator_is_nothing() {
    assert_eq!(parse_issue("Login fails - Steps"), None);
    assert_eq!(parse_issue("Login fails--Steps"), None);
    assert_eq!(parse_issue(""), None);
}

#[test]
fn issue_sides_may_be_empty() {
    assert_eq!(parse_issue(" -- "), Some(("".to_string(), "".to_string())));
}
