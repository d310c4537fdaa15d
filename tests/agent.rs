use december::{reply_for, select_rule, CodingAgent, DecemberError, Rule};

const SCAFFOLD: &str = "Plan:\n1. Create a Cargo project scaffold.\n2. Add CLI argument parsing and command routing.\n3. Add agent/memory modules.\n4. Run `cargo fmt` and `cargo check`.";
const FIX: &str = "Plan:\n1. Reproduce the issue.\n2. Identify the failing code path.\n3. Patch with the smallest safe change.\n4. Run checks and summarize impact.";

fn fallback(prompt: &str) -> String {
    format!(
        "I can help with that. First action: inspect the repository and current build status for: \"{}\"",
        prompt
    )
}

#[test]
fn blank_prompt_is_refused_without_recording() {
    let mut agent = CodingAgent::new();
    assert_eq!(agent.respond("  "), Err(DecemberError::EmptyPrompt));
    assert_eq!(agent.respond(""), Err(DecemberError::EmptyPrompt));
    assert_eq!(agent.respond("\t\n "), Err(DecemberError::EmptyPrompt));
    assert_eq!(agent.history(10), "");
}

#[test]
fn blank_prompt_leaves_existing_history() {
    let mut agent = CodingAgent::new();
    agent.respond("a").unwrap();
    let before = agent.history(10);
    assert!(agent.respond("   ").is_err());
    assert_eq!(agent.history(10), before);
}

#[test]
fn init_rust_gets_scaffold_plan() {
    let mut agent = CodingAgent::new();
    let reply = agent.respond("please init a rust project").unwrap();
    assert_eq!(reply, SCAFFOLD);
    assert_eq!(agent.history(10), format!("You: please init a rust project\nDecember: {}", SCAFFOLD));
}

#[test]
fn bug_gets_fix_plan() {
    let mut agent = CodingAgent::new();
    let reply = agent.respond("there's a bug here, please fix it").unwrap();
    assert_eq!(reply, FIX);
    assert_eq!(
        agent.history(10),
        format!("You: there's a bug here, please fix it\nDecember: {}", FIX)
    );
}

#[test]
fn other_prompt_gets_fallback_with_prompt_verbatim() {
    let mut agent = CodingAgent::new();
    let reply = agent.respond("add a logging module").unwrap();
    assert_eq!(
        reply,
        "I can help with that. First action: inspect the repository and current build status for: \"add a logging module\""
    );
}

#[test]
fn fallback_quotes_trimmed_prompt_with_its_case() {
    let mut agent = CodingAgent::new();
    let reply = agent.respond("   Add A Logging Module \n").unwrap();
    assert_eq!(reply, fallback("Add A Logging Module"));
    assert_eq!(
        agent.history(1),
        format!("December: {}", fallback("Add A Logging Module"))
    );
    assert_eq!(agent.history(2).lines().next(), Some("You: Add A Logging Module"));
}

#[test]
fn matching_ignores_case() {
    let mut agent = CodingAgent::new();
    assert_eq!(agent.respond("INIT a RUST crate").unwrap(), SCAFFOLD);
    assert_eq!(agent.respond("Fix the parser").unwrap(), FIX);
    assert_eq!(agent.respond("A BUG appeared").unwrap(), FIX);
}

#[test]
fn scaffold_outranks_fix() {
    let mut agent = CodingAgent::new();
    let reply = agent.respond("init rust and fix the bug").unwrap();
    assert_eq!(reply, SCAFFOLD);
    assert_eq!(select_rule("fix the bug in my rust init"), Rule::Scaffold);
}

#[test]
fn init_alone_is_not_scaffold() {
    assert_eq!(select_rule("init a python project"), Rule::Fallback);
    assert_eq!(select_rule("write some rust"), Rule::Fallback);
    assert_eq!(select_rule("debug it"), Rule::Fix);
}

#[test]
fn each_turn_appends_user_then_assistant() {
    let mut agent = CodingAgent::new();
    agent.respond("a").unwrap();
    agent.respond("c").unwrap();
    let all = agent.history(usize::MAX);
    let lines: Vec<&str> = all.lines().collect();
    assert_eq!(lines.len(), 4);
    assert_eq!(lines[0], "You: a");
    assert_eq!(lines[1], format!("December: {}", fallback("a")));
    assert_eq!(lines[2], "You: c");
    assert_eq!(lines[3], format!("December: {}", fallback("c")));
}

#[test]
fn history_window_after_two_turns() {
    let mut agent = CodingAgent::new();
    agent.respond("a").unwrap();
    agent.respond("c").unwrap();
    assert_eq!(agent.history(2), format!("You: c\nDecember: {}", fallback("c")));
}

#[test]
fn reply_for_uses_given_lowercase_form() {
    assert_eq!(reply_for("Anything", "init rust"), SCAFFOLD);
    assert_eq!(reply_for("Anything", "a bug"), FIX);
    assert_eq!(reply_for("Anything", "INIT RUST"), fallback("Anything"));
}

#[test]
fn rules_match_on_their_own() {
    assert!(Rule::Scaffold.matches("init rust"));
    assert!(!Rule::Scaffold.matches("init"));
    assert!(Rule::Fix.matches("prefix"));
    assert!(!Rule::Fix.matches("nothing"));
    assert!(Rule::Fallback.matches(""));
    assert_eq!(Rule::Fallback.reply("x y"), fallback("x y"));
    assert_eq!(Rule::Fix.reply("x"), FIX);
}

#[test]
fn error_message() {
    assert_eq!(DecemberError::EmptyPrompt.message(), "Prompt cannot be empty");
}
