use december::{classify_line, join_words, Args, ChatCommand, Command};

#[test]
fn classify_meta_commands() {
    assert_eq!(classify_line("/exit"), ChatCommand::Exit);
    assert_eq!(classify_line("  /quit \n"), ChatCommand::Exit);
    assert_eq!(classify_line("/help"), ChatCommand::Help);
    assert_eq!(classify_line("/history"), ChatCommand::History);
    assert_eq!(classify_line("   "), ChatCommand::Skip);
    assert_eq!(classify_line(""), ChatCommand::Skip);
}

#[test]
fn classify_prompts() {
    assert_eq!(classify_line("fix the bug"), ChatCommand::Prompt);
    assert_eq!(classify_line("/exit now"), ChatCommand::Prompt);
    assert_eq!(classify_line("/HELP"), ChatCommand::Prompt);
}

#[test]
fn join_words_with_single_spaces() {
    let words = vec![String::from("init"), String::from("a"), String::from("rust")];
    assert_eq!(join_words(&words), "init a rust");
    assert_eq!(join_words(&vec![String::from("one")]), "one");
    assert_eq!(join_words(&Vec::new()), "");
}

#[test]
fn missing_subcommand_means_chat() {
    assert!(matches!(Args { command: None }.into_command(), Command::Chat));
    let run = Args { command: Some(Command::Run { prompt: vec![String::from("x")] }) };
    match run.into_command() {
        Command::Run { prompt } => assert_eq!(prompt, vec![String::from("x")]),
        Command::Chat => panic!("expected the run command"),
    }
}
