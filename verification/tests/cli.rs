use lazytrees::cli::{
    command_of, default_agent_command, help_text, is_help_request, parse_launch_options,
    parse_new_options, parse_open_options, parse_remove_options, required_arg, Command,
};

fn args(words: &[&str]) -> Vec<String> {
    words.iter().map(|word| word.to_string()).collect()
}

fn failure<T>(result: Result<T, lazytrees::error::AppError>) -> String {
    match result {
        Ok(_) => panic!("expected an error"),
        Err(error) => error.to_text(),
    }
}

#[test]
fn parse_new_options_treats_agent_as_remaining_command() {
    let args = vec![
        "feat/demo".to_owned(),
        "--base".to_owned(),
        "main".to_owned(),
        "--agent".to_owned(),
        "opencode".to_owned(),
        "--continue".to_owned(),
    ];

    let options = parse_new_options(&args).expect("options parse");

    assert_eq!(options.branch.as_deref(), Some("feat/demo"));
    assert_eq!(options.base.as_deref(), Some("main"));
    assert_eq!(
        options.agent_command.as_deref(),
        Some("opencode --continue")
    );
}

#[test]
fn parse_launch_options_accepts_path_positionally() {
    let args = vec![
        "../repo-worktrees/feat".to_owned(),
        "--agent".to_owned(),
        "opencode".to_owned(),
    ];

    let options = parse_launch_options(&args).expect("options parse");

    assert_eq!(
        options.path.as_deref().map(std::path::Path::new),
        Some(std::path::Path::new("../repo-worktrees/feat"))
    );
    assert_eq!(options.agent_command.as_deref(), Some("opencode"));
}

#[test]
fn parse_remove_options_accepts_path_positionally() {
    let args = vec!["../repo-worktrees/feat".to_owned()];

    let options = parse_remove_options(&args).expect("options parse");

    assert_eq!(
        options.path.as_deref().map(std::path::Path::new),
        Some(std::path::Path::new("../repo-worktrees/feat"))
    );
}

#[test]
fn help_is_asked_for_anywhere() {
    assert!(is_help_request(&args(&["new", "x", "-h"])));
    assert!(is_help_request(&args(&["--help"])));
    assert!(!is_help_request(&args(&["help"])));
    assert!(!is_help_request(&args(&[])));
    assert!(!is_help_request(&args(&["--helpful", "-hh"])));
}

#[test]
fn help_lists_the_commands() {
    let help = help_text();
    assert!(help.starts_with("lazytrees\n\nInteractive TUI for Git worktrees"));
    assert!(help.contains("  lazytrees launch [options]        launch an agent in a worktree\n"));
    assert!(help.contains("defaults to WT_AGENT_CMD or opencode\n\n"));
    assert!(help.ends_with("  lazytrees remove ../repo-worktrees/feature-search\n"));
}

#[test]
fn commands_are_told_apart() {
    assert_eq!(command_of(&args(&[])), Ok(Command::Tui));
    assert_eq!(command_of(&args(&["tui"])), Ok(Command::Tui));
    assert_eq!(command_of(&args(&["new", "x"])), Ok(Command::New));
    assert_eq!(command_of(&args(&["list"])), Ok(Command::List));
    assert_eq!(command_of(&args(&["launch"])), Ok(Command::Launch));
    assert_eq!(command_of(&args(&["open"])), Ok(Command::Open));
    assert_eq!(command_of(&args(&["remove"])), Ok(Command::Remove));
    assert_eq!(command_of(&args(&["rm"])), Ok(Command::Remove));
    assert_eq!(command_of(&args(&["prune"])), Ok(Command::Prune));
    assert_eq!(command_of(&args(&["help"])), Ok(Command::Help));
    assert_eq!(
        failure(command_of(&args(&["frob"]))),
        "unknown command `frob`. Run `lazytrees --help`."
    );
}

#[test]
fn both_forms_of_an_option_agree() {
    let apart = parse_new_options(&args(&["--base", "main", "--path", "../x", "topic"]));
    let joined = parse_new_options(&args(&["--base=main", "--path=../x", "topic"]));
    let options = apart.expect("options parse");
    assert_eq!(options.base.as_deref(), Some("main"));
    assert_eq!(options.path.as_deref(), Some("../x"));
    assert_eq!(options.branch.as_deref(), Some("topic"));
    assert_eq!(options.agent_command, None);
    assert_eq!(joined, Ok(options));

    assert_eq!(
        parse_launch_options(&args(&["--agent=top -u", "--path=/a"])),
        parse_launch_options(&args(&["--path", "/a", "--agent", "top", "-u"]))
    );
    assert_eq!(
        parse_remove_options(&args(&["--path=/a"])),
        parse_remove_options(&args(&["--path", "/a"]))
    );
    assert_eq!(
        parse_remove_options(&args(&["/a"])),
        parse_remove_options(&args(&["--path", "/a"]))
    );
}

#[test]
fn later_options_win_and_values_may_look_like_options() {
    let options = parse_new_options(&args(&["--base", "a", "--base", "--b"])).expect("parse");
    assert_eq!(options.base.as_deref(), Some("--b"));
    let options = parse_new_options(&args(&["--agent=one", "--agent="])).expect("parse");
    assert_eq!(options.agent_command.as_deref(), Some(""));
}

#[test]
fn a_path_after_path_option_is_extra() {
    assert_eq!(
        failure(parse_launch_options(&args(&["--path", "/a", "/b"]))),
        "unexpected extra argument `/b`"
    );
    let options = parse_launch_options(&args(&["/b", "--path", "/a"])).expect("parse");
    assert_eq!(options.path.as_deref(), Some("/a"));
}

#[test]
fn wrong_arguments_are_named() {
    assert_eq!(
        failure(parse_new_options(&args(&["--base"]))),
        "--base requires a value"
    );
    assert_eq!(
        failure(parse_new_options(&args(&["--path"]))),
        "--path requires a value"
    );
    assert_eq!(
        failure(parse_new_options(&args(&["--agent"]))),
        "--agent requires a command"
    );
    assert_eq!(
        failure(parse_new_options(&args(&["--frob"]))),
        "unknown option `--frob`"
    );
    assert_eq!(
        failure(parse_new_options(&args(&["-"]))),
        "unknown option `-`"
    );
    assert_eq!(
        failure(parse_new_options(&args(&["a", "b"]))),
        "unexpected extra argument `b`"
    );
    assert_eq!(
        failure(parse_launch_options(&args(&["--agent"]))),
        "--agent requires a command"
    );
    assert_eq!(
        failure(parse_launch_options(&args(&["--base", "x"]))),
        "unknown option `--base`"
    );
    assert_eq!(
        failure(parse_remove_options(&args(&["--agent=x"]))),
        "unknown option `--agent=x`"
    );
    assert_eq!(
        failure(parse_remove_options(&args(&["a", "b"]))),
        "unexpected extra argument `b`"
    );
    assert_eq!(
        failure(parse_open_options(&args(&["--path"]))),
        "--path requires a value"
    );
}

#[test]
fn open_takes_a_path() {
    let options = parse_open_options(&args(&["/a"])).expect("parse");
    assert_eq!(options.path.as_deref(), Some("/a"));
    let options = parse_open_options(&args(&[])).expect("parse");
    assert_eq!(options.path, None);
}

#[test]
fn required_arguments_are_there_or_named() {
    let words = args(&["a", "b"]);
    assert_eq!(required_arg(&words, 1, "--x"), Ok("b"));
    assert_eq!(failure(required_arg(&words, 2, "--x")), "--x requires a value");
}

#[test]
fn agent_command_is_set_or_opencode() {
    assert_eq!(default_agent_command(Some("aider".to_owned())), "aider");
    assert_eq!(default_agent_command(None), "opencode");
}
