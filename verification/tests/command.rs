use bang::command::{
    after_kill, after_read, CommandBuilder, CommandError, KillOutcome, KillStep, ReadStep,
};

fn builder(command: &str, name: Option<&str>, dir: Option<&str>) -> CommandBuilder {
    CommandBuilder::new(
        command.to_string(),
        name.map(|n| n.to_string()),
        dir.map(|d| d.to_string()),
    )
}

#[test]
fn plan_splits_the_command_line() {
    let plan = builder("ping -i 0.1 localhost", None, None).plan("/cfg").unwrap();
    assert_eq!(plan.program, "ping");
    assert_eq!(plan.args, vec!["-i", "0.1", "localhost"]);
    assert_eq!(plan.name, "ping -i 0.1 localhost");
    assert_eq!(plan.dir, "/cfg");
}

#[test]
fn plan_removes_quotes() {
    let plan = builder("sh -c 'echo a b' \"x y\" z\\ w", None, None).plan("/cfg").unwrap();
    assert_eq!(plan.program, "sh");
    assert_eq!(plan.args, vec!["-c", "echo a b", "x y", "z w"]);
}

#[test]
fn plan_uses_the_given_name() {
    let plan = builder("ls", Some("list config dir"), Some("/tmp")).plan("/cfg").unwrap();
    assert_eq!(plan.name, "list config dir");
    assert_eq!(plan.program, "ls");
    assert!(plan.args.is_empty());
    assert_eq!(plan.dir, "/tmp");
}

#[test]
fn plan_expands_tilde_in_running_dir() {
    let plan = builder("ls", None, Some("~/.config/")).plan("/cfg").unwrap();
    let home = dirs::home_dir().unwrap();
    let expected = home.join(".config");
    assert_eq!(plan.dir, expected.to_str().unwrap());
}

#[test]
fn plan_takes_relative_running_dir_against_config_dir() {
    let plan = builder("ls", None, Some("sub/dir")).plan("/cfg").unwrap();
    assert_eq!(plan.dir, "/cfg/sub/dir");
    let plan = builder("ls", None, Some("./sub/")).plan("/cfg/").unwrap();
    assert_eq!(plan.dir, "/cfg/./sub/");
}

#[test]
fn unmatched_quote_is_an_error() {
    assert_eq!(builder("echo 'oops", None, None).plan("/cfg").unwrap_err(), CommandError::UnmatchedQuote);
    assert_eq!(builder("echo \"oops", None, None).plan("/cfg").unwrap_err(), CommandError::UnmatchedQuote);
}

#[test]
fn empty_command_is_an_error() {
    assert_eq!(builder("", None, None).plan("/cfg").unwrap_err(), CommandError::Empty);
    assert_eq!(builder("   # only a comment", None, None).plan("/cfg").unwrap_err(), CommandError::Empty);
}

#[test]
fn plan_with_words_uses_the_given_home() {
    let b = builder("ls", None, Some("~/x"));
    let plan = b.plan_with_words(vec!["ls".to_string()], "/cfg", Some("/home/u"));
    assert_eq!(plan.dir, "/home/u/x");
    assert_eq!(plan.program, "ls");
    let plan = b.plan_with_words(vec!["ls".to_string()], "/cfg", Some("/"));
    assert_eq!(plan.dir, "/x");
    let no_tilde = builder("ls", None, Some("/x")).plan_with_words(vec!["ls".to_string()], "/cfg", None);
    assert_eq!(no_tilde.dir, "/x");
    let no_dir = builder("ls", None, None).plan_with_words(vec!["ls".to_string()], "/cfg", None);
    assert_eq!(no_dir.dir, "/cfg");
}

#[test]
fn display_name_falls_back_to_the_command() {
    assert_eq!(builder("ls -a", None, None).display_name(), "ls -a");
    assert_eq!(builder("ls -a", Some("files"), None).display_name(), "files");
}

#[test]
fn kill_tolerates_an_already_killed_process() {
    assert_eq!(after_kill(KillOutcome::Killed), KillStep::Wait);
    assert_eq!(after_kill(KillOutcome::AlreadyKilled), KillStep::Wait);
    assert_eq!(after_kill(KillOutcome::Failed), KillStep::Fail);
}

#[test]
fn reading_stops_at_end_of_output() {
    assert_eq!(after_read(Some(0)), ReadStep::Stop);
    assert_eq!(after_read(Some(12)), ReadStep::Append);
    assert_eq!(after_read(None), ReadStep::Retry);
}

#[test]
fn command_error_messages() {
    assert_eq!(CommandError::UnmatchedQuote.message(), "missing closing quote");
    assert_eq!(CommandError::Empty.message(), "Command should not be empty");
    assert_eq!(CommandError::NoHomeDirectory.message(), "home directory not found");
}

#[test]
fn running_dir_is_taken_against_config_dir() {
    assert_eq!(bang::command::running_dir("/cfg", None), "/cfg");
    assert_eq!(bang::command::running_dir("/cfg", Some("/home/u/.config")), "/home/u/.config");
    assert_eq!(bang::command::running_dir("/cfg", Some("rel")), "/cfg/rel");
}

fn value_str(v: &toml::Value, key: &str) -> Option<String> {
    v.get(key).and_then(|x| x.as_str()).map(|s| s.to_string())
}

#[test]
fn readme_config_example() {
    let text = r#"
commands = [
    {command = "ping -i 0.1 localhost"},
    {command = "ping 1.1.1.1"},
    {command = "ls", name = "list config dir", running_dir="~/.config/"},
]
"#;
    let value: toml::Value = toml::from_str(text).unwrap();
    let builders: Vec<CommandBuilder> = value["commands"]
        .as_array()
        .unwrap()
        .iter()
        .map(|c| {
            CommandBuilder::new(
                value_str(c, "command").unwrap(),
                value_str(c, "name"),
                value_str(c, "running_dir"),
            )
        })
        .collect();
    let plans: Vec<_> = builders.iter().map(|b| b.plan("/cfg").unwrap()).collect();
    assert_eq!(plans[0].program, "ping");
    assert_eq!(plans[0].args, vec!["-i", "0.1", "localhost"]);
    assert_eq!(plans[0].name, "ping -i 0.1 localhost");
    assert_eq!(plans[1].program, "ping");
    assert_eq!(plans[1].args, vec!["1.1.1.1"]);
    assert_eq!(plans[2].program, "ls");
    assert_eq!(plans[2].name, "list config dir");
    let home = dirs::home_dir().unwrap();
    assert_eq!(plans[2].dir, home.join(".config").to_str().unwrap());
    assert_eq!(plans[0].dir, "/cfg");
}
