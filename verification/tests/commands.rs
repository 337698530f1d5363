use file_search::command::{parse_command, parse_line, Command};

fn unknown(name: &str, arg: Option<&str>) -> String {
    format!("{:?}", Command::Unknown { name: name.to_string(), arg: arg.map(|a| a.to_string()) })
}

fn shown(command: Option<Command>) -> String {
    match command {
        Some(command) => format!("{:?}", command),
        None => "nothing".to_string(),
    }
}

#[test]
fn commands_without_argument() {
    assert!(matches!(parse_line("help"), Some(Command::Help)));
    assert!(matches!(parse_line("list"), Some(Command::List)));
    assert!(matches!(parse_line("clear"), Some(Command::Clear)));
    assert!(matches!(parse_line("commit"), Some(Command::Commit)));
    assert!(matches!(parse_line("rollback"), Some(Command::Rollback)));
    assert!(matches!(parse_line("exit"), Some(Command::Exit)));
}

#[test]
fn commands_with_argument() {
    assert_eq!(shown(parse_line("add a.txt")), format!("{:?}", Command::Add("a.txt".to_string())));
    assert_eq!(
        shown(parse_line("remove /tmp/b c.txt")),
        format!("{:?}", Command::Remove("/tmp/b c.txt".to_string()))
    );
    assert_eq!(
        shown(parse_line("search content:quick AND fox")),
        format!("{:?}", Command::Search("content:quick AND fox".to_string()))
    );
}

#[test]
fn argument_is_trimmed() {
    assert_eq!(shown(parse_line("add   a.txt \t")), format!("{:?}", Command::Add("a.txt".to_string())));
    assert_eq!(shown(parse_line("add \u{a0}a.txt\u{3000}")), format!("{:?}", Command::Add("a.txt".to_string())));
    assert_eq!(shown(parse_line("add ")), format!("{:?}", Command::Add(String::new())));
}

#[test]
fn name_is_trimmed() {
    assert!(matches!(parse_line("list\t"), Some(Command::List)));
    assert!(matches!(parse_line("\thelp\r\n"), Some(Command::Help)));
    assert_eq!(shown(parse_line("\tadd x")), format!("{:?}", Command::Add("x".to_string())));
}

#[test]
fn blank_lines_hold_no_command() {
    assert!(parse_line("").is_none());
    assert!(parse_line("   ").is_none());
    assert!(parse_line(" \t\r\n").is_none());
    assert!(parse_line("\u{2003}").is_none());
}

#[test]
fn wrong_arity_is_unknown() {
    assert_eq!(shown(parse_line("add")), unknown("add", None));
    assert_eq!(shown(parse_line("search")), unknown("search", None));
    assert_eq!(shown(parse_line("commit now")), unknown("commit", Some("now")));
    assert_eq!(shown(parse_line("help ")), unknown("help", Some("")));
}

#[test]
fn the_name_ends_at_the_first_space() {
    assert_eq!(shown(parse_line(" help")), unknown("", Some("help")));
    assert_eq!(shown(parse_line(" add x")), unknown("", Some("add x")));
}

#[test]
fn other_names_are_unknown() {
    assert_eq!(shown(parse_line("Help")), unknown("Help", None));
    assert_eq!(shown(parse_line("delete a.txt")), unknown("delete", Some("a.txt")));
    assert_eq!(shown(parse_line("x")), unknown("x", None));
}

#[test]
fn name_and_argument_given_apart() {
    assert!(matches!(parse_command(" exit ", None), Command::Exit));
    assert_eq!(
        format!("{:?}", parse_command("add", Some("  a b  "))),
        format!("{:?}", Command::Add("a b".to_string()))
    );
    assert_eq!(format!("{:?}", parse_command("exit", Some(""))), unknown("exit", Some("")));
}
