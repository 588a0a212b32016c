use ruostepurkki::command::{parse_command, Command};

#[test]
fn command_parser() {
    assert_eq!(parse_command("go gemini://localhost"), Some(Command::Go("gemini://localhost".to_string())));
    assert_eq!(parse_command(" q "), Some(Command::Quit));
    assert_eq!(parse_command("q"), Some(Command::Quit));
    assert_eq!(parse_command("not a command"), Some(Command::Unknown("not".to_string())));
    assert_eq!(parse_command("2"), Some(Command::Link(2)));
    assert_eq!(parse_command(" 17 "), Some(Command::Link(17)));
}

#[test]
fn command_link_seventeen() {
    assert_eq!(parse_command("17"), Some(Command::Link(17)));
}

#[test]
fn command_short_go_and_quit() {
    assert_eq!(parse_command("g   other.gmi"), Some(Command::Go("other.gmi".to_string())));
    assert_eq!(parse_command("  quit now"), Some(Command::Quit));
    assert_eq!(parse_command("go"), Some(Command::Unknown("go".to_string())));
    assert_eq!(parse_command("quit"), Some(Command::Quit));
    assert_eq!(parse_command("q\tbye"), Some(Command::Quit));
    assert_eq!(parse_command("qux"), Some(Command::Unknown("qux".to_string())));
    assert_eq!(parse_command("quitting"), Some(Command::Unknown("quitting".to_string())));
}

#[test]
fn command_blank_and_odd_numbers() {
    assert_eq!(parse_command(""), None);
    assert_eq!(parse_command("   "), None);
    assert_eq!(parse_command("0"), Some(Command::Unknown("0".to_string())));
    assert_eq!(parse_command("99999999999999999999999"), Some(Command::Unknown("99999999999999999999999".to_string())));
    assert_eq!(parse_command("3 x"), Some(Command::Unknown("3".to_string())));
}
