use mylog::command::Command;

#[test]
fn test_command_from_str() {
    assert_eq!(
        Command::from_str("date 2025-2-15"),
        Ok(Command::SetDate("2025-2-15".to_owned()))
    );
    assert_eq!(
        Command::from_str("date 2021-12-5"),
        Ok(Command::SetDate("2021-12-5".to_owned()))
    );
    assert_eq!(Command::from_str("date"), Ok(Command::ShowDate));
}

#[test]
fn command_other_buffers_do_nothing() {
    assert_eq!(Command::from_str(""), Ok(Command::NoOp));
    assert_eq!(Command::from_str("   "), Ok(Command::NoOp));
    assert_eq!(Command::from_str("quit"), Ok(Command::NoOp));
    assert_eq!(Command::from_str("date 2025-2-15 extra"), Ok(Command::NoOp));
    assert_eq!(Command::from_str("dates"), Ok(Command::NoOp));
    assert_eq!(Command::from_str("Date"), Ok(Command::NoOp));
}

#[test]
fn command_words_are_split_at_any_whitespace() {
    assert_eq!(
        Command::from_str("  date\t2025-2-15\u{3000}"),
        Ok(Command::SetDate("2025-2-15".to_owned()))
    );
    assert_eq!(Command::from_str("\n date \n"), Ok(Command::ShowDate));
}
