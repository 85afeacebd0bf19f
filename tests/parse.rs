use line_protocol::text::white_space;
use line_protocol::{check_for_newline, parse, Command, Error};

#[test]
fn test_publish() {
    let line = "PUBLISH TestMessage\n";
    let result: Result<Command, Error> = parse(line);
    let expected = Ok(Command::Publish("TestMessage".into()));
    assert_eq!(result, expected);
}

#[test]
fn unexpected_payload_without_newline() {
    let line = "PUBLISH TestMessage";
    let result: Result<Command, Error> = parse(line);
    let expected = Err(Error::UnexpectedPayload);
    assert_eq!(result, expected);
}

#[test]
fn error_empty_message_when_none_value() {
    let line = "";
    let result: Result<Command, Error> = parse(line);
    let expected = Err(Error::EmptyMessage);
    assert_eq!(result, expected);
}

#[test]
fn retrieve_with_newline() {
    assert_eq!(parse("RETRIEVE\n"), Ok(Command::Retrieve));
}

#[test]
fn empty_payload() {
    assert_eq!(parse("PUBLISH \n"), Ok(Command::Publish(String::new())));
}

#[test]
fn unknown_verb_with_payload() {
    assert_eq!(parse("FOO bar\n"), Err(Error::UnknownVerb));
}

#[test]
fn unknown_verb_alone() {
    assert_eq!(parse("WIBBLE\n"), Err(Error::UnknownVerb));
}

#[test]
fn publish_without_payload() {
    assert_eq!(parse("PUBLISH"), Err(Error::MissingPayload));
    assert_eq!(parse("PUBLISH\n"), Err(Error::MissingPayload));
}

#[test]
fn blank_lines_are_empty() {
    assert_eq!(parse(" "), Err(Error::EmptyMessage));
    assert_eq!(parse("   \t "), Err(Error::EmptyMessage));
    assert_eq!(parse("\n"), Err(Error::EmptyMessage));
    assert_eq!(parse(" PUBLISH x\n"), Err(Error::EmptyMessage));
}

#[test]
fn round_trip_keeps_spaces_and_unicode() {
    for p in ["hello world", "  padded  ", "tab\there", "ünïcödé ✓", "\0ctrl\r", ""] {
        let line = format!("PUBLISH {}\n", p);
        assert_eq!(parse(&line), Ok(Command::Publish(p.to_string())));
    }
}

#[test]
fn missing_terminator_is_unexpected_payload() {
    for p in ["", "x", "trailing space ", "tab\t", "cr\r", "a\nb"] {
        let line = format!("PUBLISH {}", p);
        assert_eq!(parse(&line), Err(Error::UnexpectedPayload));
    }
}

#[test]
fn data_after_first_newline_is_rejected() {
    assert_eq!(parse("PUBLISH a\nb\n"), Err(Error::UnexpectedPayload));
    assert_eq!(parse("PUBLISH \n\n"), Err(Error::UnexpectedPayload));
    assert_eq!(parse("PUBLISH\n x\n"), Err(Error::UnexpectedPayload));
    assert_eq!(parse("RETRIEVE\n\n"), Err(Error::UnexpectedPayload));
}

#[test]
fn verb_is_trimmed() {
    assert_eq!(parse("\tRETRIEVE\n"), Ok(Command::Retrieve));
    assert_eq!(parse("PUBLISH\t x\n"), Ok(Command::Publish("x".to_string())));
}

#[test]
fn verbs_are_case_sensitive() {
    assert_eq!(parse("publish x\n"), Err(Error::UnknownVerb));
    assert_eq!(parse("Retrieve\n"), Err(Error::UnknownVerb));
}

#[test]
fn retrieve_with_payload_is_rejected() {
    assert_eq!(parse("RETRIEVE x\n"), Err(Error::UnexpectedPayload));
    assert_eq!(parse("RETRIEVE \n"), Err(Error::UnexpectedPayload));
}

#[test]
fn retrieve_without_newline_is_incomplete() {
    assert_eq!(parse("RETRIEVE"), Err(Error::IncompleteMessage));
    assert_eq!(parse("RETRIEVE\t"), Err(Error::IncompleteMessage));
}

#[test]
fn newline_check() {
    assert!(check_for_newline("abc\n"));
    assert!(check_for_newline("\n"));
    assert!(!check_for_newline("abc"));
    assert!(!check_for_newline("abc "));
    assert!(!check_for_newline(""));
}

#[test]
fn white_space_matches_std() {
    for c in ['\t', '\n', '\r', ' ', '\u{85}', '\u{a0}', '\u{2003}', '\u{3000}', 'a', '\0', 'x'] {
        assert_eq!(white_space(c), c.is_whitespace());
    }
}
