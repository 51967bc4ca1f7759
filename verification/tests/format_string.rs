use evegfx::format_string::{fmt_token, next_token, plan_format, ArgKind, FormatError, PlannedArg, Token};

#[test]
fn test_just_literal() {
    let got = fmt_token(&b"hello"[..]);
    let want = (&b""[..], Token::Literal(&b"hello"[..]));
    assert_eq!(got, want);
}

#[test]
fn test_just_null() {
    let got = fmt_token(&b"\x00"[..]);
    let want = (&b""[..], Token::Null(&b"\x00"[..]));
    assert_eq!(got, want);
}

#[test]
fn test_just_verb() {
    let got = fmt_token(&b"%05x"[..]);
    let want = (&b""[..], Token::Verb(&b"%05x"[..]));
    assert_eq!(got, want);
}

#[test]
fn test_just_escape() {
    let got = fmt_token(&b"%%"[..]);
    let want = (&b""[..], Token::Percent(&b"%%"[..]));
    assert_eq!(got, want);
}

#[test]
fn test_literal_then_verb() {
    let got = fmt_token(&b"hello %s"[..]);
    let want = (&b"%s"[..], Token::Literal(&b"hello "[..]));
    assert_eq!(got, want);
}

#[test]
fn test_literal_then_null() {
    let got = fmt_token(&b"hello\0world"[..]);
    let want = (&b"\0world"[..], Token::Literal(&b"hello"[..]));
    assert_eq!(got, want);
}

#[test]
fn test_verb_then_literal() {
    let got = fmt_token(&b"%-08d items"[..]);
    let want = (&b" items"[..], Token::Verb(&b"%-08d"[..]));
    assert_eq!(got, want);
}

#[test]
fn test_multiple_verbs() {
    let got = fmt_token(&b"%-08d%s"[..]);
    let want = (&b"%s"[..], Token::Verb(&b"%-08d"[..]));
    assert_eq!(got, want);
}

#[test]
fn test_multiple_escapes() {
    let got = fmt_token(&b"%%%%"[..]);
    let want = (&b"%%"[..], Token::Percent(&b"%%"[..]));
    assert_eq!(got, want);
}

#[test]
fn test_just_incomplete_verb() {
    let got = fmt_token(&b"%"[..]);
    let want = (&b""[..], Token::Unterminated(&b"%"[..]));
    assert_eq!(got, want);
}

#[test]
fn test_incomplete_verb_and_more() {
    let got = fmt_token(&b"%36435456345%"[..]);
    let want = (&b""[..], Token::Unterminated(&b"%36435456345%"[..]));
    assert_eq!(got, want);
}

#[test]
fn next_token_swaps_the_pair() {
    let (tok, rest) = next_token(&b"ab%d"[..]);
    assert_eq!(tok, Token::Literal(&b"ab"[..]));
    assert_eq!(rest, &b"%d"[..]);
    let (tok, rest) = next_token(&b""[..]);
    assert_eq!(tok, Token::Literal(&b""[..]));
    assert_eq!(rest, &b""[..]);
}

#[test]
fn plan_literal_needs_no_format() {
    let plan = plan_format(b"hello", 0).unwrap();
    assert_eq!(plan.format_chars, b"hello\0".to_vec());
    assert!(plan.args.is_empty());
    assert!(!plan.needs_fmt);
}

#[test]
fn plan_infers_argument_types() {
    let plan = plan_format(b"%d items, %-4x, %c, %s", 4).unwrap();
    assert_eq!(plan.format_chars, b"%d items, %-4x, %c, %s\0".to_vec());
    assert_eq!(
        plan.args,
        vec![
            PlannedArg::Given(ArgKind::Int, 0),
            PlannedArg::Given(ArgKind::UInt, 1),
            PlannedArg::Given(ArgKind::Char, 2),
            PlannedArg::Given(ArgKind::String, 3),
        ]
    );
    assert!(plan.needs_fmt);
}

#[test]
fn plan_escapes_and_nulls() {
    let plan = plan_format(b"100%%\0!", 0).unwrap();
    assert_eq!(plan.format_chars, b"100%%%c!\0".to_vec());
    assert_eq!(plan.args, vec![PlannedArg::NullChar]);
    assert!(plan.needs_fmt);
}

#[test]
fn plan_errors() {
    assert_eq!(plan_format(b"%d %d", 1), Err(FormatError::MissingArgument(1)));
    assert_eq!(plan_format(b"%q", 1), Err(FormatError::UnsupportedVerb(b'q')));
    assert_eq!(plan_format(b"abc %5", 0), Err(FormatError::Unterminated));
    assert_eq!(plan_format(b"%d", 3), Err(FormatError::TooManyArguments(1)));
}
