use entrance::{
    collect_converted, conversion_result, parse_argument, parse_variable_argument, Error,
    ErrorKind, Result, Tokens,
};
use std::path::PathBuf;

#[test]
fn test_parse_argument() {
    let parsed: Result<f64> = parse_argument("1.0".to_string());
    assert!(parsed.is_ok());
    assert_eq!(parsed.unwrap(), 1.0);

    let parsed: Result<f64> = parse_argument("not float number".to_string());
    assert!(parsed.is_err());
    let is_parse_error = match parsed.unwrap_err() {
        Error::ParseError(_) => true,
        _ => false,
    };
    assert!(is_parse_error);
}

#[test]
fn test_parse_variable_argument() {
    let args = vec!["1.0", "2.0", "3.0"].into_iter().map(String::from);
    let mut args = Tokens::new(args.collect());
    let parsed: Result<Vec<f64>> = parse_variable_argument(&mut args);
    assert!(parsed.is_ok());
    assert_eq!(parsed.unwrap(), vec![1.0, 2.0, 3.0]);

    let args = vec!["1.0", "not float number", "3.0"]
        .into_iter()
        .map(String::from);
    let mut args = Tokens::new(args.collect());
    let parsed: Result<Vec<f64>> = parse_variable_argument(&mut args);
    assert!(parsed.is_err());
    let is_parse_error = match parsed.unwrap_err() {
        Error::ParseError(_) => true,
        _ => false,
    };
    assert!(is_parse_error);
}

#[test]
fn parse_argument_converts_and_does_not_echo() {
    let parsed: Result<i32> = parse_argument("123".to_string());
    assert_eq!(parsed.unwrap(), 123);
    let parsed: Result<PathBuf> = parse_argument("path/to/file".to_string());
    assert_eq!(parsed.unwrap(), PathBuf::from("path/to/file"));
}

#[test]
fn parse_error_keeps_the_message_of_the_conversion() {
    let parsed: Result<i32> = parse_argument("12x".to_string());
    let expected = "12x".parse::<i32>().unwrap_err().to_string();
    match parsed.unwrap_err() {
        Error::ParseError(message) => assert_eq!(message, expected),
        other => panic!("unexpected error: {:?}", other),
    }
}

#[test]
fn variable_argument_of_no_tokens_is_empty() {
    let mut args = Tokens::new(Vec::new());
    let parsed: Result<Vec<i32>> = parse_variable_argument(&mut args);
    assert_eq!(parsed.unwrap(), Vec::<i32>::new());
}

#[test]
fn variable_argument_takes_every_token() {
    let mut args = Tokens::new(vec!["7".to_string(), "-8".to_string(), "9".to_string()]);
    let parsed: Result<Vec<i32>> = parse_variable_argument(&mut args);
    assert_eq!(parsed.unwrap(), vec![7, -8, 9]);
    assert!(args.is_empty());
    assert_eq!(args.consumed(), 3);
}

#[test]
fn variable_argument_stops_at_the_first_failure() {
    let mut args = Tokens::new(vec!["7".to_string(), "x".to_string(), "9".to_string()]);
    let parsed: Result<Vec<i32>> = parse_variable_argument(&mut args);
    assert_eq!(parsed.unwrap_err().kind(), ErrorKind::ParseError);
    assert_eq!(args.consumed(), 2);
    assert_eq!(args.peek(), Some("9"));
}

#[test]
fn conversion_result_passes_a_value_on() {
    let parsed: Result<u8> = conversion_result(Ok(5));
    assert_eq!(parsed.unwrap(), 5);
}

#[test]
fn conversion_result_wraps_a_failure() {
    let parsed: Result<u8> = conversion_result(Err("no digits".to_string()));
    let error = parsed.unwrap_err();
    assert_eq!(error.kind(), ErrorKind::ParseError);
    assert_eq!(error.to_string(), "Failed to parse");
    match error {
        Error::ParseError(message) => assert_eq!(message, "no digits"),
        other => panic!("unexpected error: {:?}", other),
    }
}

#[test]
fn collect_converted_keeps_the_order() {
    let parsed = collect_converted(vec![Ok(3), Ok(1), Ok(2)]);
    assert_eq!(parsed.unwrap(), vec![3, 1, 2]);
    let parsed = collect_converted(Vec::<std::result::Result<u8, String>>::new());
    assert_eq!(parsed.unwrap(), Vec::<u8>::new());
}

#[test]
fn collect_converted_reports_the_first_failure() {
    let parsed = collect_converted(vec![
        Ok(3),
        Err("first".to_string()),
        Ok(2),
        Err("second".to_string()),
    ]);
    match parsed.unwrap_err() {
        Error::ParseError(message) => assert_eq!(message, "first"),
        other => panic!("unexpected error: {:?}", other),
    }
}
