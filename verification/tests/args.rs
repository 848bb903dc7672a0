use cdevent::args::{parse_comma_delimited, parse_key_val, ParseError};

fn pair(key: &str, value: &str) -> (String, String) {
    (String::from(key), String::from(value))
}

#[test]
fn parse_key_val_when_empty_string_then_error() {
    let result: Result<(String, String), ParseError> = parse_key_val("");
    assert!(result.is_err());
}

#[test]
fn parse_key_val_when_equal_sign_then_key_value() {
    let result: Result<(String, String), ParseError> = parse_key_val("x=y");
    assert_eq!(result.unwrap(), (String::from("x"), String::from("y")))
}

#[test]
fn parse_custom_data_when_empty_then_error() {
    let result: Result<Vec<(String, String)>, ParseError> = parse_comma_delimited("", "error");
    assert!(result.is_err())
}

#[test]
fn parse_custom_data_when_single_key_value_then_key_value() {
    let result: Result<Vec<(String, String)>, ParseError> =
        parse_comma_delimited("key1=value1", "error");
    assert_eq!(result.unwrap(), vec![(String::from("key1"), String::from("value1"))])
}

#[test]
fn parse_custom_data_when_multiple_key_value_then_key_value() {
    let result: Result<Vec<(String, String)>, ParseError> =
        parse_comma_delimited("key1=value1,key2=value2", "error");
    assert_eq!(
        result.unwrap(),
        vec![
            (String::from("key1"), String::from("value1")),
            (String::from("key2"), String::from("value2"))
        ]
    )
}

#[test]
fn parse_key_val_cuts_at_the_first_equal_sign() {
    assert_eq!(parse_key_val("a=b=c"), Ok(pair("a", "b=c")));
    assert_eq!(parse_key_val("=v"), Ok(pair("", "v")));
    assert_eq!(parse_key_val("k="), Ok(pair("k", "")));
    assert_eq!(parse_key_val("="), Ok(pair("", "")));
}

#[test]
fn parse_key_val_reports_the_token_without_separator() {
    assert_eq!(
        parse_key_val("novalue"),
        Err(ParseError::MissingSeparator { token: String::from("novalue") })
    );
    assert_eq!(
        parse_key_val(""),
        Err(ParseError::MissingSeparator { token: String::new() })
    );
}

#[test]
fn parse_key_val_keeps_whitespace_and_non_ascii_text() {
    assert_eq!(parse_key_val(" k = v "), Ok(pair(" k ", " v ")));
    assert_eq!(parse_key_val("clé=värde✓"), Ok(pair("clé", "värde✓")));
}

#[test]
fn parse_comma_delimited_empty_input_carries_the_callers_message() {
    assert_eq!(
        parse_comma_delimited("", "nothing given"),
        Err(ParseError::Empty { message: String::from("nothing given") })
    );
}

#[test]
fn parse_comma_delimited_yields_pairs_in_order() {
    assert_eq!(parse_comma_delimited("a=b", "e"), Ok(vec![pair("a", "b")]));
    assert_eq!(
        parse_comma_delimited("a=b,c=d", "e"),
        Ok(vec![pair("a", "b"), pair("c", "d")])
    );
}

#[test]
fn parse_comma_delimited_keeps_repeated_keys() {
    assert_eq!(
        parse_comma_delimited("a=1,a=2", "e"),
        Ok(vec![pair("a", "1"), pair("a", "2")])
    );
}

#[test]
fn parse_comma_delimited_without_any_separator_fails() {
    for input in ["a", "abc", "a,b", ",", "a b c", "é"] {
        match parse_comma_delimited(input, "e") {
            Err(ParseError::MissingSeparator { .. }) => {}
            other => panic!("{:?} gave {:?}", input, other),
        }
    }
}

#[test]
fn parse_comma_delimited_reports_the_first_bad_token() {
    assert_eq!(
        parse_comma_delimited("a=1,bad,worse,c=3", "e"),
        Err(ParseError::MissingSeparator { token: String::from("bad") })
    );
    assert_eq!(
        parse_comma_delimited("a=1,", "e"),
        Err(ParseError::MissingSeparator { token: String::new() })
    );
    assert_eq!(
        parse_comma_delimited(",a=1", "e"),
        Err(ParseError::MissingSeparator { token: String::new() })
    );
}

#[test]
fn parse_comma_delimited_does_not_trim() {
    assert_eq!(
        parse_comma_delimited(" a = b , c=d", "e"),
        Ok(vec![pair(" a ", " b "), pair(" c", "d")])
    );
}

#[test]
fn parse_error_messages() {
    assert_eq!(
        ParseError::MissingSeparator { token: String::from("abc") }.message(),
        "invalid KEY=value: no `=` found in `abc`"
    );
    assert_eq!(
        ParseError::Empty { message: String::from("No headers provided") }.message(),
        "No headers provided"
    );
}
