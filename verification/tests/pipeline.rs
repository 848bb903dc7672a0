use cdevent::args::ParseError;
use cdevent::dispatch::{DispatchError, DispatchOutcome};
use cdevent::pipeline::{exit_code, prepare, static_headers, user_headers, Failure};
use cdevent::service::{BuildError, DeployedFlags, Field, SerializeError, ValidationError};

fn flags() -> DeployedFlags {
    DeployedFlags {
        id: String::from("e1"),
        source: String::from("svc"),
        subid: String::from("sub1"),
        envid: String::from("prod"),
        envname: Some(String::from("production")),
        envsource: None,
        artifact: Some(String::from("art1")),
        custom: Some(String::from("a=1,a=2")),
    }
}

#[test]
fn static_headers_allow_any_origin() {
    let headers = static_headers();
    assert_eq!(headers.len(), 1);
    assert_eq!(headers.get("Access-Control-Allow-Origin"), Some(&String::from("*")));
}

#[test]
fn absent_header_flag_means_no_user_headers() {
    assert_eq!(user_headers(None).unwrap().len(), 0);
}

#[test]
fn header_flag_is_parsed_with_last_write_wins() {
    let headers = user_headers(Some("X-A=1,X-B=2,X-A=3")).unwrap();
    assert_eq!(headers.len(), 2);
    assert_eq!(headers.get("X-A"), Some(&String::from("3")));
    assert_eq!(headers.get("X-B"), Some(&String::from("2")));
}

#[test]
fn empty_header_flag_is_an_error() {
    assert_eq!(
        user_headers(Some("")).err(),
        Some(ParseError::Empty { message: String::from("No headers provided") })
    );
}

#[test]
fn prepare_yields_the_request() {
    let request = prepare("http://localhost:8080/events", None, &flags()).unwrap();
    assert_eq!(request.endpoint(), "http://localhost:8080/events");
    assert_eq!(request.headers().len(), 1);
    assert_eq!(request.headers().get("Access-Control-Allow-Origin"), Some(&String::from("*")));
    let json: serde_json::Value = serde_json::from_slice(request.body()).unwrap();
    assert_eq!(json["id"].as_str(), Some("e1"));
    assert_eq!(json["source"].as_str(), Some("svc"));
    assert_eq!(json["subject"].as_str(), Some("sub1"));
    assert_eq!(json["data"]["subject"]["content"]["artifactId"].as_str(), Some("art1"));
    assert_eq!(json["data"]["customData"]["a"].as_str(), Some("2"));
    assert_eq!(json["data"]["customData"].as_object().unwrap().len(), 1);
}

#[test]
fn prepare_lets_the_user_override_the_static_header() {
    let request = prepare(
        "http://localhost/",
        Some("Access-Control-Allow-Origin=https://x,X-Token=t"),
        &flags(),
    )
    .unwrap();
    assert_eq!(request.headers().len(), 2);
    assert_eq!(
        request.headers().get("Access-Control-Allow-Origin"),
        Some(&String::from("https://x"))
    );
    assert_eq!(request.headers().get("X-Token"), Some(&String::from("t")));
}

#[test]
fn prepare_fails_at_the_first_stage_that_fails() {
    let mut given = flags();
    given.id = String::new();
    given.artifact = None;
    assert_eq!(
        prepare("http://h/", Some("broken"), &given).err(),
        Some(Failure::Headers(ParseError::MissingSeparator { token: String::from("broken") }))
    );
    assert_eq!(
        prepare("http://h/", Some("bad name=v"), &given).err(),
        Some(Failure::Validation(ValidationError::EmptyField { field: Field::EventId }))
    );
    given.id = String::from("e1");
    assert_eq!(
        prepare("http://h/", Some("bad name=v"), &given).err(),
        Some(Failure::Build(BuildError::MissingArtifact))
    );
    given.artifact = Some(String::from("art1"));
    assert_eq!(
        prepare("http://h/", Some("bad name=v"), &given).err(),
        Some(Failure::Dispatch(DispatchError::InvalidHeader { key: String::from("bad name") }))
    );
    assert!(prepare("http://h/", Some("good-name=v"), &given).is_ok());
}

#[test]
fn prepare_reports_bad_custom_data() {
    let mut given = flags();
    given.custom = Some(String::from("a=1,,b=2"));
    assert_eq!(
        prepare("http://h/", None, &given).err(),
        Some(Failure::Validation(ValidationError::InvalidCustomData {
            cause: ParseError::MissingSeparator { token: String::new() }
        }))
    );
}

#[test]
fn exit_code_is_zero_for_any_response() {
    for status_code in [200u16, 404, 500] {
        let outcome = Ok(DispatchOutcome { status_code, response_body: vec![] });
        assert_eq!(exit_code(&outcome), 0);
    }
}

#[test]
fn exit_code_is_one_for_any_failure() {
    let failures = vec![
        Failure::Headers(ParseError::Empty { message: String::new() }),
        Failure::Validation(ValidationError::EmptyField { field: Field::EventId }),
        Failure::Build(BuildError::MissingArtifact),
        Failure::Dispatch(DispatchError::TransportFailure { cause: String::from("refused") }),
    ];
    for failure in failures {
        assert_eq!(exit_code(&Err(failure)), 1);
    }
}

#[test]
fn failure_messages_name_the_stage_and_the_cause() {
    assert_eq!(
        Failure::Headers(ParseError::MissingSeparator { token: String::from("x") }).message(),
        "invalid headers: invalid KEY=value: no `=` found in `x`"
    );
    assert_eq!(
        Failure::Validation(ValidationError::EmptyField { field: Field::SubjectId }).message(),
        "invalid arguments: the subject id must not be empty"
    );
    assert_eq!(
        Failure::Validation(ValidationError::InvalidCustomData {
            cause: ParseError::Empty { message: String::from("No custom data provided") }
        })
        .message(),
        "invalid arguments: invalid custom data: No custom data provided"
    );
    assert_eq!(
        Failure::Build(BuildError::MissingArtifact).message(),
        "cannot build the event: the artifact id is missing"
    );
    assert_eq!(
        Failure::Build(BuildError::InvalidUriReference { field: Field::EnvironmentSource })
            .message(),
        "cannot build the event: the environment source is not a URI reference"
    );
    assert_eq!(
        Failure::Build(BuildError::CustomDataEncoding { cause: String::from("why") }).message(),
        "cannot build the event: cannot encode the custom data: why"
    );
    assert_eq!(
        Failure::Serialize(SerializeError::Envelope { cause: String::from("why") }).message(),
        "cannot encode the event: cannot put the event into an envelope: why"
    );
    assert_eq!(
        Failure::Serialize(SerializeError::Encoding { cause: String::from("why") }).message(),
        "cannot encode the event: cannot encode the envelope: why"
    );
    assert_eq!(
        Failure::Dispatch(DispatchError::InvalidHeader { key: String::from("a b") }).message(),
        "cannot deliver the event: the header `a b` cannot be sent"
    );
    assert_eq!(
        Failure::Dispatch(DispatchError::TransportFailure { cause: String::from("refused") })
            .message(),
        "cannot deliver the event: the request got no response: refused"
    );
}
