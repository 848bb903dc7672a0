//! One run of the tool: from flag values to the request that is to be sent,
//! and from the reply to the exit status.
//!
//! The stages run in order and the first failure ends the run, so a request
//! exists only when every stage before the transport has succeeded.

use crate::args::{parse_pairs, ParseError, ParseFault};
use crate::dispatch::{
    headers_can_be_sent, merged_headers, no_headers, outbound_request, parse_headers,
    DispatchError, DispatchOutcome, OutboundRequest,
};
use crate::headers::{is_header_name, is_header_value};
use crate::service::{
    body_of_built, build_event, built_from, deployed_arguments, deployed_parse, serialize,
    serialized, violation, Arguments, BuildError, DeployedFlags, SerializeError, ValidationError,
};
use crate::string_map::{pairs_to_map, StringMap};
use vstd::prelude::*;
use vstd::string::*;

verus! {

/// The stage at which a run failed, and why.
#[derive(Debug, PartialEq, Eq)]
pub enum Failure {
    /// The header value is not a `key=value` list.
    Headers(ParseError),
    /// The flag values are no arguments.
    Validation(ValidationError),
    /// No event could be built from the arguments.
    Build(BuildError),
    /// The event could not be encoded.
    Serialize(SerializeError),
    /// The request could not be made, or got no response.
    Dispatch(DispatchError),
}

impl Failure {
    /// The text of the human-readable description of this failure.
    pub open spec fn message_text(self) -> Seq<char> {
        match self {
            Failure::Headers(e) => "invalid headers: "@ + e.message_text(),
            Failure::Validation(e) => "invalid arguments: "@ + e.message_text(),
            Failure::Build(e) => "cannot build the event: "@ + e.message_text(),
            Failure::Serialize(e) => "cannot encode the event: "@ + e.message_text(),
            Failure::Dispatch(e) => "cannot deliver the event: "@ + e.message_text(),
        }
    }

    /// A human-readable description of this failure.
    pub fn message(&self) -> (text: String)
        ensures
            text@ == self.message_text(),
    {
        match self {
            Failure::Headers(e) => String::from_str("invalid headers: ").concat(
                e.message().as_str(),
            ),
            Failure::Validation(e) => String::from_str("invalid arguments: ").concat(
                e.message().as_str(),
            ),
            Failure::Build(e) => String::from_str("cannot build the event: ").concat(
                e.message().as_str(),
            ),
            Failure::Serialize(e) => String::from_str("cannot encode the event: ").concat(
                e.message().as_str(),
            ),
            Failure::Dispatch(e) => String::from_str("cannot deliver the event: ").concat(
                e.message().as_str(),
            ),
        }
    }
}

/// The headers that every request carries unless the user overrides them.
pub open spec fn static_header_map() -> Map<Seq<char>, Seq<char>> {
    Map::empty().insert("Access-Control-Allow-Origin"@, "*"@)
}

/// The headers that every request carries unless the user overrides them.
pub fn static_headers() -> (r: StringMap)
    ensures
        r@ == static_header_map(),
{
    let mut headers = StringMap::new();
    headers.insert(String::from_str("Access-Control-Allow-Origin"), String::from_str("*"));
    headers
}

/// The text of an optional string slice.
pub open spec fn flag_text(raw: Option<&str>) -> Option<Seq<char>> {
    match raw {
        Some(text) => Some(text@),
        None => None,
    }
}

/// What the header value means: no headers when the flag was not given, else
/// the mapping of its pairs.
pub open spec fn user_header_map(raw: Option<Seq<char>>) -> Result<
    Map<Seq<char>, Seq<char>>,
    ParseFault,
> {
    match raw {
        None => Ok(Map::empty()),
        Some(text) => match parse_pairs(text, no_headers()) {
            Ok(pairs) => Ok(pairs_to_map(pairs)),
            Err(fault) => Err(fault),
        },
    }
}

/// The headers the user asked for. A flag that was not given means none; a
/// flag that was given must hold a `key=value` list.
pub fn user_headers(raw: Option<&str>) -> (r: Result<StringMap, ParseError>)
    ensures
        match r {
            Ok(headers) => user_header_map(flag_text(raw)) == Ok::<_, ParseFault>(headers@),
            Err(e) => user_header_map(flag_text(raw)) == Err::<Map<Seq<char>, Seq<char>>, _>(e@),
        },
{
    match raw {
        None => Ok(StringMap::new()),
        Some(text) => match parse_headers(text) {
            Ok(pairs) => Ok(StringMap::from_pairs(&pairs)),
            Err(e) => Err(e),
        },
    }
}

/// Runs every stage before the transport: reads the headers, collects the
/// arguments, builds the event, encodes it and assembles the request.
///
/// The stages fail in that order: a bad header value is reported before bad
/// arguments, those before a rule of the schema that the arguments break, and
/// headers that cannot be sent are reported last, once the event is encoded.
/// Whether the event can be encoded, and what the body of the request is, is
/// for the schema libraries to say.
pub fn prepare(endpoint: &str, headers: Option<&str>, flags: &DeployedFlags) -> (r: Result<
    OutboundRequest,
    Failure,
>)
    ensures
        match r {
            Err(Failure::Headers(e)) => user_header_map(flag_text(headers)) == Err::<
                Map<Seq<char>, Seq<char>>,
                _,
            >(e@),
            Err(Failure::Validation(e)) => {
                &&& user_header_map(flag_text(headers)) is Ok
                &&& deployed_arguments(*flags) == Err::<Arguments, _>(e@)
            },
            Err(Failure::Build(e)) => {
                &&& user_header_map(flag_text(headers)) is Ok
                &&& deployed_arguments(*flags) matches Ok(args)
                &&& violation(args) == Some(e)
            },
            Err(Failure::Serialize(e)) => {
                &&& user_header_map(flag_text(headers)) is Ok
                &&& deployed_arguments(*flags) matches Ok(args)
                &&& violation(args) is None
                &&& body_of_built(args, Err::<Vec<u8>, SerializeError>(e))
            },
            Err(Failure::Dispatch(e)) => {
                &&& user_header_map(flag_text(headers)) matches Ok(user)
                &&& deployed_arguments(*flags) matches Ok(args)
                &&& violation(args) is None
                &&& exists|bytes: Vec<u8>| #[trigger]
                    body_of_built(args, Ok::<Vec<u8>, SerializeError>(bytes))
                &&& e matches DispatchError::InvalidHeader { key }
                &&& merged_headers(static_header_map(), user).dom().contains(key@)
                &&& !(is_header_name(key@) && is_header_value(
                    merged_headers(static_header_map(), user)[key@],
                ))
            },
            Ok(request) => {
                &&& user_header_map(flag_text(headers)) matches Ok(user)
                &&& deployed_arguments(*flags) matches Ok(args)
                &&& violation(args) is None
                &&& headers_can_be_sent(merged_headers(static_header_map(), user))
                &&& request@.endpoint == endpoint@
                &&& request@.headers == merged_headers(static_header_map(), user)
                &&& exists|bytes: Vec<u8>| #[trigger]
                    body_of_built(args, Ok::<Vec<u8>, SerializeError>(bytes)) && request@.body
                        == bytes@
            },
        },
{
    let user = match user_headers(headers) {
        Ok(user) => user,
        Err(e) => {
            return Err(Failure::Headers(e));
        },
    };
    let args = match deployed_parse(flags) {
        Ok(args) => args,
        Err(e) => {
            return Err(Failure::Validation(e));
        },
    };
    let event = match build_event(&args) {
        Ok(event) => event,
        Err(e) => {
            return Err(Failure::Build(e));
        },
    };
    assert(built_from(&args, event));
    let body = match serialize(&event) {
        Ok(body) => body,
        Err(e) => {
            assert(serialized(event, Err::<Vec<u8>, SerializeError>(e)));
            return Err(Failure::Serialize(e));
        },
    };
    assert(serialized(event, Ok::<Vec<u8>, SerializeError>(body)));
    assert(body_of_built(args@, Ok::<Vec<u8>, SerializeError>(body)));
    match outbound_request(endpoint, body, &static_headers(), &user) {
        Ok(request) => Ok(request),
        Err(e) => Err(Failure::Dispatch(e)),
    }
}

/// The exit status of a run: 0 when a response was received, whatever its
/// status code, and 1 when the run failed at any stage.
pub fn exit_code(outcome: &Result<DispatchOutcome, Failure>) -> (r: u8)
    ensures
        r == (if outcome is Ok {
            0u8
        } else {
            1u8
        }),
{
    match outcome {
        Ok(_) => 0,
        Err(_) => 1,
    }
}

} // verus!
