//! Preparing the request that carries an event, and reading the reply.
//!
//! The request itself is sent by the caller. This module decides what is sent
//! (the endpoint, the merged headers, the body) and what the reply means.

use crate::args::{pairs_view, parse_comma_delimited, parse_pairs, parsed_view, ParseError};
use crate::headers::{header_name_accepted, header_value_accepted, is_header_name, is_header_value};
use crate::string_map::{
    keys_distinct, lemma_lookup_distinct, lemma_pairs_to_map_domain, pairs_to_map, StringMap,
};
use vstd::prelude::*;
use vstd::string::*;

verus! {

/// Why an event was not delivered.
#[derive(Debug, PartialEq, Eq)]
pub enum DispatchError {
    /// The header `key` has a name or a value that cannot be sent.
    InvalidHeader { key: String },
    /// The request got no response; `cause` is what the transport reported.
    TransportFailure { cause: String },
}

impl DispatchError {
    /// The text of the human-readable description of this error.
    pub open spec fn message_text(self) -> Seq<char> {
        match self {
            DispatchError::InvalidHeader { key } => "the header `"@ + key@ + "` cannot be sent"@,
            DispatchError::TransportFailure { cause } => "the request got no response: "@ + cause@,
        }
    }

    /// A human-readable description of this error.
    pub fn message(&self) -> (text: String)
        ensures
            text@ == self.message_text(),
    {
        match self {
            DispatchError::InvalidHeader { key } => String::from_str("the header `").concat(
                key.as_str(),
            ).concat("` cannot be sent"),
            DispatchError::TransportFailure { cause } => String::from_str(
                "the request got no response: ",
            ).concat(cause.as_str()),
        }
    }
}

/// What came back for a request that was sent: a response of any status, or
/// the report of a failure below HTTP.
#[derive(Debug, PartialEq, Eq)]
pub enum TransportReply {
    Response { status_code: u16, body: Vec<u8> },
    Failure { cause: String },
}

/// The response to a delivered event.
#[derive(Debug, PartialEq, Eq)]
pub struct DispatchOutcome {
    pub status_code: u16,
    pub response_body: Vec<u8>,
}

/// What a reply means for the delivery. Every response is an outcome, whatever
/// its status; only a failure of the transport is an error.
pub fn dispatch_outcome(reply: TransportReply) -> (r: Result<DispatchOutcome, DispatchError>)
    ensures
        r == match reply {
            TransportReply::Response { status_code, body } => Ok(
                DispatchOutcome { status_code, response_body: body },
            ),
            TransportReply::Failure { cause } => Err(DispatchError::TransportFailure { cause }),
        },
{
    match reply {
        TransportReply::Response { status_code, body } => Ok(
            DispatchOutcome { status_code, response_body: body },
        ),
        TransportReply::Failure { cause } => Err(DispatchError::TransportFailure { cause }),
    }
}

/// The text reported when the header value is empty.
pub open spec fn no_headers() -> Seq<char> {
    "No headers provided"@
}

/// Parses the value of the header flag into its pairs.
pub fn parse_headers(s: &str) -> (r: Result<Vec<(String, String)>, ParseError>)
    ensures
        parsed_view(r) == parse_pairs(s@, no_headers()),
{
    parse_comma_delimited(s, "No headers provided")
}

/// The headers sent with a request: `static_headers` with `user_headers` set
/// on top of them.
pub open spec fn merged_headers(
    static_headers: Map<Seq<char>, Seq<char>>,
    user_headers: Map<Seq<char>, Seq<char>>,
) -> Map<Seq<char>, Seq<char>> {
    static_headers.union_prefer_right(user_headers)
}

/// A header named by the user has the user's value, whatever the static
/// headers say; any other header keeps its static value.
pub proof fn lemma_user_headers_take_precedence(
    static_headers: Map<Seq<char>, Seq<char>>,
    user_headers: Map<Seq<char>, Seq<char>>,
    key: Seq<char>,
)
    ensures
        merged_headers(static_headers, user_headers).dom().contains(key) <==> (
        static_headers.dom().contains(key) || user_headers.dom().contains(key)),
        user_headers.dom().contains(key) ==> merged_headers(static_headers, user_headers)[key]
            == user_headers[key],
        !user_headers.dom().contains(key) && static_headers.dom().contains(key) ==> merged_headers(
            static_headers,
            user_headers,
        )[key] == static_headers[key],
{
}

/// Whether every header of `headers` can be sent.
pub open spec fn headers_can_be_sent(headers: Map<Seq<char>, Seq<char>>) -> bool {
    forall|key: Seq<char>| #[trigger]
        headers.dom().contains(key) ==> is_header_name(key) && is_header_value(headers[key])
}

/// Decides on one header: it is admitted when its name and its value can be
/// sent, and is reported by its key otherwise.
pub fn admit_header(key: &str, value: &str) -> (r: Result<(), DispatchError>)
    ensures
        r is Ok <==> is_header_name(key@) && is_header_value(value@),
        r matches Err(e) ==> e matches DispatchError::InvalidHeader { key: reported }
            && reported@ == key@,
{
    if header_name_accepted(key) && header_value_accepted(value) {
        Ok(())
    } else {
        Err(DispatchError::InvalidHeader { key: key.to_owned() })
    }
}

/// Everything that is sent for one event. Every header of a request can be
/// sent.
#[derive(Debug)]
pub struct OutboundRequest {
    endpoint: String,
    headers: StringMap,
    body: Vec<u8>,
}

/// The mathematical content of an [`OutboundRequest`].
pub struct RequestModel {
    pub endpoint: Seq<char>,
    pub headers: Map<Seq<char>, Seq<char>>,
    pub body: Seq<u8>,
}

impl View for OutboundRequest {
    type V = RequestModel;

    closed spec fn view(&self) -> RequestModel {
        RequestModel { endpoint: self.endpoint@, headers: self.headers@, body: self.body@ }
    }
}

impl OutboundRequest {
    #[verifier::type_invariant]
    spec fn well_formed(self) -> bool {
        headers_can_be_sent(self.headers@)
    }

    /// Where the request goes.
    pub fn endpoint(&self) -> (r: &str)
        ensures
            r@ == self@.endpoint,
    {
        self.endpoint.as_str()
    }

    /// The headers of the request.
    pub fn headers(&self) -> (r: &StringMap)
        ensures
            r@ == self@.headers,
            headers_can_be_sent(r@),
    {
        proof {
            use_type_invariant(self);
        }
        &self.headers
    }

    /// The body of the request.
    pub fn body(&self) -> (r: &Vec<u8>)
        ensures
            r@ == self@.body,
    {
        &self.body
    }
}

/// Assembles the request for `body`.
///
/// The headers are the static ones with the user's set on top. If any header
/// of that set cannot be sent, no request is made and one such header is
/// reported by its key.
pub fn outbound_request(
    endpoint: &str,
    body: Vec<u8>,
    static_headers: &StringMap,
    user_headers: &StringMap,
) -> (r: Result<OutboundRequest, DispatchError>)
    ensures
        match r {
            Ok(request) => headers_can_be_sent(merged_headers(static_headers@, user_headers@))
                && request@ == (RequestModel {
                endpoint: endpoint@,
                headers: merged_headers(static_headers@, user_headers@),
                body: body@,
            }),
            Err(e) => e matches DispatchError::InvalidHeader { key } && merged_headers(
                static_headers@,
                user_headers@,
            ).dom().contains(key@) && !(is_header_name(key@) && is_header_value(
                merged_headers(static_headers@, user_headers@)[key@],
            )),
        },
{
    let headers = static_headers.merged(user_headers);
    let pairs = headers.to_pairs();
    let mut i: usize = 0;
    while i < pairs.len()
        invariant
            i <= pairs.len(),
            headers@ == merged_headers(static_headers@, user_headers@),
            keys_distinct(pairs_view(pairs@)),
            pairs_to_map(pairs_view(pairs@)) == headers@,
            forall|j: int|
                0 <= j < i ==> is_header_name((#[trigger] pairs[j]).0@) && is_header_value(
                    pairs[j].1@,
                ),
        decreases pairs.len() - i,
    {
        let key = pairs[i].0.as_str();
        let value = pairs[i].1.as_str();
        proof {
            lemma_lookup_distinct(pairs_view(pairs@), i as int);
        }
        match admit_header(key, value) {
            Ok(()) => {},
            Err(e) => {
                return Err(e);
            },
        }
        i = i + 1;
    }
    proof {
        assert forall|key: Seq<char>| #[trigger]
            headers@.dom().contains(key) implies is_header_name(key) && is_header_value(
            headers@[key],
        ) by {
            let view = pairs_view(pairs@);
            lemma_pairs_to_map_domain(view, key);
            let j = choose|j: int| 0 <= j < view.len() && (#[trigger] view[j]).0 == key;
            lemma_lookup_distinct(view, j);
            assert(is_header_name(pairs[j].0@));
        }
    }
    Ok(OutboundRequest { endpoint: endpoint.to_owned(), headers, body })
}

} // verus!
