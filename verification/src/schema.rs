//! The boundary to the event-schema libraries.
//!
//! Everything in this file is a declaration about code that lives in
//! `cdevents_sdk`, `serde_json` or `cloudevents`. The verifier takes these
//! declarations on trust; nothing here is proved.

use cdevents_sdk::service_deployed_0_1_1::{Content, ContentEnvironment};
use cdevents_sdk::{CDEvent, NonEmptyString, Subject, UriReference};
use std::collections::HashMap;
use vstd::prelude::*;

verus! {

/// `cdevents_sdk::CDEvent`: an event of the schema library. Opaque here.
#[verifier::external_type_specification]
#[verifier::external_body]
pub struct ExCDEvent(CDEvent);

/// `cdevents_sdk::Subject`: the subject of an event. Opaque here.
#[verifier::external_type_specification]
#[verifier::external_body]
pub struct ExSubject(Subject);

/// `cdevents_sdk::NonEmptyString`, which the schema library also calls `Id`.
/// Opaque here.
#[verifier::external_type_specification]
#[verifier::external_body]
pub struct ExNonEmptyString(NonEmptyString);

/// `cdevents_sdk::UriReference`: a parsed URI reference. Opaque here.
#[verifier::external_type_specification]
#[verifier::external_body]
pub struct ExUriReference(UriReference);

/// `cdevents_sdk::Error`. Opaque here.
#[verifier::external_type_specification]
#[verifier::external_body]
pub struct ExSchemaError(cdevents_sdk::Error);

/// `serde_json::Value`: a JSON document. Opaque here.
#[verifier::external_type_specification]
#[verifier::external_body]
pub struct ExJsonValue(serde_json::Value);

/// `serde_json::Error`. Opaque here.
#[verifier::external_type_specification]
#[verifier::external_body]
pub struct ExJsonError(serde_json::Error);

/// `cloudevents::Event`: the envelope an event travels in. Opaque here.
#[verifier::external_type_specification]
#[verifier::external_body]
pub struct ExCloudEvent(cloudevents::Event);

/// `cloudevents::message::Error`. Opaque here.
#[verifier::external_type_specification]
#[verifier::external_body]
pub struct ExEnvelopeError(cloudevents::message::Error);

/// Whether `text` is a URI reference in the sense of RFC 3986, as
/// `fluent_uri::UriRef::parse` decides it.
pub uninterp spec fn is_uri_reference(text: Seq<char>) -> bool;

/// Calls `NonEmptyString::try_from(&str)`, which fails exactly on the empty
/// string.
#[verifier::external_body]
pub(crate) fn new_id(text: &str) -> (r: Result<NonEmptyString, cdevents_sdk::Error>)
    ensures
        r is Ok <==> text@.len() > 0,
{
    NonEmptyString::try_from(text)
}

/// Calls `UriReference::try_from(&str)`, which hands the text to
/// `fluent_uri::UriRef::parse` and succeeds exactly when that accepts it.
#[verifier::external_body]
pub(crate) fn new_uri_reference(text: &str) -> (r: Result<UriReference, cdevents_sdk::Error>)
    ensures
        r is Ok <==> is_uri_reference(text@),
{
    UriReference::try_from(text)
}

/// Calls `Subject::from` on the content of a "service deployed" event. Nothing
/// is claimed of the subject it returns.
#[verifier::external_body]
pub(crate) fn deployed_subject(
    artifact_id: NonEmptyString,
    environment_id: NonEmptyString,
    environment_source: Option<UriReference>,
) -> Subject {
    Subject::from(
        Content {
            artifact_id,
            environment: ContentEnvironment { id: environment_id, source: environment_source },
        },
    )
}

/// `Subject::with_id` returns; nothing is claimed of the subject it returns.
pub assume_specification[ Subject::with_id ](subject: Subject, id: NonEmptyString) -> Subject;

/// `Subject::with_source` returns; nothing is claimed of the subject it
/// returns.
pub assume_specification[ Subject::with_source ](subject: Subject, source: UriReference) -> Subject;

/// `CDEvent::from(Subject)` returns; nothing is claimed of the event it
/// returns.
pub assume_specification[ <CDEvent as From<Subject>>::from ](subject: Subject) -> CDEvent;

/// `CDEvent::with_id` returns; nothing is claimed of the event it returns.
pub assume_specification[ CDEvent::with_id ](event: CDEvent, v: NonEmptyString) -> CDEvent;

/// `CDEvent::with_source` returns; nothing is claimed of the event it returns.
pub assume_specification[ CDEvent::with_source ](event: CDEvent, v: UriReference) -> CDEvent;

/// `CDEvent::with_custom_data` returns; nothing is claimed of the event it
/// returns.
pub assume_specification[ CDEvent::with_custom_data ](
    event: CDEvent,
    custom_data: serde_json::Value,
) -> CDEvent;

/// Calls `serde_json::to_value` on `pairs`, collected into a `HashMap`. The
/// call succeeds: keys that are text and values that are text are each
/// written without a check that could fail, and a map of them becomes an
/// object. Nothing is claimed of the value itself.
#[verifier::external_body]
pub(crate) fn custom_data_value(pairs: Vec<(String, String)>) -> (r: Result<
    serde_json::Value,
    serde_json::Error,
>)
    ensures
        r is Ok,
{
    serde_json::to_value(pairs.into_iter().collect::<HashMap<String, String>>())
}

/// Calls `cloudevents::Event::try_from` on a copy of `event`. Nothing is
/// claimed of what it returns.
#[verifier::external_body]
pub(crate) fn cloud_event_of(event: &CDEvent) -> Result<
    cloudevents::Event,
    cloudevents::message::Error,
> {
    cloudevents::Event::try_from(event.clone())
}

/// Calls `serde_json::to_vec` on `event`. Nothing is claimed of what it
/// returns.
#[verifier::external_body]
pub(crate) fn encode_cloud_event(event: &cloudevents::Event) -> Result<Vec<u8>, serde_json::Error> {
    serde_json::to_vec(event)
}

} // verus!
