//! The "service deployed" event: its arguments, how they are collected from
//! flag values, and how an event is built from them and encoded.

use crate::args::{
    pairs_view, parse_comma_delimited, parse_pairs, parsed_view, ParseError, ParseFault,
};
use crate::schema::{
    cloud_event_of, custom_data_value, deployed_subject, encode_cloud_event, is_uri_reference,
    new_id, new_uri_reference,
};
use crate::string_map::{keys_distinct, pairs_to_map, StringMap};
use cdevents_sdk::{CDEvent, NonEmptyString, Subject, UriReference};
use vstd::prelude::*;
use vstd::string::*;

verus! {

/// A field of the arguments of an event.
#[derive(Debug, Clone, Copy, PartialEq, Eq, Structural)]
pub enum Field {
    EventId,
    EventSource,
    SubjectId,
    EnvironmentId,
    EnvironmentSource,
    ArtifactId,
}

impl Field {
    /// The name of the field in messages.
    pub open spec fn name_text(self) -> Seq<char> {
        match self {
            Field::EventId => "event id"@,
            Field::EventSource => "event source"@,
            Field::SubjectId => "subject id"@,
            Field::EnvironmentId => "environment id"@,
            Field::EnvironmentSource => "environment source"@,
            Field::ArtifactId => "artifact id"@,
        }
    }

    /// The name of the field in messages.
    pub fn name(&self) -> (r: &'static str)
        ensures
            r@ == self.name_text(),
    {
        match self {
            Field::EventId => "event id",
            Field::EventSource => "event source",
            Field::SubjectId => "subject id",
            Field::EnvironmentId => "environment id",
            Field::EnvironmentSource => "environment source",
            Field::ArtifactId => "artifact id",
        }
    }
}

/// The values of the flags of the "service deployed" command, as the
/// command-line layer hands them over: required flags as text, optional flags
/// as text when they were given.
#[derive(Debug)]
pub struct DeployedFlags {
    pub id: String,
    pub source: String,
    pub subid: String,
    pub envid: String,
    pub envname: Option<String>,
    pub envsource: Option<String>,
    pub artifact: Option<String>,
    pub custom: Option<String>,
}

/// Everything needed to build one "service deployed" event.
#[derive(Debug)]
pub struct ServiceDeployedArgs {
    /// Identifier of the event itself.
    pub id: String,
    /// Origin of the event. The subject of the event has the same origin.
    pub source: String,
    /// Identifier of the service the event is about.
    pub subject_id: String,
    /// Identifier of the environment the service was deployed to.
    pub env_id: String,
    /// Name of the environment. Accepted, but not part of the built event.
    pub env_name: Option<String>,
    /// Origin of the environment.
    pub env_source: Option<String>,
    /// Identifier of the deployed artifact. An event cannot be built without
    /// it.
    pub artifact: Option<String>,
    /// Additional data to attach to the event.
    pub custom_data: Option<StringMap>,
}

/// The mathematical content of a [`ServiceDeployedArgs`].
pub struct Arguments {
    pub id: Seq<char>,
    pub source: Seq<char>,
    pub subject_id: Seq<char>,
    pub env_id: Seq<char>,
    pub env_name: Option<Seq<char>>,
    pub env_source: Option<Seq<char>>,
    pub artifact: Option<Seq<char>>,
    pub custom_data: Option<Map<Seq<char>, Seq<char>>>,
}

/// The text of an optional string.
pub open spec fn text_of(value: Option<String>) -> Option<Seq<char>> {
    match value {
        Some(text) => Some(text@),
        None => None,
    }
}

/// The mapping of an optional string map.
pub open spec fn mapping_of(value: Option<StringMap>) -> Option<Map<Seq<char>, Seq<char>>> {
    match value {
        Some(map) => Some(map@),
        None => None,
    }
}

impl View for ServiceDeployedArgs {
    type V = Arguments;

    open spec fn view(&self) -> Arguments {
        Arguments {
            id: self.id@,
            source: self.source@,
            subject_id: self.subject_id@,
            env_id: self.env_id@,
            env_name: text_of(self.env_name),
            env_source: text_of(self.env_source),
            artifact: text_of(self.artifact),
            custom_data: mapping_of(self.custom_data),
        }
    }
}

impl Clone for ServiceDeployedArgs {
    fn clone(&self) -> (r: Self)
        ensures
            r@ == self@,
    {
        ServiceDeployedArgs {
            id: self.id.clone(),
            source: self.source.clone(),
            subject_id: self.subject_id.clone(),
            env_id: self.env_id.clone(),
            env_name: copy_text(&self.env_name),
            env_source: copy_text(&self.env_source),
            artifact: copy_text(&self.artifact),
            custom_data: match &self.custom_data {
                Some(map) => Some(map.clone()),
                None => None,
            },
        }
    }
}

fn copy_text(value: &Option<String>) -> (r: Option<String>)
    ensures
        text_of(r) == text_of(*value),
{
    match value {
        Some(text) => Some(text.clone()),
        None => None,
    }
}

/// Why flag values were rejected as arguments.
#[derive(Debug, PartialEq, Eq)]
pub enum ValidationError {
    /// A required value is the empty string.
    EmptyField { field: Field },
    /// The custom-data value is not a `key=value` list.
    InvalidCustomData { cause: ParseError },
}

/// The mathematical content of a [`ValidationError`].
pub enum ValidationFault {
    EmptyField { field: Field },
    InvalidCustomData { cause: ParseFault },
}

impl View for ValidationError {
    type V = ValidationFault;

    open spec fn view(&self) -> ValidationFault {
        match self {
            ValidationError::EmptyField { field } => ValidationFault::EmptyField { field: *field },
            ValidationError::InvalidCustomData { cause } => ValidationFault::InvalidCustomData {
                cause: cause@,
            },
        }
    }
}

impl ValidationError {
    /// The text of the human-readable description of this error.
    pub open spec fn message_text(self) -> Seq<char> {
        match self {
            ValidationError::EmptyField { field } => "the "@ + field.name_text()
                + " must not be empty"@,
            ValidationError::InvalidCustomData { cause } => "invalid custom data: "@
                + cause.message_text(),
        }
    }

    /// A human-readable description of this error.
    pub fn message(&self) -> (text: String)
        ensures
            text@ == self.message_text(),
    {
        match self {
            ValidationError::EmptyField { field } => String::from_str("the ").concat(
                field.name(),
            ).concat(" must not be empty"),
            ValidationError::InvalidCustomData { cause } => String::from_str(
                "invalid custom data: ",
            ).concat(cause.message().as_str()),
        }
    }
}

/// The text reported when the custom-data value is empty.
pub open spec fn no_custom_data() -> Seq<char> {
    "No custom data provided"@
}

/// What a custom-data value means: its pairs in order, or why it is rejected.
pub open spec fn custom_data_pairs(raw: Seq<char>) -> Result<
    Seq<(Seq<char>, Seq<char>)>,
    ParseFault,
> {
    parse_pairs(raw, no_custom_data())
}

/// Parses the value of the custom-data flag into its pairs.
pub fn parse_custom_data(s: &str) -> (r: Result<Vec<(String, String)>, ParseError>)
    ensures
        parsed_view(r) == custom_data_pairs(s@),
{
    parse_comma_delimited(s, "No custom data provided")
}

/// The first required value that is empty, in the order id, source, subject
/// id, environment id.
pub open spec fn first_empty_required(
    id: Seq<char>,
    source: Seq<char>,
    subject_id: Seq<char>,
    env_id: Seq<char>,
) -> Option<Field> {
    if id.len() == 0 {
        Some(Field::EventId)
    } else if source.len() == 0 {
        Some(Field::EventSource)
    } else if subject_id.len() == 0 {
        Some(Field::SubjectId)
    } else if env_id.len() == 0 {
        Some(Field::EnvironmentId)
    } else {
        None
    }
}

/// What flag values mean as arguments.
///
/// An empty required value is rejected first. Then the custom-data value, if
/// there is one, must be a `key=value` list; its pairs become a mapping in
/// which a repeated key keeps its last value. Optional values that were not
/// given stay absent.
pub open spec fn deployed_arguments(flags: DeployedFlags) -> Result<Arguments, ValidationFault> {
    let custom = match flags.custom {
        Some(raw) => Some(custom_data_pairs(raw@)),
        None => None,
    };
    match (first_empty_required(flags.id@, flags.source@, flags.subid@, flags.envid@), custom) {
        (Some(field), _) => Err(ValidationFault::EmptyField { field }),
        (None, Some(Err(cause))) => Err(ValidationFault::InvalidCustomData { cause }),
        (None, _) => Ok(
            Arguments {
                id: flags.id@,
                source: flags.source@,
                subject_id: flags.subid@,
                env_id: flags.envid@,
                env_name: text_of(flags.envname),
                env_source: text_of(flags.envsource),
                artifact: text_of(flags.artifact),
                custom_data: match custom {
                    Some(Ok(pairs)) => Some(pairs_to_map(pairs)),
                    _ => None,
                },
            },
        ),
    }
}

/// The mathematical content of the result of [`deployed_parse`].
pub open spec fn arguments_view(r: Result<ServiceDeployedArgs, ValidationError>) -> Result<
    Arguments,
    ValidationFault,
> {
    match r {
        Ok(args) => Ok(args@),
        Err(e) => Err(e@),
    }
}

fn empty_flag(flags: &DeployedFlags) -> (r: Option<Field>)
    ensures
        r == first_empty_required(flags.id@, flags.source@, flags.subid@, flags.envid@),
{
    if flags.id.as_str().is_empty() {
        Some(Field::EventId)
    } else if flags.source.as_str().is_empty() {
        Some(Field::EventSource)
    } else if flags.subid.as_str().is_empty() {
        Some(Field::SubjectId)
    } else if flags.envid.as_str().is_empty() {
        Some(Field::EnvironmentId)
    } else {
        None
    }
}

/// Collects the arguments of a "service deployed" event from flag values.
pub fn deployed_parse(flags: &DeployedFlags) -> (r: Result<ServiceDeployedArgs, ValidationError>)
    ensures
        arguments_view(r) == deployed_arguments(*flags),
{
    if let Some(field) = empty_flag(flags) {
        return Err(ValidationError::EmptyField { field });
    }
    let custom_data = match &flags.custom {
        Some(raw) => match parse_custom_data(raw.as_str()) {
            Ok(pairs) => Some(StringMap::from_pairs(&pairs)),
            Err(cause) => {
                return Err(ValidationError::InvalidCustomData { cause });
            },
        },
        None => None,
    };
    Ok(
        ServiceDeployedArgs {
            id: flags.id.clone(),
            source: flags.source.clone(),
            subject_id: flags.subid.clone(),
            env_id: flags.envid.clone(),
            env_name: copy_text(&flags.envname),
            env_source: copy_text(&flags.envsource),
            artifact: copy_text(&flags.artifact),
            custom_data,
        },
    )
}

/// Why no event could be built from the arguments.
#[derive(Debug, PartialEq, Eq)]
pub enum BuildError {
    /// The artifact identifier is absent.
    MissingArtifact,
    /// An identifier, or the source of the event, is the empty string.
    EmptyField { field: Field },
    /// A source is not a URI reference.
    InvalidUriReference { field: Field },
    /// The custom data could not be turned into a structured value; `cause`
    /// is what the encoder reported.
    CustomDataEncoding { cause: String },
}

impl BuildError {
    /// The text of the human-readable description of this error.
    pub open spec fn message_text(self) -> Seq<char> {
        match self {
            BuildError::MissingArtifact => "the artifact id is missing"@,
            BuildError::EmptyField { field } => "the "@ + field.name_text() + " must not be empty"@,
            BuildError::InvalidUriReference { field } => "the "@ + field.name_text()
                + " is not a URI reference"@,
            BuildError::CustomDataEncoding { cause } => "cannot encode the custom data: "@ + cause@,
        }
    }

    /// A human-readable description of this error.
    pub fn message(&self) -> (text: String)
        ensures
            text@ == self.message_text(),
    {
        match self {
            BuildError::MissingArtifact => String::from_str("the artifact id is missing"),
            BuildError::EmptyField { field } => String::from_str("the ").concat(
                field.name(),
            ).concat(" must not be empty"),
            BuildError::InvalidUriReference { field } => String::from_str("the ").concat(
                field.name(),
            ).concat(" is not a URI reference"),
            BuildError::CustomDataEncoding { cause } => String::from_str(
                "cannot encode the custom data: ",
            ).concat(cause.as_str()),
        }
    }
}

/// The rule of the schema that the arguments break first, given whether the
/// source and the environment source are URI references.
///
/// An absent artifact comes first. Then the first empty value among event id,
/// source, subject id, environment id and artifact id. Then the source and,
/// if there is one, the environment source, each of which must be a URI
/// reference.
pub open spec fn first_violation(
    args: Arguments,
    source_is_uri: bool,
    environment_source_is_uri: bool,
) -> Option<BuildError> {
    if args.artifact is None {
        Some(BuildError::MissingArtifact)
    } else if let Some(field) = first_empty_required(
        args.id,
        args.source,
        args.subject_id,
        args.env_id,
    ) {
        Some(BuildError::EmptyField { field })
    } else if args.artifact->0.len() == 0 {
        Some(BuildError::EmptyField { field: Field::ArtifactId })
    } else if !source_is_uri {
        Some(BuildError::InvalidUriReference { field: Field::EventSource })
    } else if args.env_source is Some && !environment_source_is_uri {
        Some(BuildError::InvalidUriReference { field: Field::EnvironmentSource })
    } else {
        None
    }
}

/// The rule of the schema that the arguments break first, if any.
pub open spec fn violation(args: Arguments) -> Option<BuildError> {
    first_violation(
        args,
        is_uri_reference(args.source),
        args.env_source is Some ==> is_uri_reference(args.env_source->0),
    )
}

/// Finds the rule of the schema that `args` break first, given the verdicts
/// of the schema library on the source and on the environment source. The
/// second verdict is only looked at when there is an environment source.
pub fn find_violation(
    args: &ServiceDeployedArgs,
    source_is_uri: bool,
    environment_source_is_uri: bool,
) -> (r: Option<BuildError>)
    ensures
        r == first_violation(args@, source_is_uri, environment_source_is_uri),
{
    match &args.artifact {
        None => Some(BuildError::MissingArtifact),
        Some(artifact) => {
            if args.id.as_str().is_empty() {
                Some(BuildError::EmptyField { field: Field::EventId })
            } else if args.source.as_str().is_empty() {
                Some(BuildError::EmptyField { field: Field::EventSource })
            } else if args.subject_id.as_str().is_empty() {
                Some(BuildError::EmptyField { field: Field::SubjectId })
            } else if args.env_id.as_str().is_empty() {
                Some(BuildError::EmptyField { field: Field::EnvironmentId })
            } else if artifact.as_str().is_empty() {
                Some(BuildError::EmptyField { field: Field::ArtifactId })
            } else if !source_is_uri {
                Some(BuildError::InvalidUriReference { field: Field::EventSource })
            } else if args.env_source.is_some() && !environment_source_is_uri {
                Some(BuildError::InvalidUriReference { field: Field::EnvironmentSource })
            } else {
                None
            }
        },
    }
}

/// The mathematical content of a [`BuiltEvent`].
pub struct EventModel {
    /// Identifier of the event.
    pub id: Seq<char>,
    /// Origin of the event.
    pub source: Seq<char>,
    /// Identifier of the subject.
    pub subject_id: Seq<char>,
    /// Origin of the subject.
    pub subject_source: Seq<char>,
    /// Content: identifier of the deployed artifact.
    pub artifact_id: Seq<char>,
    /// Content: identifier of the environment.
    pub environment_id: Seq<char>,
    /// Content: origin of the environment.
    pub environment_source: Option<Seq<char>>,
    /// The custom data attached to the event.
    pub custom_data: Option<Map<Seq<char>, Seq<char>>>,
}

impl EventModel {
    /// The event breaks no rule of the schema, and its subject has the source
    /// of the event itself.
    pub open spec fn conforms(self) -> bool {
        &&& self.id.len() > 0
        &&& self.source.len() > 0
        &&& self.subject_id.len() > 0
        &&& self.environment_id.len() > 0
        &&& self.artifact_id.len() > 0
        &&& is_uri_reference(self.source)
        &&& self.environment_source matches Some(source) ==> is_uri_reference(source)
        &&& self.subject_source == self.source
    }
}

/// The event that valid arguments describe. The subject takes the source of
/// the event, and the name of the environment is left out.
pub open spec fn event_of(args: Arguments) -> EventModel {
    EventModel {
        id: args.id,
        source: args.source,
        subject_id: args.subject_id,
        subject_source: args.source,
        artifact_id: args.artifact->0,
        environment_id: args.env_id,
        environment_source: args.env_source,
        custom_data: args.custom_data,
    }
}

/// Whether `id` is the identifier that the schema library made of `text`.
spec fn identifier_of(text: Seq<char>, id: NonEmptyString) -> bool {
    exists|given: &str|
        given@ == text && #[trigger] call_ensures(
            new_id,
            (given,),
            Ok::<NonEmptyString, cdevents_sdk::Error>(id),
        )
}

/// Whether `reference` is the URI reference that the schema library made of
/// `text`.
spec fn reference_of(text: Seq<char>, reference: UriReference) -> bool {
    exists|given: &str|
        given@ == text && #[trigger] call_ensures(
            new_uri_reference,
            (given,),
            Ok::<UriReference, cdevents_sdk::Error>(reference),
        )
}

/// Whether `reference` is made of `text` where there is a text, and absent
/// where there is none.
spec fn optional_reference_of(text: Option<Seq<char>>, reference: Option<UriReference>) -> bool {
    match (text, reference) {
        (Some(text), Some(reference)) => reference_of(text, reference),
        (None, None) => true,
        _ => false,
    }
}

/// Whether `subject` is the subject that the schema library made of the
/// fields of `event`: the content made of the artifact id, the environment id
/// and the environment source, then given the subject id, then given the
/// subject source.
spec fn subject_of(event: EventModel, subject: Subject) -> bool {
    exists|
        artifact_id: NonEmptyString,
        environment_id: NonEmptyString,
        environment_source: Option<UriReference>,
        content: Subject,
        subject_id: NonEmptyString,
        identified: Subject,
        subject_source: UriReference,
    |
        {
            &&& identifier_of(event.artifact_id, artifact_id)
            &&& identifier_of(event.environment_id, environment_id)
            &&& optional_reference_of(event.environment_source, environment_source)
            &&& #[trigger] call_ensures(
                deployed_subject,
                (artifact_id, environment_id, environment_source),
                content,
            )
            &&& identifier_of(event.subject_id, subject_id)
            &&& #[trigger] call_ensures(Subject::with_id, (content, subject_id), identified)
            &&& reference_of(event.subject_source, subject_source)
            &&& #[trigger] call_ensures(
                Subject::with_source,
                (identified, subject_source),
                subject,
            )
        }
}

/// Whether `value` is the structured value that the encoder made of the pairs
/// of `map`, each key once.
spec fn structured_value_of(map: Map<Seq<char>, Seq<char>>, value: serde_json::Value) -> bool {
    exists|pairs: Vec<(String, String)>|
        {
            &&& keys_distinct(pairs_view(pairs@))
            &&& pairs_to_map(pairs_view(pairs@)) == map
            &&& #[trigger] call_ensures(
                custom_data_value,
                (pairs,),
                Ok::<serde_json::Value, serde_json::Error>(value),
            )
        }
}

/// Whether `handle` is `event` with the custom data attached: `event` itself
/// where there is none, else `event` given the structured value made of it.
spec fn attached(
    custom_data: Option<Map<Seq<char>, Seq<char>>>,
    event: CDEvent,
    handle: CDEvent,
) -> bool {
    match custom_data {
        None => handle == event,
        Some(map) => exists|value: serde_json::Value|
            structured_value_of(map, value) && #[trigger] call_ensures(
                CDEvent::with_custom_data,
                (event, value),
                handle,
            ),
    }
}

/// Whether `handle` is the event that the schema library made of the fields
/// of `event`.
///
/// Every identifier and every source is made of the text of its own field.
/// The subject is made of the artifact id, the environment id and the
/// environment source, and is given the subject id and the subject source.
/// The event is made of that subject and is given the event id and the event
/// source. Custom data, where there is any, is turned into a structured value
/// and attached last.
pub closed spec fn made_of(event: EventModel, handle: CDEvent) -> bool {
    exists|
        subject: Subject,
        fresh: CDEvent,
        id: NonEmptyString,
        identified: CDEvent,
        source: UriReference,
        sourced: CDEvent,
    |
        {
            &&& subject_of(event, subject)
            &&& #[trigger] call_ensures(<CDEvent as From<Subject>>::from, (subject,), fresh)
            &&& identifier_of(event.id, id)
            &&& #[trigger] call_ensures(CDEvent::with_id, (fresh, id), identified)
            &&& reference_of(event.source, source)
            &&& #[trigger] call_ensures(CDEvent::with_source, (identified, source), sourced)
            &&& attached(event.custom_data, sourced, handle)
        }
}

/// Makes the identifier of a text that is not empty.
fn identifier(text: &str) -> (id: NonEmptyString)
    requires
        text@.len() > 0,
    ensures
        identifier_of(text@, id),
{
    new_id(text).unwrap()
}

/// Makes the URI reference of a text, if the text is one.
fn reference(text: &str) -> (r: Option<UriReference>)
    ensures
        r is Some <==> is_uri_reference(text@),
        r matches Some(made) ==> reference_of(text@, made),
{
    match new_uri_reference(text) {
        Ok(made) => Some(made),
        Err(_) => None,
    }
}

/// A "service deployed" event that the schema library has accepted.
///
/// The fields are fixed when the event is built, and they conform to the
/// schema. `handle` is the event as the schema library holds it, made of the
/// fields as [`made_of`] says.
#[derive(Debug)]
pub struct BuiltEvent {
    id: String,
    source: String,
    subject_id: String,
    subject_source: String,
    artifact_id: String,
    environment_id: String,
    environment_source: Option<String>,
    custom_data: Option<StringMap>,
    handle: CDEvent,
}

impl View for BuiltEvent {
    type V = EventModel;

    closed spec fn view(&self) -> EventModel {
        EventModel {
            id: self.id@,
            source: self.source@,
            subject_id: self.subject_id@,
            subject_source: self.subject_source@,
            artifact_id: self.artifact_id@,
            environment_id: self.environment_id@,
            environment_source: text_of(self.environment_source),
            custom_data: mapping_of(self.custom_data),
        }
    }
}

impl BuiltEvent {
    #[verifier::type_invariant]
    spec fn well_formed(self) -> bool {
        self@.conforms() && made_of(self@, self.handle)
    }

    /// Identifier of the event. It is not empty.
    pub fn id(&self) -> (r: &str)
        ensures
            r@ == self@.id,
            r@.len() > 0,
    {
        proof {
            use_type_invariant(self);
        }
        self.id.as_str()
    }

    /// Origin of the event: a URI reference that is not empty.
    pub fn source(&self) -> (r: &str)
        ensures
            r@ == self@.source,
            r@.len() > 0,
            is_uri_reference(r@),
    {
        proof {
            use_type_invariant(self);
        }
        self.source.as_str()
    }

    /// Identifier of the subject. It is not empty.
    pub fn subject_id(&self) -> (r: &str)
        ensures
            r@ == self@.subject_id,
            r@.len() > 0,
    {
        proof {
            use_type_invariant(self);
        }
        self.subject_id.as_str()
    }

    /// Origin of the subject, which is the origin of the event.
    pub fn subject_source(&self) -> (r: &str)
        ensures
            r@ == self@.subject_source,
            r@ == self@.source,
    {
        proof {
            use_type_invariant(self);
        }
        self.subject_source.as_str()
    }

    /// Identifier of the deployed artifact. It is not empty.
    pub fn artifact_id(&self) -> (r: &str)
        ensures
            r@ == self@.artifact_id,
            r@.len() > 0,
    {
        proof {
            use_type_invariant(self);
        }
        self.artifact_id.as_str()
    }

    /// Identifier of the environment. It is not empty.
    pub fn environment_id(&self) -> (r: &str)
        ensures
            r@ == self@.environment_id,
            r@.len() > 0,
    {
        proof {
            use_type_invariant(self);
        }
        self.environment_id.as_str()
    }

    /// Origin of the environment, if one was given: a URI reference.
    pub fn environment_source(&self) -> (r: Option<&str>)
        ensures
            match r {
                Some(text) => self@.environment_source == Some(text@) && is_uri_reference(text@),
                None => self@.environment_source is None,
            },
    {
        proof {
            use_type_invariant(self);
        }
        match &self.environment_source {
            Some(text) => Some(text.as_str()),
            None => None,
        }
    }

    /// The custom data attached to the event, if any.
    pub fn custom_data(&self) -> (r: Option<&StringMap>)
        ensures
            match r {
                Some(map) => self@.custom_data == Some(map@),
                None => self@.custom_data is None,
            },
    {
        match &self.custom_data {
            Some(map) => Some(map),
            None => None,
        }
    }

    /// The event as the schema library holds it.
    pub closed spec fn schema_event(&self) -> CDEvent {
        self.handle
    }

    /// The event as the schema library holds it, made of the fields of this
    /// event.
    pub fn handle(&self) -> (r: &CDEvent)
        ensures
            *r == self.schema_event(),
            made_of(self@, *r),
    {
        proof {
            use_type_invariant(self);
        }
        &self.handle
    }
}

/// What is returned for an attempt to turn custom data into a structured
/// value: the value that was made, or a [`BuildError::CustomDataEncoding`]
/// whose cause is the text of what the encoder reported.
pub open spec fn custom_data_result(
    encoded: Result<serde_json::Value, serde_json::Error>,
    r: Result<serde_json::Value, BuildError>,
) -> bool {
    match encoded {
        Ok(value) => r == Ok::<serde_json::Value, BuildError>(value),
        Err(e) => r matches Err(BuildError::CustomDataEncoding { cause })
            && to_string_from_display_ensures::<serde_json::Error>(&e, cause),
    }
}

/// Turns what the encoder of structured values returned into the result of
/// this library.
pub fn custom_data_from(encoded: Result<serde_json::Value, serde_json::Error>) -> (r: Result<
    serde_json::Value,
    BuildError,
>)
    ensures
        custom_data_result(encoded, r),
{
    match encoded {
        Ok(value) => Ok(value),
        Err(e) => Err(BuildError::CustomDataEncoding { cause: e.to_string() }),
    }
}

/// Builds the event that `args` describe.
///
/// Arguments that break a rule of the schema give no event: the first rule
/// broken is reported, see [`first_violation`]. Arguments that break none
/// always give an event, and the event that the schema library holds is made
/// of its fields, see [`made_of`]. Custom data is attached last; a mapping of
/// texts can always be turned into a structured value, so that step does not
/// fail.
pub fn build_event(args: &ServiceDeployedArgs) -> (r: Result<BuiltEvent, BuildError>)
    ensures
        match r {
            Ok(event) => {
                &&& violation(args@) is None
                &&& event@ == event_of(args@)
                &&& made_of(event@, event.schema_event())
            },
            Err(e) => violation(args@) == Some(e),
        },
{
    let artifact = match &args.artifact {
        Some(text) => text,
        None => {
            return Err(BuildError::MissingArtifact);
        },
    };
    let source = reference(args.source.as_str());
    let subject_source = reference(args.source.as_str());
    let environment_source = match &args.env_source {
        Some(text) => Some(reference(text.as_str())),
        None => None,
    };
    let environment_source_is_uri = match &environment_source {
        Some(parsed) => parsed.is_some(),
        None => true,
    };
    if let Some(broken) = find_violation(args, source.is_some(), environment_source_is_uri) {
        return Err(broken);
    }
    let ghost fields = event_of(args@);
    let content_source = match environment_source {
        Some(parsed) => Some(parsed.unwrap()),
        None => None,
    };
    assert(optional_reference_of(fields.environment_source, content_source));
    let content = deployed_subject(
        identifier(artifact.as_str()),
        identifier(args.env_id.as_str()),
        content_source,
    );
    let subject = content.with_id(identifier(args.subject_id.as_str())).with_source(
        subject_source.unwrap(),
    );
    assert(subject_of(fields, subject));
    let sourced = CDEvent::from(subject).with_id(identifier(args.id.as_str())).with_source(
        source.unwrap(),
    );
    let (handle, custom_data) = match &args.custom_data {
        Some(data) => {
            let pairs = data.to_pairs();
            let ghost given = pairs;
            match custom_data_from(custom_data_value(pairs)) {
                Ok(value) => {
                    assert(structured_value_of(data@, value)) by {
                        assert(call_ensures(
                            custom_data_value,
                            (given,),
                            Ok::<serde_json::Value, serde_json::Error>(value),
                        ));
                    }
                    (sourced.with_custom_data(value), Some(data.clone()))
                },
                Err(e) => {
                    return Err(e);
                },
            }
        },
        None => (sourced, None),
    };
    assert(attached(fields.custom_data, sourced, handle));
    assert(made_of(fields, handle));
    Ok(
        BuiltEvent {
            id: args.id.clone(),
            source: args.source.clone(),
            subject_id: args.subject_id.clone(),
            subject_source: args.source.clone(),
            artifact_id: artifact.clone(),
            environment_id: args.env_id.clone(),
            environment_source: copy_text(&args.env_source),
            custom_data,
            handle,
        },
    )
}

/// Whatever else the arguments hold, an absent artifact is what is reported.
pub proof fn lemma_absent_artifact_is_reported(args: Arguments)
    requires
        args.artifact is None,
    ensures
        violation(args) == Some(BuildError::MissingArtifact),
{
}

/// Arguments that break no rule describe an event that conforms.
pub proof fn lemma_valid_arguments_give_conforming_event(args: Arguments)
    requires
        violation(args) is None,
    ensures
        event_of(args).conforms(),
{
}

/// Why a built event could not be turned into bytes.
#[derive(Debug, PartialEq, Eq)]
pub enum SerializeError {
    /// The event was refused as the content of an envelope; `cause` is what
    /// the envelope library reported.
    Envelope { cause: String },
    /// The envelope could not be written as JSON; `cause` is what the encoder
    /// reported.
    Encoding { cause: String },
}

impl SerializeError {
    /// The text of the human-readable description of this error.
    pub open spec fn message_text(self) -> Seq<char> {
        match self {
            SerializeError::Envelope { cause } => "cannot put the event into an envelope: "@
                + cause@,
            SerializeError::Encoding { cause } => "cannot encode the envelope: "@ + cause@,
        }
    }

    /// A human-readable description of this error.
    pub fn message(&self) -> (text: String)
        ensures
            text@ == self.message_text(),
    {
        match self {
            SerializeError::Envelope { cause } => String::from_str(
                "cannot put the event into an envelope: ",
            ).concat(cause.as_str()),
            SerializeError::Encoding { cause } => String::from_str(
                "cannot encode the envelope: ",
            ).concat(cause.as_str()),
        }
    }
}

/// Why no envelope could be made from the arguments.
#[derive(Debug, PartialEq, Eq)]
pub enum EventError {
    /// No event could be built.
    Build(BuildError),
    /// The event was built but could not be put into an envelope.
    Serialize(SerializeError),
}

impl EventError {
    /// The text of the human-readable description of this error.
    pub open spec fn message_text(self) -> Seq<char> {
        match self {
            EventError::Build(e) => e.message_text(),
            EventError::Serialize(e) => e.message_text(),
        }
    }

    /// A human-readable description of this error.
    pub fn message(&self) -> (text: String)
        ensures
            text@ == self.message_text(),
    {
        match self {
            EventError::Build(e) => e.message(),
            EventError::Serialize(e) => e.message(),
        }
    }
}

/// What is returned for an attempt to make an envelope: the envelope that was
/// made, or a [`SerializeError::Envelope`] whose cause is the text of what
/// the envelope library reported.
pub open spec fn envelope_result(
    made: Result<cloudevents::Event, cloudevents::message::Error>,
    r: Result<cloudevents::Event, SerializeError>,
) -> bool {
    match made {
        Ok(envelope) => r == Ok::<cloudevents::Event, SerializeError>(envelope),
        Err(e) => r matches Err(SerializeError::Envelope { cause })
            && to_string_from_display_ensures::<cloudevents::message::Error>(&e, cause),
    }
}

/// What is returned for an attempt to encode an envelope: the bytes that were
/// written, or a [`SerializeError::Encoding`] whose cause is the text of
/// what the encoder reported.
pub open spec fn encoding_result(
    encoded: Result<Vec<u8>, serde_json::Error>,
    r: Result<Vec<u8>, SerializeError>,
) -> bool {
    match encoded {
        Ok(bytes) => r == Ok::<Vec<u8>, SerializeError>(bytes),
        Err(e) => r matches Err(SerializeError::Encoding { cause })
            && to_string_from_display_ensures::<serde_json::Error>(&e, cause),
    }
}

/// Whether `made` is what the envelope library returned when it was handed
/// `event`.
pub closed spec fn envelope_made(
    event: CDEvent,
    made: Result<cloudevents::Event, cloudevents::message::Error>,
) -> bool {
    call_ensures(cloud_event_of, (&event,), made)
}

/// Whether `encoded` is what the encoder returned when it was handed
/// `envelope`.
pub closed spec fn envelope_encoded(
    envelope: cloudevents::Event,
    encoded: Result<Vec<u8>, serde_json::Error>,
) -> bool {
    call_ensures(encode_cloud_event, (&envelope,), encoded)
}

/// Turns what the envelope library returned into the result of this library.
pub fn envelope_from(made: Result<cloudevents::Event, cloudevents::message::Error>) -> (r: Result<
    cloudevents::Event,
    SerializeError,
>)
    ensures
        envelope_result(made, r),
{
    match made {
        Ok(envelope) => Ok(envelope),
        Err(e) => Err(SerializeError::Envelope { cause: e.to_string() }),
    }
}

/// Turns what the encoder returned into the result of this library.
pub fn encoding_from(encoded: Result<Vec<u8>, serde_json::Error>) -> (r: Result<
    Vec<u8>,
    SerializeError,
>)
    ensures
        encoding_result(encoded, r),
{
    match encoded {
        Ok(bytes) => Ok(bytes),
        Err(e) => Err(SerializeError::Encoding { cause: e.to_string() }),
    }
}

/// Puts a built event into the envelope it travels in.
///
/// The event that the schema library holds is handed to the envelope library
/// once, and what that returns is the result: its envelope, or its failure as
/// a [`SerializeError::Envelope`]. Whether an envelope is made is for the
/// envelope library to say.
pub fn envelope(event: &BuiltEvent) -> (r: Result<cloudevents::Event, SerializeError>)
    ensures
        exists|made: Result<cloudevents::Event, cloudevents::message::Error>|
            #[trigger] envelope_made(event.schema_event(), made) && envelope_result(made, r),
{
    let made = cloud_event_of(event.handle());
    assert(envelope_made(event.schema_event(), made));
    envelope_from(made)
}

/// Encodes a built event as the bytes of its envelope, in the JSON format of
/// the envelope library.
///
/// The event is put into its envelope as [`envelope`] does it. If that fails,
/// the failure is the result. Otherwise the envelope is handed to the encoder
/// once, and what that returns is the result: its bytes, or its failure as a
/// [`SerializeError::Encoding`]. Whether the steps succeed, and what the bytes
/// are, is for the two libraries to say.
pub fn serialize(event: &BuiltEvent) -> (r: Result<Vec<u8>, SerializeError>)
    ensures
        exists|made: Result<cloudevents::Event, cloudevents::message::Error>|
            #[trigger] envelope_made(event.schema_event(), made) && match made {
                Ok(envelope) => exists|encoded: Result<Vec<u8>, serde_json::Error>|
                    #[trigger] envelope_encoded(envelope, encoded) && encoding_result(encoded, r),
                Err(e) => r matches Err(SerializeError::Envelope { cause })
                    && to_string_from_display_ensures::<cloudevents::message::Error>(&e, cause),
            },
{
    match envelope(event) {
        Ok(envelope) => {
            let encoded = encode_cloud_event(&envelope);
            assert(envelope_encoded(envelope, encoded));
            encoding_from(encoded)
        },
        Err(e) => Err(e),
    }
}

/// Whether `event` is an event that [`build_event`] made of `args`.
pub open spec fn built_from(args: &ServiceDeployedArgs, event: BuiltEvent) -> bool {
    call_ensures(build_event, (args,), Ok::<BuiltEvent, BuildError>(event))
}

/// Whether `r` is what putting an event built from `args` into its envelope
/// gave: the event was made of `args`, the schema event it holds was handed
/// to the envelope library, and `r` is what became of that.
pub open spec fn envelope_of_built(
    args: &ServiceDeployedArgs,
    r: Result<cloudevents::Event, SerializeError>,
) -> bool {
    exists|event: BuiltEvent, made: Result<cloudevents::Event, cloudevents::message::Error>|
        #[trigger] built_from(args, event) && #[trigger] envelope_made(event.schema_event(), made)
            && envelope_result(made, r)
}

/// Whether `r` is what [`serialize`] gave for `event`.
pub open spec fn serialized(event: BuiltEvent, r: Result<Vec<u8>, SerializeError>) -> bool {
    call_ensures(serialize, (&event,), r)
}

/// Whether `r` is what encoding an event built from the arguments `args`
/// gave: some arguments with that content were given to [`build_event`], and
/// the event it made was given to [`serialize`].
pub open spec fn body_of_built(args: Arguments, r: Result<Vec<u8>, SerializeError>) -> bool {
    exists|given: ServiceDeployedArgs, event: BuiltEvent|
        given@ == args && #[trigger] built_from(&given, event) && #[trigger] serialized(event, r)
}

/// Builds the event that `args` describe and puts it into its envelope.
///
/// Arguments that break a rule of the schema are reported as
/// [`EventError::Build`] with the rule. Arguments that break none give an
/// event, and the result is what putting that event into its envelope gives:
/// the envelope, or its failure as [`EventError::Serialize`].
pub fn to_cloud_event(args: &ServiceDeployedArgs) -> (r: Result<cloudevents::Event, EventError>)
    ensures
        match r {
            Ok(envelope) => violation(args@) is None && envelope_of_built(
                args,
                Ok::<cloudevents::Event, SerializeError>(envelope),
            ),
            Err(EventError::Build(e)) => violation(args@) == Some(e),
            Err(EventError::Serialize(e)) => violation(args@) is None && envelope_of_built(
                args,
                Err::<cloudevents::Event, SerializeError>(e),
            ),
        },
{
    match build_event(args) {
        Ok(event) => {
            assert(built_from(args, event));
            match envelope(&event) {
                Ok(envelope) => Ok(envelope),
                Err(e) => Err(EventError::Serialize(e)),
            }
        },
        Err(e) => Err(EventError::Build(e)),
    }
}

} // verus!
