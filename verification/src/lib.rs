//! Builds "service deployed" delivery events from command-line values and
//! prepares them for delivery to an HTTP endpoint.
//!
//! The pipeline runs strictly forward: raw flag values are parsed into typed
//! arguments, the arguments are turned into a schema-conformant event, the
//! event is encoded, and the encoded body is paired with the merged request
//! headers. Every stage either yields a new value or fails; none of them
//! panics.
//!
//! - [`args`] parses `key=value,key=value` lists.
//! - [`string_map`] turns lists of pairs into mappings in which the last
//!   value of a key wins.
//! - [`service`] holds the arguments of an event, builds the event and
//!   encodes it.
//! - [`custom_data`] reads custom data back out of the data of an event.
//! - [`dispatch`] assembles the request and says what a reply means.
//! - [`pipeline`] runs the stages in order and maps the result to an exit
//!   status.
//! - [`schema`] and [`headers`] declare what is taken on trust of the
//!   libraries that define the event schema and the HTTP headers.

pub mod args;
pub mod custom_data;
pub mod dispatch;
pub mod headers;
pub mod pipeline;
pub mod schema;
pub mod service;
pub mod string_map;
