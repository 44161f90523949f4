//! What can go wrong between a question to the service and its answer.
use serde_json::Error as JsonError;
use vstd::prelude::*;

verus! {

/// The error that `serde_json` reports when it cannot write or read a value.
/// Nothing is known of what it holds: the library only hands it on.
#[verifier::external_type_specification]
#[verifier::external_body]
pub struct ExJsonError(JsonError);

#[derive(Debug)]
pub enum Error {
    /// Something went wrong of which no more is known.
    Generic,
    /// An error occurred on the server.
    Server,
    /// The received message could not be decoded.
    Decode,
    /// Data could not be serialized.
    Serialization(JsonError),
    /// Data could not be deserialized.
    Deserialization(JsonError),
    /// A message did not match the expected format; the message is the second field.
    Parsing(JsonError, String),
    /// A resource is missing on the server.
    ResourceMissing,
    /// A protected resource was asked for without credentials.
    MissingAuthentication,
    /// The server did not accept the credentials.
    Authentication,
    /// The server blamed the request.
    Client,
    /// The network failed.
    Network,
    /// A request could not be completed.
    Request,
}

} // verus!
