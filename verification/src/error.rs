//! The failures of the executor: their kinds, the HTTP status each is
//! reported with, and the JSON envelope that carries them to the client.

use vstd::prelude::*;
use crate::json::{Json, JsonView};

verus! {

/// Why an operation of the executor failed.
#[derive(Clone, Copy, Debug, PartialEq, Eq, Structural)]
pub enum ErrorKind {
    /// The request JSON is malformed, lacks a required field or has one of
    /// the wrong type.
    BadRequest,
    /// No action is registered under the container id.
    ContainerNotFound,
    /// The engine refused the compiled bytes.
    ModuleDeserializeError,
    /// A host import that the module requires could not be satisfied.
    LinkerError,
    /// The guest does not export a symbol that the calling convention needs.
    MissingExport,
    /// The guest's entry point trapped.
    GuestTrap,
    /// The bytes that came back from the guest are no UTF-8 JSON.
    MarshalError,
    /// A model or an image could not be retrieved.
    AssetFetchError,
    /// A worker of a multi-model invocation failed.
    ModelWorkerError,
}

/// A failure: its kind and a message for the client.
#[derive(Clone, Debug)]
pub struct RunError {
    pub kind: ErrorKind,
    pub message: String,
}

impl ErrorKind {
    /// The name under which the kind is reported.
    pub open spec fn spec_name(self) -> Seq<char> {
        match self {
            ErrorKind::BadRequest => "BadRequest"@,
            ErrorKind::ContainerNotFound => "ContainerNotFound"@,
            ErrorKind::ModuleDeserializeError => "ModuleDeserializeError"@,
            ErrorKind::LinkerError => "LinkerError"@,
            ErrorKind::MissingExport => "MissingExport"@,
            ErrorKind::GuestTrap => "GuestTrap"@,
            ErrorKind::MarshalError => "MarshalError"@,
            ErrorKind::AssetFetchError => "AssetFetchError"@,
            ErrorKind::ModelWorkerError => "ModelWorkerError"@,
        }
    }

    /// The HTTP status that a failure of this kind is answered with.
    pub open spec fn spec_status(self) -> u16 {
        match self {
            ErrorKind::BadRequest => 400,
            ErrorKind::ContainerNotFound => 404,
            _ => 500,
        }
    }

    /// The name under which the kind is reported.
    pub fn name(self) -> (name: &'static str)
        ensures
            name@ == self.spec_name(),
    {
        match self {
            ErrorKind::BadRequest => "BadRequest",
            ErrorKind::ContainerNotFound => "ContainerNotFound",
            ErrorKind::ModuleDeserializeError => "ModuleDeserializeError",
            ErrorKind::LinkerError => "LinkerError",
            ErrorKind::MissingExport => "MissingExport",
            ErrorKind::GuestTrap => "GuestTrap",
            ErrorKind::MarshalError => "MarshalError",
            ErrorKind::AssetFetchError => "AssetFetchError",
            ErrorKind::ModelWorkerError => "ModelWorkerError",
        }
    }

    /// The HTTP status that a failure of this kind is answered with: 400 for
    /// a bad request, 404 for an unknown container, 500 for everything else.
    pub fn status(self) -> (code: u16)
        ensures
            code == self.spec_status(),
    {
        match self {
            ErrorKind::BadRequest => 400,
            ErrorKind::ContainerNotFound => 404,
            _ => 500,
        }
    }
}

impl RunError {
    /// A failure of the given kind with the given message.
    pub fn new(kind: ErrorKind, message: &str) -> (error: RunError)
        ensures
            error.kind == kind,
            error.message@ == message@,
    {
        RunError { kind, message: message.to_owned() }
    }

    /// The text of the failure: the kind's name, a colon, a space, the message.
    pub open spec fn spec_text(self) -> Seq<char> {
        self.kind.spec_name() + ": "@ + self.message@
    }

    /// The text of the failure: the kind's name, a colon, a space, the message.
    pub fn text(&self) -> (text: String)
        ensures
            text@ == self.spec_text(),
    {
        let mut text: String = self.kind.name().to_owned();
        text.append(": ");
        text.append(self.message.as_str());
        text
    }

    /// The envelope that reports the failure: an object with the one key
    /// `error`, bound to the failure's text.
    pub open spec fn spec_envelope(self) -> JsonView {
        JsonView::Object(Map::empty().insert("error"@, JsonView::String(self.spec_text())))
    }

    /// The envelope that reports the failure to the client.
    pub fn envelope(&self) -> (envelope: Json)
        ensures
            envelope@ == self.spec_envelope(),
    {
        let mut envelope = Json::object();
        envelope.set("error".to_owned(), Json::String(self.text()));
        envelope
    }
}

} // verus!
