//! The status object: the envelope in which the server reports an error.

use crate::errors::{Error, ErrorKind, ErrorView};
use crate::json::{
    json_document, json_kind_at, json_string_at, json_text, kind_at, optional_string,
    optional_string_at, optional_view, parse_json, string_at, JsonKind,
};
use crate::resources::metadata::{opt_string_view, Metadata};
use vstd::prelude::*;

verus! {

/// A status object. Its `message` is the text of the error that is passed
/// on to the caller.
#[derive(Clone, Debug)]
pub struct Status {
    pub kind: String,
    pub api_version: String,
    pub metadata: Metadata,
    pub status: String,
    pub message: String,
}

/// The mathematical content of a [`Status`].
pub struct StatusView {
    pub kind: Seq<char>,
    pub api_version: Seq<char>,
    pub name: Option<Seq<char>>,
    pub namespace: Option<Seq<char>>,
    pub status: Seq<char>,
    pub message: Seq<char>,
}

impl View for Status {
    type V = StatusView;

    open spec fn view(&self) -> StatusView {
        StatusView {
            kind: self.kind@,
            api_version: self.api_version@,
            name: opt_string_view(self.metadata.name),
            namespace: opt_string_view(self.metadata.namespace),
            status: self.status@,
            message: self.message@,
        }
    }
}

/// What a status object is read from: each string is `None` where the
/// document does not hold it, `metadata` is the kind of what the document
/// holds under that name, and the name and the namespace are strings that
/// may stand in the metadata but need not.
pub struct StatusFields {
    pub kind: Option<String>,
    pub api_version: Option<String>,
    pub metadata: JsonKind,
    pub name: Result<Option<String>, JsonKind>,
    pub namespace: Result<Option<String>, JsonKind>,
    pub status: Option<String>,
    pub message: Option<String>,
}

/// The mathematical content of [`StatusFields`].
pub struct StatusFieldsView {
    pub kind: Option<Seq<char>>,
    pub api_version: Option<Seq<char>>,
    pub metadata: JsonKind,
    pub name: Result<Option<Seq<char>>, JsonKind>,
    pub namespace: Result<Option<Seq<char>>, JsonKind>,
    pub status: Option<Seq<char>>,
    pub message: Option<Seq<char>>,
}

impl View for StatusFields {
    type V = StatusFieldsView;

    open spec fn view(&self) -> StatusFieldsView {
        StatusFieldsView {
            kind: opt_string_view(self.kind),
            api_version: opt_string_view(self.api_version),
            metadata: self.metadata,
            name: optional_view(self.name),
            namespace: optional_view(self.namespace),
            status: opt_string_view(self.status),
            message: opt_string_view(self.message),
        }
    }
}

/// The context that every failure to read a status passes through.
pub open spec fn decoding_status() -> Seq<char> {
    "failed to decode the error response as a status"@
}

/// The decode error for a body that is no well-formed status.
pub open spec fn no_status(message: Seq<char>) -> ErrorView {
    ErrorView::bare(ErrorKind::Decode, message).within(decoding_status())
}

/// The status that the fields make up. The envelope has five members, and
/// each is required: the strings `kind`, `apiVersion`, `status` and
/// `message`, and the object `metadata`, in which a name and a namespace
/// are strings where they stand. The first of these that fails, in this
/// order, is named by the decode error.
pub open spec fn status_from(fields: StatusFieldsView) -> Result<StatusView, ErrorView> {
    if fields.kind is None {
        Err(no_status("the status holds no string `kind`"@))
    } else if fields.api_version is None {
        Err(no_status("the status holds no string `apiVersion`"@))
    } else if fields.status is None {
        Err(no_status("the status holds no string `status`"@))
    } else if fields.message is None {
        Err(no_status("the status holds no string `message`"@))
    } else if fields.metadata != JsonKind::Object {
        Err(no_status("the status holds no object `metadata`"@))
    } else if fields.name is Err {
        Err(no_status("the status holds a `metadata.name` that is no string"@))
    } else if fields.namespace is Err {
        Err(no_status("the status holds a `metadata.namespace` that is no string"@))
    } else {
        Ok(
            StatusView {
                kind: fields.kind->0,
                api_version: fields.api_version->0,
                name: fields.name->Ok_0,
                namespace: fields.namespace->Ok_0,
                status: fields.status->0,
                message: fields.message->0,
            },
        )
    }
}

/// The fields of a status object, as the document with the compact text
/// `doc` holds them.
pub open spec fn status_fields(doc: Seq<char>) -> StatusFieldsView {
    StatusFieldsView {
        kind: json_string_at(doc, "/kind"@),
        api_version: json_string_at(doc, "/apiVersion"@),
        metadata: json_kind_at(doc, "/metadata"@),
        name: optional_string(doc, "/metadata/name"@),
        namespace: optional_string(doc, "/metadata/namespace"@),
        status: json_string_at(doc, "/status"@),
        message: json_string_at(doc, "/message"@),
    }
}

/// The status that the body of a response stands for: a decode error with
/// the parser's complaint where the body is not JSON, else what the fields
/// of the document make up.
pub open spec fn decoded_status(body: Seq<u8>) -> Result<StatusView, ErrorView> {
    match json_document(body) {
        Err(complaint) => Err(no_status(complaint)),
        Ok(doc) => status_from(status_fields(doc)),
    }
}

/// Whether `r` is the outcome `expected`, value for value.
pub open spec fn status_outcome(r: Result<Status, Error>, expected: Result<StatusView, ErrorView>) -> bool {
    match r {
        Ok(status) => expected == Ok::<StatusView, ErrorView>(status@),
        Err(e) => expected == Err::<StatusView, ErrorView>(e@),
    }
}

/// The decode error for a body that is no well-formed status.
fn refuse(message: &str) -> (e: Error)
    ensures
        e@ == no_status(message@),
{
    Error::decode(message).with_context("failed to decode the error response as a status")
}

impl Status {
    /// Makes up a status from its fields. Fails with a decode error where
    /// one of the five members of the envelope is missing or is not what it
    /// has to be.
    pub fn from_fields(fields: StatusFields) -> (r: Result<Status, Error>)
        ensures
            status_outcome(r, status_from(fields@)),
    {
        let kind = match fields.kind {
            Some(kind) => kind,
            None => {
                return Err(refuse("the status holds no string `kind`"));
            },
        };
        let api_version = match fields.api_version {
            Some(api_version) => api_version,
            None => {
                return Err(refuse("the status holds no string `apiVersion`"));
            },
        };
        let status = match fields.status {
            Some(status) => status,
            None => {
                return Err(refuse("the status holds no string `status`"));
            },
        };
        let message = match fields.message {
            Some(message) => message,
            None => {
                return Err(refuse("the status holds no string `message`"));
            },
        };
        match fields.metadata {
            JsonKind::Object => {},
            _ => {
                return Err(refuse("the status holds no object `metadata`"));
            },
        }
        let name = match fields.name {
            Ok(name) => name,
            Err(_) => {
                return Err(refuse("the status holds a `metadata.name` that is no string"));
            },
        };
        let namespace = match fields.namespace {
            Ok(namespace) => namespace,
            Err(_) => {
                return Err(refuse("the status holds a `metadata.namespace` that is no string"));
            },
        };
        Ok(Status { kind, api_version, metadata: Metadata { name, namespace }, status, message })
    }

    /// Reads a status from a parsed document.
    pub fn from_document(doc: &serde_json::Value) -> (r: Result<Status, Error>)
        ensures
            status_outcome(r, status_from(status_fields(json_text(*doc)))),
    {
        Status::from_fields(
            StatusFields {
                kind: string_at(doc, "/kind"),
                api_version: string_at(doc, "/apiVersion"),
                metadata: kind_at(doc, "/metadata"),
                name: optional_string_at(doc, "/metadata/name"),
                namespace: optional_string_at(doc, "/metadata/namespace"),
                status: string_at(doc, "/status"),
                message: string_at(doc, "/message"),
            },
        )
    }

    /// Decodes the body of a response as a status. A body that is not JSON,
    /// or that is no well-formed status, is a decode error.
    pub fn decode(body: &[u8]) -> (r: Result<Status, Error>)
        ensures
            status_outcome(r, decoded_status(body@)),
    {
        match parse_json(body) {
            Err(complaint) => Err(refuse(complaint.as_str())),
            Ok(doc) => Status::from_document(&doc),
        }
    }
}

} // verus!
