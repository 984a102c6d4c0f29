//! Everything this crate takes on trust: the types of other crates that are
//! carried through, and the calls into them. Nothing here is proved.

use crate::handshake::HandshakeFields;
use lsp_types::{InitializeParams, ServerCapabilities, Url};
use serde_json::Value;
use std::path::PathBuf;
use vstd::prelude::*;

verus! {

/// `std::path::PathBuf`, carried through unread: a filesystem path is
/// compared and moved, never taken apart.
#[verifier::external_type_specification]
#[verifier::external_body]
pub struct ExPathBuf(std::path::PathBuf);

/// `url::Url`, under the name that `lsp_types` gives it: the URI of a
/// workspace folder or of the root.
#[verifier::external_type_specification]
#[verifier::external_body]
pub struct ExUrl(lsp_types::Url);

/// `serde_json::Value`: a JSON document, carried through unread.
#[verifier::external_type_specification]
#[verifier::external_body]
pub struct ExValue(serde_json::Value);

/// `serde_json::Error`: why a JSON document did not fit a schema.
#[verifier::external_type_specification]
#[verifier::external_body]
pub struct ExJsonError(serde_json::Error);

/// `lsp_types::ClientCapabilities`: what the client declares it can do,
/// handed to the engine as it came.
#[verifier::external_type_specification]
#[verifier::external_body]
pub struct ExClientCapabilities(lsp_types::ClientCapabilities);

/// `lsp_types::ServerCapabilities`: what the server advertises.
#[verifier::external_type_specification]
#[verifier::external_body]
pub struct ExServerCapabilities(lsp_types::ServerCapabilities);

/// What `serde_json::from_value`, at `lsp_types::InitializeParams`, makes of
/// a JSON document: the error where the document does not fit the schema of
/// the request, else the four fields that a session is initialised from.
pub uninterp spec fn handshake_fields(document: Value) -> Result<HandshakeFields, serde_json::Error>;

/// The text that the `Display` impl of `serde_json::Error` gives an error.
pub uninterp spec fn json_error_description(error: serde_json::Error) -> Seq<char>;

/// What `serde_json::to_value` makes of an `lsp_types::ServerCapabilities`.
pub uninterp spec fn capabilities_document(capabilities: ServerCapabilities) -> Result<
    Value,
    serde_json::Error,
>;

/// Calls `serde_json::from_value` at `lsp_types::InitializeParams` and moves
/// out of what it returns the client's capabilities, `root_uri`, the `uri`
/// of each of `workspace_folders` in the order given, and
/// `initialization_options`. The result depends on the document alone, and
/// no more is claimed of it than its name.
#[verifier::external_body]
#[allow(deprecated)]
pub(crate) fn handshake_fields_from_json(params: Value) -> (fields: Result<
    HandshakeFields,
    serde_json::Error,
>)
    ensures
        fields == handshake_fields(params),
{
    let parsed: InitializeParams = serde_json::from_value(params)?;
    Ok(HandshakeFields {
        capabilities: parsed.capabilities,
        root_uri: parsed.root_uri,
        folder_uris: parsed.workspace_folders.map(|all| all.into_iter().map(|f| f.uri).collect()),
        initialization_data: parsed.initialization_options,
    })
}

/// Calls `Url::to_file_path`. Nothing is claimed of the result: the path
/// that the URI denotes on this platform, or `None` where it denotes none
/// (a host that is not local, a path that the platform cannot hold).
#[verifier::external_body]
pub(crate) fn url_to_file_path(url: &Url) -> Option<PathBuf> {
    url.to_file_path().ok()
}

/// Renders a `serde_json::Error` through its `Display` impl. The text
/// depends on the error alone, and no more is claimed of it than its name.
#[verifier::external_body]
pub(crate) fn json_error_text(error: &serde_json::Error) -> (text: String)
    ensures
        text@ == json_error_description(*error),
{
    error.to_string()
}

/// Calls `serde_json::to_value` at `lsp_types::ServerCapabilities`. The
/// result depends on the capabilities alone, and no more is claimed of it
/// than its name.
#[verifier::external_body]
pub(crate) fn server_capabilities_to_json(capabilities: &ServerCapabilities) -> (document: Result<
    Value,
    serde_json::Error,
>)
    ensures
        document == capabilities_document(*capabilities),
{
    serde_json::to_value(capabilities)
}

} // verus!
