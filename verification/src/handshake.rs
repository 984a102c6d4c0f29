//! The handshake request: what the client sends before anything else.

use crate::outcome::SessionFailure;
use crate::roots::{keep_present, lemma_present_paths_len, present_paths};
use crate::trusted::{handshake_fields, handshake_fields_from_json, json_error_description};
use crate::trusted::{json_error_text, url_to_file_path};
use lsp_types::{ClientCapabilities, Url};
use serde_json::Value;
use std::path::PathBuf;
use vstd::prelude::*;

verus! {

/// What a session is initialised from. `D` is the form in which the
/// free-form initialisation data is held: the JSON document as it came, or
/// what reading it against the option schema gave.
#[derive(Debug, PartialEq)]
pub struct HandshakeRequest<D> {
    /// What the client declares it can do.
    pub capabilities: ClientCapabilities,
    /// The root of the workspace, where the client names one that is a local
    /// path.
    pub root_path: Option<PathBuf>,
    /// The workspace folders that are local paths, in the order given;
    /// `None` where the client sends no list.
    pub workspace_folders: Option<Vec<PathBuf>>,
    /// The free-form initialisation data, where the client sends any.
    pub initialization_data: Option<D>,
}

/// The root that a request declares, given what its root URI resolved to:
/// `None` where the client names no root, `Some(None)` where it names one
/// that denotes no local path. Only a root that is a local path is declared.
pub open spec fn declared_root(resolved: Option<Option<PathBuf>>) -> Option<PathBuf> {
    match resolved {
        Some(Some(path)) => Some(path),
        _ => None,
    }
}

impl<D> HandshakeRequest<D> {
    /// Builds the request from what the client sent, each URI already
    /// resolved to the local path that it denotes or to `None`. A root that
    /// is no local path counts as not declared. Of the folders, those that
    /// are local paths stay, in the order given; a list that the client
    /// sent stays a list, even where none of them is left.
    pub fn from_resolved(
        capabilities: ClientCapabilities,
        root: Option<Option<PathBuf>>,
        folders: Option<Vec<Option<PathBuf>>>,
        initialization_data: Option<D>,
    ) -> (request: Self)
        ensures
            request.capabilities == capabilities,
            request.root_path == declared_root(root),
            folders is None ==> request.workspace_folders is None,
            folders is Some ==> request.workspace_folders is Some
                && request.workspace_folders->0@ == present_paths(folders->0@),
            request.initialization_data == initialization_data,
    {
        let root_path = match root {
            Some(Some(path)) => Some(path),
            _ => None,
        };
        let workspace_folders = match folders {
            Some(candidates) => Some(keep_present(candidates)),
            None => None,
        };
        HandshakeRequest { capabilities, root_path, workspace_folders, initialization_data }
    }
}

/// Resolves each URI to the local path that it denotes, where it denotes
/// one. The result has one entry for each URI, in the same order.
pub fn local_paths(uris: &Vec<Url>) -> (candidates: Vec<Option<PathBuf>>)
    ensures
        candidates@.len() == uris@.len(),
{
    let mut candidates: Vec<Option<PathBuf>> = Vec::new();
    let mut i: usize = 0;
    while i < uris.len()
        invariant
            i <= uris@.len(),
            candidates@.len() == i,
        decreases uris@.len() - i,
    {
        candidates.push(url_to_file_path(&uris[i]));
        i += 1;
    }
    candidates
}

/// Reads the parameters of the `initialize` request. It succeeds exactly on
/// a document that fits the schema of the request; any other is a protocol
/// failure that carries the reason. A root or folder whose URI denotes no
/// local path counts as not declared. The capabilities and the
/// initialisation data are handed on as they came.
pub fn decode_handshake(params: Value) -> (decoded: Result<
    HandshakeRequest<Value>,
    SessionFailure,
>)
    ensures
        decoded is Ok <==> handshake_fields(params) is Ok,
        decoded is Ok ==> decodes_to(handshake_fields(params)->Ok_0, decoded->Ok_0),
        decoded is Err ==> decoded->Err_0 is Protocol && decoded->Err_0->Protocol_0@
            == json_error_description(handshake_fields(params)->Err_0),
{
    match handshake_fields_from_json(params) {
        Err(error) => Err(SessionFailure::Protocol(json_error_text(&error))),
        Ok(fields) => {
            let HandshakeFields { capabilities, root_uri, folder_uris, initialization_data } =
                fields;
            let root = match root_uri {
                Some(uri) => Some(url_to_file_path(&uri)),
                None => None,
            };
            let folders = match folder_uris {
                Some(uris) => Some(local_paths(&uris)),
                None => None,
            };
            proof {
                if folders is Some {
                    lemma_present_paths_len(folders->0@);
                }
            }
            Ok(HandshakeRequest::from_resolved(capabilities, root, folders, initialization_data))
        },
    }
}

/// The fields of the `initialize` request that a session is initialised
/// from, as the client sent them: the root and the folders still as URIs.
pub struct HandshakeFields {
    /// What the client declares it can do.
    pub capabilities: ClientCapabilities,
    /// The URI of the root, where the client names one.
    pub root_uri: Option<Url>,
    /// The URI of each workspace folder, in the order given; `None` where
    /// the client sends no list.
    pub folder_uris: Option<Vec<Url>>,
    /// The free-form initialisation data, where the client sends any.
    pub initialization_data: Option<Value>,
}

/// Whether `paths` can be what is left of `count` folders once each has been
/// resolved and those that are no local path have been dropped: some
/// resolution of that many folders keeps exactly `paths`, in that order.
pub open spec fn left_of(count: nat, paths: Seq<PathBuf>) -> bool {
    exists|candidates: Seq<Option<PathBuf>>|
        candidates.len() == count && paths == #[trigger] present_paths(candidates)
}

/// Whether `request` is what a document with these fields decodes to,
/// whatever its URIs resolve to. The capabilities and the initialisation
/// data are handed on as they came. A root is declared only where the
/// client names one. There is a folder list exactly where the client sends
/// one, and it holds what is left of the client's folders, so never more
/// than the client sent.
pub open spec fn decodes_to(fields: HandshakeFields, request: HandshakeRequest<Value>) -> bool {
    &&& request.capabilities == fields.capabilities
    &&& request.initialization_data == fields.initialization_data
    &&& fields.root_uri is None ==> request.root_path is None
    &&& request.workspace_folders is Some <==> fields.folder_uris is Some
    &&& fields.folder_uris is Some ==> {
        &&& left_of(fields.folder_uris->0@.len(), request.workspace_folders->0@)
        &&& request.workspace_folders->0@.len() <= fields.folder_uris->0@.len()
    }
}

} // verus!
