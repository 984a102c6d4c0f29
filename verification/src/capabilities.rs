//! The capabilities that the server advertises in its answer to the
//! handshake.

use crate::outcome::SessionFailure;
use crate::trusted::{capabilities_document, server_capabilities_to_json};
use lsp_types::ServerCapabilities;
use serde_json::Value;
use vstd::prelude::*;

verus! {

/// Puts the advertised capabilities in the form that the answer to the
/// handshake carries: the JSON document that they serialise to, which
/// depends on them alone, so that nothing that the client sends bears on
/// it. Capabilities that do not serialise are a fault of the server, not of
/// the protocol or of I/O.
pub fn advertise(capabilities: &ServerCapabilities) -> (payload: Result<Value, SessionFailure>)
    ensures
        payload is Ok <==> capabilities_document(*capabilities) is Ok,
        payload is Ok ==> payload->Ok_0 == capabilities_document(*capabilities)->Ok_0,
        payload is Err ==> payload->Err_0 == SessionFailure::Fault,
{
    match server_capabilities_to_json(capabilities) {
        Ok(document) => Ok(document),
        Err(_) => Err(SessionFailure::Fault),
    }
}

} // verus!
