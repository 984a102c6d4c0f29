//! Initialising a session: from the handshake request and the working
//! directory to what the processing engine is started with.

use crate::config::{is_rejected, resolve_config, resolves_to};
use crate::handshake::HandshakeRequest;
use crate::notice::{LogEvent, Severity, UserNotification};
use crate::roots::{declares_folders, WorkspaceRoots};
use lsp_types::ClientCapabilities;
use std::path::PathBuf;
use vstd::prelude::*;

verus! {

/// What the processing engine is started with. Made once, from the
/// handshake, and handed over by value.
#[derive(Debug)]
pub struct SessionParameters<C> {
    /// The directories that bound the analysis.
    pub roots: WorkspaceRoots,
    /// What the client declared it can do, as it came.
    pub capabilities: ClientCapabilities,
    /// The configuration of the session.
    pub config: C,
}

/// An initialised session: the parameters, and what has to be told before
/// the engine takes over.
#[derive(Debug)]
pub struct SessionStart<C> {
    pub parameters: SessionParameters<C>,
    /// The events to log.
    pub events: Vec<LogEvent>,
    /// The notifications to send to the client.
    pub notifications: Vec<UserNotification>,
}

/// Resolves the roots and the configuration of a session.
///
/// The roots are the declared workspace folders when there are any, whether
/// or not a root path is declared as well; else the declared root path
/// alone; else the working directory alone. The configuration is the
/// initialisation data where it fits the option schema, and the built-in
/// default where it does not or where there is none. Data that does not fit
/// is told to the user in exactly one notification of severity error, and
/// never ends the session.
pub fn initialize_session<C: Default>(
    cwd: PathBuf,
    request: HandshakeRequest<Result<C, String>>,
) -> (start: SessionStart<C>)
    ensures
        start.parameters.roots@.len() >= 1,
        declares_folders(request.workspace_folders) ==> start.parameters.roots@
            == request.workspace_folders->0@,
        !declares_folders(request.workspace_folders) && request.root_path is Some
            ==> start.parameters.roots@ == seq![request.root_path->0],
        !declares_folders(request.workspace_folders) && request.root_path is None
            ==> start.parameters.roots@ == seq![cwd],
        start.parameters.capabilities == request.capabilities,
        resolves_to(
            request.initialization_data,
            start.parameters.config,
            start.events@,
            start.notifications@,
        ),
        is_rejected(request.initialization_data) ==> {
            &&& call_ensures(C::default, (), start.parameters.config)
            &&& start.notifications@.len() == 1
            &&& start.notifications@[0].severity == Severity::Error
        },
        !is_rejected(request.initialization_data) ==> start.notifications@.len() == 0,
{
    let HandshakeRequest { capabilities, root_path, workspace_folders, initialization_data } =
        request;
    let roots = WorkspaceRoots::resolve(workspace_folders, root_path, cwd);
    let resolution = resolve_config(initialization_data);
    SessionStart {
        parameters: SessionParameters { roots, capabilities, config: resolution.config },
        events: resolution.events,
        notifications: resolution.notifications,
    }
}

} // verus!
