//! The one face of the two backends: an app server, or a CloudStaff session.

use crate::attach::{lists, runs_read_only, ThreadResumeResponse};
use crate::error::{BackendError, ErrorKind, ErrorView};
use crate::session::JoinedSession;
use vstd::prelude::*;

verus! {

/// What this library knows of an app server client.
#[derive(Debug)]
pub enum AppServerClient {
    /// The app server runs in this process.
    InProcess,
    /// The app server is elsewhere and may have named its version.
    Remote { server_version: Option<String> },
}

/// The backend that the user interface talks to.
#[derive(Debug)]
pub enum TuiBackendClient {
    AppServer(AppServerClient),
    CloudStaff(JoinedSession),
}

/// What this library knows of the request handle of an app server client.
#[derive(Clone, Copy, Debug, PartialEq, Eq, Structural)]
pub enum AppServerRequestHandle {
    InProcess,
    Remote,
}

/// The handle through which requests are made.
#[derive(Clone, Copy, Debug, PartialEq, Eq, Structural)]
pub enum TuiBackendRequestHandle {
    AppServer(AppServerRequestHandle),
    CloudStaff,
}

impl TuiBackendRequestHandle {
    /// Whether requests go to an app server in this process.
    pub fn uses_embedded_app_server(&self) -> (res: bool)
        ensures
            res == (*self == TuiBackendRequestHandle::AppServer(
                AppServerRequestHandle::InProcess,
            )),
    {
        match self {
            TuiBackendRequestHandle::AppServer(AppServerRequestHandle::InProcess) => true,
            _ => false,
        }
    }
}

/// The error for what a CloudStaff session does not offer.
pub open spec fn unavailable() -> ErrorView {
    ErrorView {
        kind: ErrorKind::Unsupported,
        message: "CloudStaff session backend is not connected in this build"@,
    }
}

/// The error for what a CloudStaff session does not offer.
pub fn unavailable_error() -> (res: BackendError)
    ensures
        res.deep_view() == unavailable(),
{
    BackendError::new(
        ErrorKind::Unsupported,
        "CloudStaff session backend is not connected in this build",
    )
}

impl TuiBackendClient {
    /// A backend that is an app server.
    pub fn app_server(client: AppServerClient) -> (res: TuiBackendClient)
        ensures
            res == TuiBackendClient::AppServer(client),
    {
        TuiBackendClient::AppServer(client)
    }

    /// A backend that is a joined session.
    pub fn cloudstaff(session: JoinedSession) -> (res: TuiBackendClient)
        ensures
            res == TuiBackendClient::CloudStaff(session),
    {
        TuiBackendClient::CloudStaff(session)
    }

    /// Whether the app server runs in this process.
    pub fn uses_embedded_app_server(&self) -> (res: bool)
        ensures
            res == (self matches TuiBackendClient::AppServer(client) && client is InProcess),
    {
        match self {
            TuiBackendClient::AppServer(AppServerClient::InProcess) => true,
            _ => false,
        }
    }

    /// The home directory of the backend, given the one that the app server client
    /// names. A session has none.
    pub fn codex_home(&self, of_app_server: Option<String>) -> (res: Option<String>)
        ensures
            res == if self is AppServer {
                of_app_server
            } else {
                None
            },
    {
        match self {
            TuiBackendClient::AppServer(_) => of_app_server,
            TuiBackendClient::CloudStaff(_) => None,
        }
    }

    /// The version of the server, where one is elsewhere and named it.
    pub fn server_version(&self) -> (res: Option<&str>)
        ensures
            res.deep_view() == match self {
                TuiBackendClient::AppServer(
                    AppServerClient::Remote { server_version },
                ) => server_version.deep_view(),
                _ => None,
            },
    {
        match self {
            TuiBackendClient::AppServer(AppServerClient::Remote { server_version }) => {
                match server_version {
                    Some(version) => Some(version.as_str()),
                    None => None,
                }
            },
            _ => None,
        }
    }

    /// The client that resolves a request of the server; a session makes no requests,
    /// and refuses.
    pub fn resolve_server_request(&self) -> (res: Result<&AppServerClient, BackendError>)
        ensures
            match (self, res) {
                (TuiBackendClient::AppServer(client), Ok(chosen)) => chosen == client,
                (TuiBackendClient::CloudStaff(_), Err(error)) => error.deep_view() == unavailable(),
                _ => false,
            },
    {
        match self {
            TuiBackendClient::AppServer(client) => Ok(client),
            TuiBackendClient::CloudStaff(_) => Err(unavailable_error()),
        }
    }

    /// The client that rejects a request of the server; a session makes no requests,
    /// and refuses.
    pub fn reject_server_request(&self) -> (res: Result<&AppServerClient, BackendError>)
        ensures
            match (self, res) {
                (TuiBackendClient::AppServer(client), Ok(chosen)) => chosen == client,
                (TuiBackendClient::CloudStaff(_), Err(error)) => error.deep_view() == unavailable(),
                _ => false,
            },
    {
        match self {
            TuiBackendClient::AppServer(client) => Ok(client),
            TuiBackendClient::CloudStaff(_) => Err(unavailable_error()),
        }
    }

    /// The handle through which requests are made.
    pub fn request_handle(&self) -> (res: TuiBackendRequestHandle)
        ensures
            res == match self {
                TuiBackendClient::AppServer(AppServerClient::InProcess) => {
                    TuiBackendRequestHandle::AppServer(AppServerRequestHandle::InProcess)
                },
                TuiBackendClient::AppServer(AppServerClient::Remote { .. }) => {
                    TuiBackendRequestHandle::AppServer(AppServerRequestHandle::Remote)
                },
                TuiBackendClient::CloudStaff(_) => TuiBackendRequestHandle::CloudStaff,
            },
    {
        match self {
            TuiBackendClient::AppServer(AppServerClient::InProcess) => {
                TuiBackendRequestHandle::AppServer(AppServerRequestHandle::InProcess)
            },
            TuiBackendClient::AppServer(AppServerClient::Remote { .. }) => {
                TuiBackendRequestHandle::AppServer(AppServerRequestHandle::Remote)
            },
            TuiBackendClient::CloudStaff(_) => TuiBackendRequestHandle::CloudStaff,
        }
    }

    /// The thread to attach to, where the backend is a session.
    pub fn cloudstaff_attached_response(
        &self,
        model: String,
        cwd: String,
        cli_version: String,
    ) -> (res: Option<ThreadResumeResponse>)
        ensures
            match (self, res) {
                (TuiBackendClient::AppServer(_), None) => true,
                (TuiBackendClient::CloudStaff(session), Some(response)) => {
                    &&& lists(response.thread, session.deep_view())
                    &&& response.thread.cwd@ == cwd@
                    &&& response.thread.cli_version@ == cli_version@
                    &&& runs_read_only(response)
                    &&& response.model@ == model@
                    &&& response.cwd@ == cwd@
                },
                _ => false,
            },
    {
        match self {
            TuiBackendClient::AppServer(_) => None,
            TuiBackendClient::CloudStaff(session) => Some(
                session.attached_response(model, cwd, cli_version),
            ),
        }
    }

    /// Whether the backend is a session.
    pub fn is_cloudstaff(&self) -> (res: bool)
        ensures
            res == (self is CloudStaff),
    {
        match self {
            TuiBackendClient::CloudStaff(_) => true,
            TuiBackendClient::AppServer(_) => false,
        }
    }
}

/// Why a request with a typed response failed.
#[derive(Debug)]
#[allow(inconsistent_fields)]
pub enum TypedRequestError<E, D> {
    /// The request was refused or got no response.
    Transport { method: String, source: E },
    /// The response is not of the expected type.
    Deserialize { method: String, source: D },
}

/// The typed response to a request, given what came back: an error of the backend, or
/// the decoded response, or the decoder's error.
pub fn request_typed<T, E, D>(method: String, answer: Result<Result<T, D>, E>) -> (res: Result<
    T,
    TypedRequestError<E, D>,
>)
    ensures
        match (answer, res) {
            (Ok(Ok(response)), Ok(typed)) => typed == response,
            (
                Ok(Err(error)),
                Err(TypedRequestError::Deserialize { method: named, source }),
            ) => named == method && source == error,
            (
                Err(error),
                Err(TypedRequestError::Transport { method: named, source }),
            ) => named == method && source == error,
            _ => false,
        },
{
    match answer {
        Ok(Ok(response)) => Ok(response),
        Ok(Err(source)) => Err(TypedRequestError::Deserialize { method, source }),
        Err(source) => Err(TypedRequestError::Transport { method, source }),
    }
}

} // verus!
