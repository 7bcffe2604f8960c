//! What the web interface answers.
use crate::error::AppError;
use crate::host::App as HostApp;
use crate::local::{
    LocalBootstrap, LocalEnsureError, LocalFailureCode as LocalFailureKind, LocalStatus,
};
use vstd::prelude::*;

verus! {

/// Why the local stream is not available.
#[derive(Debug, Clone, Copy, PartialEq, Eq, Structural)]
pub enum LocalFailureCode {
    SunshineNotReady,
    AssociationFailed,
    PairingFailed,
    DesktopAppNotFound,
    StreamBackendUnhealthy,
}

/// What a browser may do with the local stream.
#[derive(Debug, Clone, Copy, PartialEq, Eq, Structural)]
pub struct LocalStreamCapabilities {
    pub can_take_over: bool,
    pub observe_mode_default: bool,
}

/// The answer to a question for the state of the local stream.
#[derive(Debug)]
pub struct GetLocalStatusResponse {
    pub ready: bool,
    pub host_id: Option<u32>,
    pub app_id: Option<u32>,
    pub status_text: String,
    pub capabilities: LocalStreamCapabilities,
    pub failure: Option<LocalFailureCode>,
}

/// The answer that the local stream is ready to be started.
#[derive(Debug)]
pub struct GetLocalBootstrapResponse {
    pub host_id: u32,
    pub app_id: u32,
    pub status_text: String,
    pub capabilities: LocalStreamCapabilities,
}

/// The answer that the local stream is not available.
#[derive(Debug)]
pub struct LocalErrorResponse {
    pub code: LocalFailureCode,
    pub status_text: String,
    pub detail: Option<String>,
}

/// An application of a host, as it is shown to a browser.
#[derive(Debug)]
pub struct ApiApp {
    pub app_id: u32,
    pub title: String,
    pub is_hdr_supported: bool,
}

impl From<HostApp> for ApiApp {
    fn from(value: HostApp) -> (r: ApiApp) {
        ApiApp {
            app_id: value.id.0,
            title: value.title,
            is_hdr_supported: value.is_hdr_supported,
        }
    }
}

impl vstd::std_specs::convert::FromSpecImpl<HostApp> for ApiApp {
    open spec fn obeys_from_spec() -> bool {
        true
    }

    open spec fn from_spec(value: HostApp) -> ApiApp {
        ApiApp {
            app_id: value.id.0,
            title: value.title,
            is_hdr_supported: value.is_hdr_supported,
        }
    }
}

/// The name that a failure has in an answer.
pub open spec fn api_code(value: LocalFailureKind) -> LocalFailureCode {
    match value {
        LocalFailureKind::SunshineNotReady => LocalFailureCode::SunshineNotReady,
        LocalFailureKind::AssociationFailed => LocalFailureCode::AssociationFailed,
        LocalFailureKind::PairingFailed => LocalFailureCode::PairingFailed,
        LocalFailureKind::DesktopAppNotFound => LocalFailureCode::DesktopAppNotFound,
        LocalFailureKind::StreamBackendUnhealthy => LocalFailureCode::StreamBackendUnhealthy,
    }
}

/// Names a failure for an answer.
pub fn into_api_local_failure_code(value: LocalFailureKind) -> (r: LocalFailureCode)
    ensures
        r == api_code(value),
{
    match value {
        LocalFailureKind::SunshineNotReady => LocalFailureCode::SunshineNotReady,
        LocalFailureKind::AssociationFailed => LocalFailureCode::AssociationFailed,
        LocalFailureKind::PairingFailed => LocalFailureCode::PairingFailed,
        LocalFailureKind::DesktopAppNotFound => LocalFailureCode::DesktopAppNotFound,
        LocalFailureKind::StreamBackendUnhealthy => LocalFailureCode::StreamBackendUnhealthy,
    }
}

/// `r` answers a question for the state of the local stream.
pub open spec fn answers_status(status: LocalStatus, r: GetLocalStatusResponse) -> bool {
    &&& r.ready == status.ready
    &&& r.host_id == status.host_id
    &&& r.app_id == status.app_id
    &&& r.status_text == status.status_text
    &&& r.capabilities.can_take_over == status.can_take_over
    &&& r.capabilities.observe_mode_default == status.observe_mode_default
    &&& r.failure == match status.failure {
        Some(code) => Some(api_code(code)),
        None => None,
    }
}

/// Answers a question for the state of the local stream.
pub fn local_status(status: LocalStatus) -> (r: GetLocalStatusResponse)
    ensures
        answers_status(status, r),
        r.ready == status.ready,
        r.host_id == status.host_id,
        r.app_id == status.app_id,
        r.status_text == status.status_text,
        r.capabilities.can_take_over == status.can_take_over,
        r.capabilities.observe_mode_default == status.observe_mode_default,
        r.failure == (match status.failure {
            Some(code) => Some(api_code(code)),
            None => None,
        }),
{
    GetLocalStatusResponse {
        ready: status.ready,
        host_id: status.host_id,
        app_id: status.app_id,
        status_text: status.status_text,
        capabilities: LocalStreamCapabilities {
            can_take_over: status.can_take_over,
            observe_mode_default: status.observe_mode_default,
        },
        failure: match status.failure {
            Some(code) => Some(into_api_local_failure_code(code)),
            None => None,
        },
    }
}

/// An answer with its HTTP status code.
pub enum BootstrapAnswer {
    /// The local stream is ready; the status code is 200.
    Ready(GetLocalBootstrapResponse),
    /// The local stream is not available.
    Failed { status_code: u16, body: LocalErrorResponse },
}

/// The HTTP status code of a failure: one that may pass is a service that is not
/// available, another one is an error of the server.
pub open spec fn failure_status(retryable: bool) -> u16 {
    if retryable {
        503
    } else {
        500
    }
}

/// `r` answers a request to make the local stream ready.
pub open spec fn answers_bootstrap(
    outcome: Result<LocalBootstrap, LocalEnsureError>,
    r: BootstrapAnswer,
) -> bool {
    match outcome {
        Ok(bootstrap) => r == BootstrapAnswer::Ready(
            GetLocalBootstrapResponse {
                host_id: bootstrap.host_id,
                app_id: bootstrap.app_id,
                status_text: bootstrap.status_text,
                capabilities: LocalStreamCapabilities {
                    can_take_over: bootstrap.can_take_over,
                    observe_mode_default: bootstrap.observe_mode_default,
                },
            },
        ),
        Err(error) => r == (BootstrapAnswer::Failed {
            status_code: failure_status(error.retryable),
            body: LocalErrorResponse {
                code: api_code(error.code),
                status_text: error.status_text,
                detail: error.detail,
            },
        }),
    }
}

/// Answers with a failure.
pub fn local_error_response(error: LocalEnsureError) -> (r: (u16, LocalErrorResponse))
    ensures
        r.0 == failure_status(error.retryable),
        r.1.code == api_code(error.code),
        r.1.status_text == error.status_text,
        r.1.detail == error.detail,
{
    let status_code: u16 = if error.retryable {
        503
    } else {
        500
    };
    (
        status_code,
        LocalErrorResponse {
            code: into_api_local_failure_code(error.code),
            status_text: error.status_text,
            detail: error.detail,
        },
    )
}

/// Answers a request to make the local stream ready.
pub fn local_bootstrap_response(outcome: Result<LocalBootstrap, LocalEnsureError>) -> (r:
    BootstrapAnswer)
    ensures
        answers_bootstrap(outcome, r),
        match outcome {
            Ok(bootstrap) => {
                &&& r matches BootstrapAnswer::Ready(body)
                &&& body.host_id == bootstrap.host_id
                &&& body.app_id == bootstrap.app_id
                &&& body.status_text == bootstrap.status_text
                &&& body.capabilities.can_take_over == bootstrap.can_take_over
                &&& body.capabilities.observe_mode_default == bootstrap.observe_mode_default
            },
            Err(error) => {
                &&& r matches BootstrapAnswer::Failed { status_code, body }
                &&& status_code == failure_status(error.retryable)
                &&& body.code == api_code(error.code)
                &&& body.status_text == error.status_text
                &&& body.detail == error.detail
            },
        },
{
    match outcome {
        Ok(bootstrap) => BootstrapAnswer::Ready(
            GetLocalBootstrapResponse {
                host_id: bootstrap.host_id,
                app_id: bootstrap.app_id,
                status_text: bootstrap.status_text,
                capabilities: LocalStreamCapabilities {
                    can_take_over: bootstrap.can_take_over,
                    observe_mode_default: bootstrap.observe_mode_default,
                },
            },
        ),
        Err(error) => {
            let (status_code, body) = local_error_response(error);
            BootstrapAnswer::Failed { status_code, body }
        },
    }
}

/// Who makes a request.
#[derive(Debug, Clone, Copy, PartialEq, Eq, Structural)]
pub enum UserAuth {
    /// Nobody in particular: the configured default user.
    Anonymous,
}

/// Who makes a request. The server streams for one user: no request needs a login, a
/// session or a header, and every request counts as that of the default user.
pub fn extract_user_auth<R>(_request: &R) -> (r: Result<UserAuth, AppError>)
    ensures
        r == Ok::<UserAuth, AppError>(UserAuth::Anonymous),
{
    Ok(UserAuth::Anonymous)
}

/// Who makes a request to a server that may be gone.
pub fn authenticate<R, T>(request: &R, app: Option<T>) -> (r: Result<(T, UserAuth), AppError>)
    ensures
        match app {
            Some(app) => r == Ok::<(T, UserAuth), AppError>((app, UserAuth::Anonymous)),
            None => r == Err::<(T, UserAuth), AppError>(AppError::AppDestroyed),
        },
{
    let app = match app {
        None => {
            return Err(AppError::AppDestroyed);
        },
        Some(app) => app,
    };
    match extract_user_auth(request) {
        Ok(auth) => Ok((app, auth)),
        Err(error) => Err(error),
    }
}

/// Different failures have different names in an answer.
pub proof fn law_codes_stay_apart(a: LocalFailureKind, b: LocalFailureKind)
    ensures
        api_code(a) == api_code(b) <==> a == b,
{
}

/// A failure keeps its name in an answer.
pub proof fn law_codes_keep_their_names(code: LocalFailureKind)
    ensures
        code is SunshineNotReady <==> api_code(code) is SunshineNotReady,
        code is AssociationFailed <==> api_code(code) is AssociationFailed,
        code is PairingFailed <==> api_code(code) is PairingFailed,
        code is DesktopAppNotFound <==> api_code(code) is DesktopAppNotFound,
        code is StreamBackendUnhealthy <==> api_code(code) is StreamBackendUnhealthy,
{
}

/// A failure that may pass is answered as a service that is not available, and another
/// one as an error of the server.
pub proof fn law_failures_are_answered(retryable: bool)
    ensures
        failure_status(retryable) == 503 <==> retryable,
        failure_status(retryable) == 500 <==> !retryable,
{
}

/// An application that is shown keeps its number, its title and what it can show.
pub proof fn law_shown_apps_keep_their_fields(value: HostApp)
    ensures
        <ApiApp as vstd::std_specs::convert::FromSpec<HostApp>>::from_spec(value).app_id
            == value.id.0,
        <ApiApp as vstd::std_specs::convert::FromSpec<HostApp>>::from_spec(value).title
            == value.title,
        <ApiApp as vstd::std_specs::convert::FromSpec<HostApp>>::from_spec(value).is_hdr_supported
            == value.is_hdr_supported,
{
}

/// The answer for the state of the local stream says what the state is, in every part.
pub proof fn law_status_is_answered_as_it_is(status: LocalStatus, r: GetLocalStatusResponse)
    requires
        answers_status(status, r),
    ensures
        r.ready == status.ready,
        r.host_id == status.host_id,
        r.app_id == status.app_id,
        r.status_text == status.status_text,
        r.capabilities.can_take_over == status.can_take_over,
        r.capabilities.observe_mode_default == status.observe_mode_default,
        r.failure is Some <==> status.failure is Some,
        r.failure is Some ==> (r.failure->0 is SunshineNotReady
            <==> status.failure->0 is SunshineNotReady) && (r.failure->0 is AssociationFailed
            <==> status.failure->0 is AssociationFailed) && (r.failure->0 is PairingFailed
            <==> status.failure->0 is PairingFailed) && (r.failure->0 is DesktopAppNotFound
            <==> status.failure->0 is DesktopAppNotFound) && (
        r.failure->0 is StreamBackendUnhealthy <==> status.failure->0 is StreamBackendUnhealthy),
{
}

/// A stream that is ready is answered with its host and its application; a failure with
/// its code, its text and its detail, and as one that may pass exactly where it may.
pub proof fn law_bootstrap_is_answered_as_it_is(
    outcome: Result<LocalBootstrap, LocalEnsureError>,
    r: BootstrapAnswer,
)
    requires
        answers_bootstrap(outcome, r),
    ensures
        outcome matches Ok(bootstrap) ==> (r matches BootstrapAnswer::Ready(body) && body.host_id
            == bootstrap.host_id && body.app_id == bootstrap.app_id && body.status_text
            == bootstrap.status_text && body.capabilities.can_take_over == bootstrap.can_take_over
            && body.capabilities.observe_mode_default == bootstrap.observe_mode_default),
        outcome matches Err(error) ==> (r matches BootstrapAnswer::Failed { status_code, body }
            && status_code == (if error.retryable {
            503
        } else {
            500int
        }) && body.code == api_code(error.code) && body.status_text == error.status_text
            && body.detail == error.detail),
{
}

} // verus!
