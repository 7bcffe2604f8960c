use moonlight_web::api::{
    authenticate, extract_user_auth, into_api_local_failure_code, local_bootstrap_response,
    local_error_response, local_status, ApiApp, BootstrapAnswer, LocalFailureCode, UserAuth,
};
use moonlight_web::error::AppError;
use moonlight_web::host::{App, AppId};
use moonlight_web::local::{
    get_local_status, LocalBootstrap, LocalEnsureError, LocalFailureCode as Kind,
};

fn bootstrap() -> LocalBootstrap {
    LocalBootstrap {
        host_id: 3,
        app_id: 8,
        status_text: "Computer stream is ready.".to_string(),
        can_take_over: true,
        observe_mode_default: true,
    }
}

fn failure(retryable: bool) -> LocalEnsureError {
    LocalEnsureError::new(Kind::PairingFailed, "no", Some("why".to_string()), retryable)
}

#[test]
fn ready_status_is_answered() {
    let answer = local_status(get_local_status(Ok(bootstrap())));
    assert!(answer.ready);
    assert_eq!(answer.host_id, Some(3));
    assert_eq!(answer.app_id, Some(8));
    assert_eq!(answer.status_text, "Computer stream is ready.");
    assert!(answer.capabilities.can_take_over);
    assert!(answer.capabilities.observe_mode_default);
    assert_eq!(answer.failure, None);
}

#[test]
fn failed_status_is_answered() {
    let answer = local_status(get_local_status(Err(failure(true))));
    assert!(!answer.ready);
    assert_eq!(answer.host_id, None);
    assert_eq!(answer.app_id, None);
    assert_eq!(answer.status_text, "no");
    assert!(answer.capabilities.can_take_over);
    assert!(answer.capabilities.observe_mode_default);
    assert_eq!(answer.failure, Some(LocalFailureCode::PairingFailed));
}

#[test]
fn bootstrap_is_answered() {
    match local_bootstrap_response(Ok(bootstrap())) {
        BootstrapAnswer::Ready(body) => {
            assert_eq!(body.host_id, 3);
            assert_eq!(body.app_id, 8);
            assert_eq!(body.status_text, "Computer stream is ready.");
            assert!(body.capabilities.can_take_over && body.capabilities.observe_mode_default);
        }
        BootstrapAnswer::Failed { .. } => panic!("the stream is ready"),
    }
}

#[test]
fn failures_that_may_pass_are_told_apart() {
    assert_eq!(local_error_response(failure(true)).0, 503);
    assert_eq!(local_error_response(failure(false)).0, 500);
    match local_bootstrap_response(Err(failure(false))) {
        BootstrapAnswer::Failed { status_code, body } => {
            assert_eq!(status_code, 500);
            assert_eq!(body.code, LocalFailureCode::PairingFailed);
            assert_eq!(body.status_text, "no");
            assert_eq!(body.detail, Some("why".to_string()));
        }
        BootstrapAnswer::Ready(_) => panic!("the stream is not ready"),
    }
}

#[test]
fn codes_keep_their_names() {
    let pairs = [
        (Kind::SunshineNotReady, LocalFailureCode::SunshineNotReady),
        (Kind::AssociationFailed, LocalFailureCode::AssociationFailed),
        (Kind::PairingFailed, LocalFailureCode::PairingFailed),
        (Kind::DesktopAppNotFound, LocalFailureCode::DesktopAppNotFound),
        (Kind::StreamBackendUnhealthy, LocalFailureCode::StreamBackendUnhealthy),
    ];
    for (kind, code) in pairs {
        assert_eq!(into_api_local_failure_code(kind), code);
    }
}

#[test]
fn applications_are_shown() {
    let shown = ApiApp::from(App {
        id: AppId(12),
        title: "Desktop".to_string(),
        is_hdr_supported: true,
    });
    assert_eq!(shown.app_id, 12);
    assert_eq!(shown.title, "Desktop");
    assert!(shown.is_hdr_supported);
}

#[test]
fn every_request_is_that_of_the_default_user() {
    assert!(matches!(extract_user_auth(&"request"), Ok(UserAuth::Anonymous)));
    assert!(matches!(authenticate(&"request", Some(5)), Ok((5, UserAuth::Anonymous))));
    let gone: Option<u8> = None;
    assert!(matches!(authenticate(&"request", gone), Err(AppError::AppDestroyed)));
}
