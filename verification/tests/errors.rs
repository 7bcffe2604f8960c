use moonlight_web::error::{ApiError, AppError, RequestError};

fn api_error() -> ApiError {
    ApiError::Other("bad xml".to_string())
}

#[test]
fn every_error_has_its_text_and_status() {
    let cases = vec![
        (AppError::AppDestroyed, "the app got destroyed", 500),
        (AppError::HostNotFound, "the host was not found", 404),
        (AppError::HostPaired, "the host was already paired", 304),
        (AppError::HostNotPaired, "the host must be paired for this action", 403),
        (
            AppError::HostOffline,
            "the host was offline, but the action requires that the host is online",
            504,
        ),
        (
            AppError::Forbidden,
            "the action is not allowed with the current privileges, 403",
            403,
        ),
        (AppError::OpenSSL("stack".to_string()), "openssl error occured: stack", 500),
        (AppError::Hex("odd".to_string()), "hex error occured: odd", 400),
        (AppError::Io("gone".to_string()), "io error: gone", 500),
        (AppError::MoonlightApi(api_error()), "moonlight api error: bad xml", 500),
        (AppError::Pairing("pin".to_string()), "pairing error: pin", 500),
    ];
    for (error, text, status) in cases {
        assert_eq!(error.message(), text);
        assert_eq!(error.status_code(), status);
    }
}

#[test]
fn only_a_request_without_connection_counts_as_offline() {
    let request = |connect: bool| {
        ApiError::RequestClient(RequestError {
            connect,
            encryption: false,
            text: "no route".to_string(),
        })
    };
    assert!(request(true).no_connection());
    assert!(!request(false).no_connection());
    assert!(!api_error().no_connection());
    assert_eq!(request(true).text(), "no route");
    let status = ApiError::InvalidXmlStatusCode {
        message: Some("m".to_string()),
        text: "status 401".to_string(),
    };
    assert!(!status.no_connection());
    assert_eq!(status.text(), "status 401");
}
