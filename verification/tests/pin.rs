use moonlight_web::pin::{
    pin_request, pin_url, status_accepted, sunshine_api_credential, sunshine_api_port,
    sunshine_pin_accepted, JsonMember, PinReply, PinRequest, PinStep, PinSubmission,
};

fn answered(success: bool, body: &str) -> PinReply {
    PinReply::Answered { success, body: body.to_string() }
}

fn request() -> PinRequest {
    pin_request(None, None, None, "1234".to_string(), "roth".to_string())
}

#[test]
fn status_member_decides() {
    assert!(sunshine_pin_accepted("{\"status\": true}"));
    assert!(!sunshine_pin_accepted("{\"status\": false}"));
    assert!(sunshine_pin_accepted("{\"status\": \"true\"}"));
    assert!(sunshine_pin_accepted("{\"status\": \"TRUE\", \"x\": 1}"));
    assert!(!sunshine_pin_accepted("{\"status\": \"yes\"}"));
    assert!(!sunshine_pin_accepted("{\"status\": 1}"));
    assert!(!sunshine_pin_accepted("{\"status\": null}"));
    assert!(!sunshine_pin_accepted("{\"status\": [true]}"));
    assert!(!sunshine_pin_accepted("{\"status\": {\"status\": true}}"));
    assert!(!sunshine_pin_accepted("{\"state\": true}"));
    assert!(!sunshine_pin_accepted("true"));
    assert!(!sunshine_pin_accepted("[{\"status\": true}]"));
    assert!(!sunshine_pin_accepted("{\"status\": true"));
    assert!(!sunshine_pin_accepted(""));
}

#[test]
fn read_out_members_are_judged() {
    assert!(status_accepted(&Some(JsonMember::Bool(true))));
    assert!(!status_accepted(&Some(JsonMember::Bool(false))));
    assert!(status_accepted(&Some(JsonMember::Text("tRuE".to_string()))));
    assert!(!status_accepted(&Some(JsonMember::Text("".to_string()))));
    assert!(!status_accepted(&Some(JsonMember::Null)));
    assert!(!status_accepted(&Some(JsonMember::Number)));
    assert!(!status_accepted(&Some(JsonMember::Array)));
    assert!(!status_accepted(&Some(JsonMember::Object)));
    assert!(!status_accepted(&None));
}

#[test]
fn pauses_double_up_to_two_seconds() {
    let mut submission = PinSubmission::new(request());
    for pause in [100u64, 200, 400, 800, 1600, 2000, 2000, 2000] {
        assert_eq!(submission.on_reply(&PinReply::Failed), PinStep::RetryAfter(pause));
    }
}

#[test]
fn accepted_pin_is_not_posted_again() {
    let mut submission = PinSubmission::new(request());
    assert_eq!(
        submission.on_reply(&answered(true, "{\"status\": false}")),
        PinStep::RetryAfter(100)
    );
    assert_eq!(
        submission.on_reply(&answered(false, "{\"status\": true}")),
        PinStep::RetryAfter(200)
    );
    assert_eq!(submission.on_reply(&answered(true, "{\"status\": true}")), PinStep::Stop);
    assert_eq!(submission.on_judged(true), PinStep::Stop);
    assert_eq!(submission.on_judged(false), PinStep::RetryAfter(400));
}

#[test]
fn environment_overrides_the_defaults() {
    assert_eq!(sunshine_api_port(None), 47990);
    assert_eq!(sunshine_api_port(Some("8080")), 8080);
    assert_eq!(sunshine_api_port(Some("80800")), 47990);
    assert_eq!(sunshine_api_port(Some("x")), 47990);
    assert_eq!(sunshine_api_credential(None), "yuu");
    assert_eq!(sunshine_api_credential(Some("".to_string())), "");
    assert_eq!(sunshine_api_credential(Some("me".to_string())), "me");
}

#[test]
fn pin_goes_to_the_local_interface() {
    assert_eq!(pin_url(47990), "https://127.0.0.1:47990/api/pin");
    assert_eq!(pin_url(1), "https://127.0.0.1:1/api/pin");
}

#[test]
fn every_attempt_posts_the_same() {
    let mut submission = PinSubmission::new(pin_request(
        Some("8080"),
        Some("me".to_string()),
        None,
        "1234".to_string(),
        "roth".to_string(),
    ));
    for _ in 0..3 {
        let posted = &submission.request;
        assert_eq!(posted.url, "https://127.0.0.1:8080/api/pin");
        assert_eq!((posted.username.as_str(), posted.password.as_str()), ("me", "yuu"));
        assert_eq!((posted.pin.as_str(), posted.name.as_str()), ("1234", "roth"));
        submission.on_reply(&PinReply::Failed);
    }
}
