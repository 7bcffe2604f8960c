//! Errors of the web server, their texts and their HTTP status codes.
use vstd::prelude::*;

verus! {

/// A request to a stream host that never got a reply.
#[derive(Debug)]
pub struct RequestError {
    /// No connection to the host could be made.
    pub connect: bool,
    /// The encrypted channel to the host could not be set up.
    pub encryption: bool,
    /// What the error says of itself.
    pub text: String,
}

/// A failed exchange with a stream host.
#[derive(Debug)]
pub enum ApiError {
    /// The request got no reply.
    RequestClient(RequestError),
    /// The host answered with an error status, possibly with a message.
    InvalidXmlStatusCode { message: Option<String>, text: String },
    /// Any other failure.
    Other(String),
}

impl ApiError {
    /// What the error says of itself.
    pub open spec fn spec_text(self) -> Seq<char> {
        match self {
            ApiError::RequestClient(error) => error.text@,
            ApiError::InvalidXmlStatusCode { message: _, text } => text@,
            ApiError::Other(text) => text@,
        }
    }

    /// The host could not be connected to.
    pub open spec fn is_connect(self) -> bool {
        self matches ApiError::RequestClient(error) && error.connect
    }

    /// What the error says of itself.
    pub fn text(&self) -> (r: String)
        ensures
            r@ == self.spec_text(),
    {
        match self {
            ApiError::RequestClient(error) => error.text.clone(),
            ApiError::InvalidXmlStatusCode { message: _, text } => text.clone(),
            ApiError::Other(text) => text.clone(),
        }
    }

    /// Whether the host could not be connected to.
    pub fn no_connection(&self) -> (r: bool)
        ensures
            r == self.is_connect(),
    {
        match self {
            ApiError::RequestClient(error) => error.connect,
            _ => false,
        }
    }
}

/// An error of the web server. A variant with a text carries what its cause says
/// of itself.
#[derive(Debug)]
pub enum AppError {
    AppDestroyed,
    HostNotFound,
    HostPaired,
    HostNotPaired,
    HostOffline,
    Forbidden,
    OpenSSL(String),
    Hex(String),
    Io(String),
    MoonlightApi(ApiError),
    Pairing(String),
}

impl AppError {
    /// What the error says of itself.
    pub open spec fn spec_message(self) -> Seq<char> {
        match self {
            AppError::AppDestroyed => "the app got destroyed"@,
            AppError::HostNotFound => "the host was not found"@,
            AppError::HostPaired => "the host was already paired"@,
            AppError::HostNotPaired => "the host must be paired for this action"@,
            AppError::HostOffline =>
                "the host was offline, but the action requires that the host is online"@,
            AppError::Forbidden => "the action is not allowed with the current privileges, 403"@,
            AppError::OpenSSL(text) => "openssl error occured: "@ + text@,
            AppError::Hex(text) => "hex error occured: "@ + text@,
            AppError::Io(text) => "io error: "@ + text@,
            AppError::MoonlightApi(error) => "moonlight api error: "@ + error.spec_text(),
            AppError::Pairing(text) => "pairing error: "@ + text@,
        }
    }

    /// The HTTP status code that a request which ends in this error is answered with.
    pub open spec fn spec_status_code(self) -> u16 {
        match self {
            AppError::HostPaired => 304,
            AppError::Hex(_) => 400,
            AppError::HostNotPaired => 403,
            AppError::Forbidden => 403,
            AppError::HostNotFound => 404,
            AppError::HostOffline => 504,
            _ => 500,
        }
    }

    /// The text of the error.
    pub fn message(&self) -> (r: String)
        ensures
            r@ == self.spec_message(),
    {
        match self {
            AppError::AppDestroyed => "the app got destroyed".to_owned(),
            AppError::HostNotFound => "the host was not found".to_owned(),
            AppError::HostPaired => "the host was already paired".to_owned(),
            AppError::HostNotPaired => "the host must be paired for this action".to_owned(),
            AppError::HostOffline =>
                "the host was offline, but the action requires that the host is online".to_owned(),
            AppError::Forbidden =>
                "the action is not allowed with the current privileges, 403".to_owned(),
            AppError::OpenSSL(text) => "openssl error occured: ".to_owned().concat(text.as_str()),
            AppError::Hex(text) => "hex error occured: ".to_owned().concat(text.as_str()),
            AppError::Io(text) => "io error: ".to_owned().concat(text.as_str()),
            AppError::MoonlightApi(error) =>
                "moonlight api error: ".to_owned().concat(error.text().as_str()),
            AppError::Pairing(text) => "pairing error: ".to_owned().concat(text.as_str()),
        }
    }

    /// The HTTP status code of the error.
    pub fn status_code(&self) -> (r: u16)
        ensures
            r == self.spec_status_code(),
    {
        match self {
            AppError::AppDestroyed => 500,
            AppError::HostNotFound => 404,
            AppError::HostNotPaired => 403,
            AppError::HostPaired => 304,
            AppError::HostOffline => 504,
            AppError::Forbidden => 403,
            AppError::OpenSSL(_) => 500,
            AppError::Hex(_) => 400,
            AppError::MoonlightApi(_) => 500,
            AppError::Io(_) => 500,
            AppError::Pairing(_) => 500,
        }
    }
}

/// An error says of itself what its cause says of itself.
pub proof fn law_api_errors_speak_for_themselves(error: ApiError)
    ensures
        error matches ApiError::RequestClient(cause) ==> error.spec_text() == cause.text@,
        error matches ApiError::InvalidXmlStatusCode { text, .. } ==> error.spec_text() == text@,
        error matches ApiError::Other(text) ==> error.spec_text() == text@,
{
}

/// A host counts as unreachable only by a request that got no connection.
pub proof fn law_unreachable_is_without_connection(error: ApiError)
    ensures
        error.is_connect() ==> error is RequestClient,
        error matches ApiError::RequestClient(cause) ==> error.is_connect() == cause.connect,
{
}

/// An error with a cause says what kind of error it is, and then all that its cause
/// says; the others have a text of their own.
pub proof fn law_messages_hold_their_cause(error: AppError)
    ensures
        error matches AppError::OpenSSL(text) ==> error.spec_message()
            == "openssl error occured: "@ + text@,
        error matches AppError::Hex(text) ==> error.spec_message() == "hex error occured: "@
            + text@,
        error matches AppError::Io(text) ==> error.spec_message() == "io error: "@ + text@,
        error matches AppError::MoonlightApi(cause) ==> error.spec_message()
            == "moonlight api error: "@ + cause.spec_text(),
        error matches AppError::Pairing(text) ==> error.spec_message() == "pairing error: "@
            + text@,
        error is AppDestroyed ==> error.spec_message() == "the app got destroyed"@,
        error is HostNotFound ==> error.spec_message() == "the host was not found"@,
        error is HostPaired ==> error.spec_message() == "the host was already paired"@,
        error is HostNotPaired ==> error.spec_message()
            == "the host must be paired for this action"@,
        error is HostOffline ==> error.spec_message()
            == "the host was offline, but the action requires that the host is online"@,
        error is Forbidden ==> error.spec_message()
            == "the action is not allowed with the current privileges, 403"@,
{
}

/// The status code is a matter of the kind of the error alone.
pub proof fn law_status_codes(error: AppError)
    ensures
        error.spec_status_code() == 304 <==> error is HostPaired,
        error.spec_status_code() == 400 <==> error is Hex,
        error.spec_status_code() == 403 <==> error is HostNotPaired || error is Forbidden,
        error.spec_status_code() == 404 <==> error is HostNotFound,
        error.spec_status_code() == 504 <==> error is HostOffline,
        error.spec_status_code() == 500 <==> error is AppDestroyed || error is OpenSSL
            || error is MoonlightApi || error is Io || error is Pairing,
{
}

} // verus!
