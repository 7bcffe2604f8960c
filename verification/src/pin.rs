//! Handing the pairing PIN to the local Sunshine instance through its web interface.
use crate::text::{decimal_text, parse_u16, same_text_ignoring_case};
use vstd::arithmetic::power2::{lemma2_to64, lemma_pow2_unfold, pow2};
use vstd::prelude::*;

verus! {

/// A parsed JSON text of the `serde_json` crate.
#[verifier::external_type_specification]
#[verifier::external_body]
pub struct ExValue(serde_json::Value);

/// Why the `serde_json` crate could not parse a text.
#[verifier::external_type_specification]
#[verifier::external_body]
pub struct ExJsonError(serde_json::Error);

/// A member of a JSON object, as far as it is looked at.
pub enum Member {
    Null,
    Bool(bool),
    Number,
    Text(Seq<char>),
    Array,
    Object,
}

/// A member of a JSON object that was read out.
#[derive(Debug)]
pub enum JsonMember {
    Null,
    Bool(bool),
    Number,
    Text(String),
    Array,
    Object,
}

impl View for JsonMember {
    type V = Member;

    open spec fn view(&self) -> Member {
        match self {
            JsonMember::Null => Member::Null,
            JsonMember::Bool(value) => Member::Bool(*value),
            JsonMember::Number => Member::Number,
            JsonMember::Text(value) => Member::Text(value@),
            JsonMember::Array => Member::Array,
            JsonMember::Object => Member::Object,
        }
    }
}

/// The members of the JSON object that `text` holds. `None` where `text` is no JSON;
/// no members where it is JSON, but no object.
pub uninterp spec fn json_members(text: Seq<char>) -> Option<Map<Seq<char>, Member>>;

/// The members of a parsed JSON object; none where the value is no object.
pub uninterp spec fn members_of(value: serde_json::Value) -> Map<Seq<char>, Member>;

/// `serde_json::from_str` for `serde_json::Value`: whether a text can be parsed, and
/// which members it then has, depends on the text alone.
#[verifier::external_body]
fn parse_json(text: &str) -> (r: Result<serde_json::Value, serde_json::Error>)
    ensures
        match r {
            Ok(value) => json_members(text@) == Some(members_of(value)),
            Err(_) => json_members(text@) is None,
        },
{
    serde_json::from_str::<serde_json::Value>(text)
}

/// `serde_json::Value::get` with a text for its index: the member of that name.
#[verifier::external_body]
fn json_member(value: &serde_json::Value, name: &str) -> (r: Option<JsonMember>)
    ensures
        match r {
            Some(member) => members_of(*value).contains_key(name@) && members_of(*value)[name@]
                == member@,
            None => !members_of(*value).contains_key(name@),
        },
{
    value.get(name).map(
        |member| match member {
            serde_json::Value::Null => JsonMember::Null,
            serde_json::Value::Bool(value) => JsonMember::Bool(*value),
            serde_json::Value::Number(_) => JsonMember::Number,
            serde_json::Value::String(value) => JsonMember::Text(value.clone()),
            serde_json::Value::Array(_) => JsonMember::Array,
            serde_json::Value::Object(_) => JsonMember::Object,
        },
    )
}

/// A status member that reports success: the truth value, or the word for it in
/// whatever case.
pub open spec fn is_success(status: Member) -> bool {
    match status {
        Member::Bool(value) => value,
        Member::Text(value) => crate::text::lower(value) == "true"@,
        _ => false,
    }
}

/// The status member of an object, where it has one, reports success.
pub open spec fn reports_success(members: Map<Seq<char>, Member>) -> bool {
    members.contains_key("status"@) && is_success(members["status"@])
}

/// The reply `body` says that the PIN was accepted.
pub open spec fn accepts_pin(body: Seq<char>) -> bool {
    json_members(body) matches Some(members) && reports_success(members)
}

/// Whether a status member, where there is one, reports success.
pub fn status_accepted(status: &Option<JsonMember>) -> (r: bool)
    ensures
        r == (status matches Some(member) && is_success(member@)),
        status matches Some(JsonMember::Text(text)) ==> (r <==> text@.len() == 4 && (text@[0] == 't'
            || text@[0] == 'T') && (text@[1] == 'r' || text@[1] == 'R') && (text@[2] == 'u'
            || text@[2] == 'U') && (text@[3] == 'e' || text@[3] == 'E')),
        status matches Some(JsonMember::Bool(value)) ==> r == value,
        r ==> (status matches Some(JsonMember::Text(_))) || (status matches Some(
            JsonMember::Bool(_),
        )),
{
    proof {
        if let Some(JsonMember::Text(text)) = status {
            law_accepting_text_is_the_word_for_true(text@);
        }
    }
    match status {
        Some(JsonMember::Bool(value)) => *value,
        Some(JsonMember::Text(value)) => {
            proof {
                reveal_strlit("true");
                assert(crate::text::lower("true"@) =~= "true"@);
            }
            same_text_ignoring_case(value.as_str(), "true")
        },
        _ => false,
    }
}

/// Whether the reply of Sunshine says that the PIN was accepted.
pub fn sunshine_pin_accepted(body: &str) -> (r: bool)
    ensures
        r == accepts_pin(body@),
{
    match parse_json(body) {
        Ok(json) => status_accepted(&json_member(&json, "status")),
        Err(_) => false,
    }
}

/// The first pause between two attempts, in milliseconds.
pub const PIN_RETRY_INITIAL_MS: u64 = 100;

/// The longest pause between two attempts, in milliseconds.
pub const PIN_RETRY_MAX_MS: u64 = 2000;

/// How long a pairing may take, in milliseconds.
pub const PAIR_TIMEOUT_MS: u64 = 30000;

/// The port of the web interface, unless the environment says otherwise.
pub const DEFAULT_SUNSHINE_API_PORT: u16 = 47990;

/// The port of the web interface: what the environment says, where that is a port.
pub open spec fn spec_api_port(value: Option<&str>) -> u16 {
    match value {
        Some(text) => match crate::text::parsed_u16(text@) {
            Some(port) => port,
            None => DEFAULT_SUNSHINE_API_PORT,
        },
        None => DEFAULT_SUNSHINE_API_PORT,
    }
}

/// The port of the web interface.
pub fn sunshine_api_port(value: Option<&str>) -> (r: u16)
    ensures
        r == spec_api_port(value),
{
    match value {
        Some(text) => match parse_u16(text) {
            Some(port) => port,
            None => DEFAULT_SUNSHINE_API_PORT,
        },
        None => DEFAULT_SUNSHINE_API_PORT,
    }
}

/// A credential of the web interface: what the environment says, or the default.
pub open spec fn spec_api_credential(value: Option<String>) -> Seq<char> {
    match value {
        Some(text) => text@,
        None => "yuu"@,
    }
}

/// A credential of the web interface.
pub fn sunshine_api_credential(value: Option<String>) -> (r: String)
    ensures
        r@ == spec_api_credential(value),
{
    match value {
        Some(text) => text,
        None => "yuu".to_owned(),
    }
}

/// Where the PIN is posted to.
pub open spec fn spec_pin_url(port: u16) -> Seq<char> {
    "https://"@ + crate::local::local_address() + ":"@ + crate::text::decimal(port as nat)
        + "/api/pin"@
}

/// Says where the PIN is posted to.
pub fn pin_url(port: u16) -> (r: String)
    ensures
        r@ == spec_pin_url(port),
{
    "https://".to_owned().concat("127.0.0.1").concat(":").concat(
        decimal_text(port as u64).as_str(),
    ).concat("/api/pin")
}

/// What is posted to the web interface: two texts in one object, `pin` and `name`, with
/// the credentials beside it.
#[derive(Debug)]
pub struct PinRequest {
    pub url: String,
    pub username: String,
    pub password: String,
    /// The PIN.
    pub pin: String,
    /// The name of this device.
    pub name: String,
}

/// The request that hands the PIN over. The port and the credentials are what the
/// environment says, or the defaults.
pub fn pin_request(
    api_port: Option<&str>,
    api_username: Option<String>,
    api_password: Option<String>,
    pin: String,
    name: String,
) -> (r: PinRequest)
    ensures
        r.url@ == spec_pin_url(spec_api_port(api_port)),
        r.username@ == spec_api_credential(api_username),
        r.password@ == spec_api_credential(api_password),
        r.pin == pin,
        r.name == name,
{
    PinRequest {
        url: pin_url(sunshine_api_port(api_port)),
        username: sunshine_api_credential(api_username),
        password: sunshine_api_credential(api_password),
        pin,
        name,
    }
}

/// What came of posting the PIN once.
pub enum PinReply {
    /// An answer came; with its body where its status is one of success.
    Answered { success: bool, body: String },
    /// No answer came.
    Failed,
}

impl PinReply {
    /// The PIN was accepted.
    pub open spec fn is_accepted(self) -> bool {
        self matches PinReply::Answered { success, body } && success && accepts_pin(body@)
    }
}

/// What follows an attempt to post the PIN.
#[derive(Debug, Clone, Copy, PartialEq, Eq, Structural)]
pub enum PinStep {
    /// The PIN must not be posted again: that could reset the pairing under way.
    Stop,
    /// The PIN is posted again after so many milliseconds.
    RetryAfter(u64),
}

/// Twice the pause, up to the longest one.
pub open spec fn longer_pause(pause: u64) -> u64 {
    if 2 * pause <= PIN_RETRY_MAX_MS {
        (2 * pause) as u64
    } else {
        PIN_RETRY_MAX_MS
    }
}

/// The pause that follows the attempt after `attempts` others.
pub open spec fn pause_after(attempts: nat) -> u64
    decreases attempts,
{
    if attempts == 0 {
        PIN_RETRY_INITIAL_MS
    } else {
        longer_pause(pause_after((attempts - 1) as nat))
    }
}

/// `step` follows an attempt that was judged so, and `after` is what is left of the
/// attempts `before` it.
pub open spec fn follows_attempt(
    before: PinSubmission,
    accepted: bool,
    after: PinSubmission,
    step: PinStep,
) -> bool {
    if accepted {
        step == PinStep::Stop && after == before
    } else {
        step == PinStep::RetryAfter(before.pause_ms) && after == (PinSubmission {
            request: before.request,
            pause_ms: longer_pause(before.pause_ms),
        })
    }
}

/// The attempts to hand the PIN to Sunshine.
pub struct PinSubmission {
    /// What every attempt posts.
    pub request: PinRequest,
    /// The next pause, in milliseconds.
    pub pause_ms: u64,
}

impl PinSubmission {
    /// No attempt was made yet.
    pub fn new(request: PinRequest) -> (r: Self)
        ensures
            r.request == request,
            r.pause_ms == pause_after(0),
    {
        PinSubmission { request, pause_ms: PIN_RETRY_INITIAL_MS }
    }

    /// Takes the judgement on one attempt.
    pub fn on_judged(&mut self, accepted: bool) -> (r: PinStep)
        ensures
            follows_attempt(*old(self), accepted, *final(self), r),
            if accepted {
                r == PinStep::Stop && *final(self) == *old(self)
            } else {
                r == PinStep::RetryAfter(old(self).pause_ms) && *final(self) == (PinSubmission {
                    request: old(self).request,
                    pause_ms: longer_pause(old(self).pause_ms),
                })
            },
    {
        if accepted {
            return PinStep::Stop;
        }
        let pause = self.pause_ms;
        self.pause_ms = if pause <= PIN_RETRY_MAX_MS / 2 {
            pause * 2
        } else {
            PIN_RETRY_MAX_MS
        };
        PinStep::RetryAfter(pause)
    }

    /// Takes what came of one attempt.
    pub fn on_reply(&mut self, reply: &PinReply) -> (r: PinStep)
        ensures
            follows_attempt(*old(self), reply.is_accepted(), *final(self), r),
            if reply.is_accepted() {
                r == PinStep::Stop && *final(self) == *old(self)
            } else {
                r == PinStep::RetryAfter(old(self).pause_ms) && *final(self) == (PinSubmission {
                    request: old(self).request,
                    pause_ms: longer_pause(old(self).pause_ms),
                })
            },
            r == PinStep::Stop <==> (*reply matches PinReply::Answered { success, body } && success
                && (json_members(body@) matches Some(members) && members.contains_key("status"@)
                && match members["status"@] {
                Member::Bool(value) => value,
                Member::Text(v) => v.len() == 4 && (v[0] == 't' || v[0] == 'T') && (v[1] == 'r'
                    || v[1] == 'R') && (v[2] == 'u' || v[2] == 'U') && (v[3] == 'e' || v[3]
                    == 'E'),
                _ => false,
            })),
    {
        proof {
            law_accepting_replies(*reply);
        }
        let accepted = match reply {
            PinReply::Answered { success, body } => *success && sunshine_pin_accepted(
                body.as_str(),
            ),
            PinReply::Failed => false,
        };
        self.on_judged(accepted)
    }
}

/// Every pause is at least the first one and at most the longest one, and none is
/// shorter than the one before.
pub proof fn law_pauses_grow_up_to_a_limit(attempts: nat)
    ensures
        PIN_RETRY_INITIAL_MS <= pause_after(attempts) <= PIN_RETRY_MAX_MS,
        pause_after(attempts) <= pause_after(attempts + 1),
        attempts >= 5 ==> pause_after(attempts) == PIN_RETRY_MAX_MS,
    decreases attempts,
{
    if attempts > 0 {
        law_pauses_grow_up_to_a_limit((attempts - 1) as nat);
        if attempts == 5 {
            assert(pause_after(0) == 100);
            assert(pause_after(1) == 200);
            assert(pause_after(2) == 400);
            assert(pause_after(3) == 800);
            assert(pause_after(4) == 1600);
        }
    }
}

/// The pauses double from the first one on, up to the longest one.
pub proof fn law_pauses_double(attempts: nat)
    ensures
        pause_after(attempts) == if PIN_RETRY_INITIAL_MS * pow2(attempts) <= PIN_RETRY_MAX_MS {
            PIN_RETRY_INITIAL_MS * pow2(attempts)
        } else {
            PIN_RETRY_MAX_MS as int
        },
    decreases attempts,
{
    if attempts == 0 {
        lemma2_to64();
    } else {
        law_pauses_double((attempts - 1) as nat);
        lemma_pow2_unfold(attempts);
    }
}

/// The pauses between refused attempts follow the sequence: the one after the next
/// attempt is the next of them.
pub proof fn law_pauses_follow_the_sequence(submission: PinSubmission, attempts: nat)
    requires
        submission.pause_ms == pause_after(attempts),
    ensures
        longer_pause(submission.pause_ms) == pause_after(attempts + 1),
{
}

/// A status that is a text reports success exactly where the text has four characters
/// that are, in either case, t, r, u and e in this order.
pub proof fn law_accepting_text_is_the_word_for_true(v: Seq<char>)
    ensures
        is_success(Member::Text(v)) <==> v.len() == 4 && (v[0] == 't' || v[0] == 'T') && (v[1]
            == 'r' || v[1] == 'R') && (v[2] == 'u' || v[2] == 'U') && (v[3] == 'e' || v[3] == 'E'),
{
    reveal_strlit("true");
    let folded = crate::text::lower(v);
    assert(folded.len() == v.len());
    if v.len() == 4 {
        crate::text::law_folding_changes_capitals_only(v, 0);
        crate::text::law_folding_changes_capitals_only(v, 1);
        crate::text::law_folding_changes_capitals_only(v, 2);
        crate::text::law_folding_changes_capitals_only(v, 3);
        if folded == "true"@ {
            assert(folded[0] == 't' && folded[1] == 'r' && folded[2] == 'u' && folded[3] == 'e');
        }
        if folded[0] == 't' && folded[1] == 'r' && folded[2] == 'u' && folded[3] == 'e' {
            assert(folded =~= "true"@);
        }
    }
}

/// A status that is a truth value reports success where it is true. Nothing but a truth
/// value or a text does.
pub proof fn law_accepting_status_is_true(value: bool, status: Member)
    ensures
        is_success(Member::Bool(value)) == value,
        is_success(status) ==> status is Bool || status is Text,
{
}

/// A reply accepts the PIN exactly where it came with a success, its body is an object
/// with a status, and the status is true or the word for it. Every other reply is a
/// refusal.
pub proof fn law_accepting_replies(reply: PinReply)
    ensures
        reply.is_accepted() <==> (reply matches PinReply::Answered { success, body } && success && (
        json_members(body@) matches Some(members) && members.contains_key("status"@)
            && match members["status"@] {
            Member::Bool(value) => value,
            Member::Text(v) => v.len() == 4 && (v[0] == 't' || v[0] == 'T') && (v[1] == 'r' || v[1]
                == 'R') && (v[2] == 'u' || v[2] == 'U') && (v[3] == 'e' || v[3] == 'E'),
            _ => false,
        })),
{
    if let PinReply::Answered { success, body } = reply {
        if let Some(members) = json_members(body@) {
            if let Member::Text(v) = members["status"@] {
                law_accepting_text_is_the_word_for_true(v);
            }
        }
    }
}

/// A member that was read out is what it was read from.
pub proof fn law_members_are_read_out_as_they_are(value: bool, text: String)
    ensures
        JsonMember::Null@ is Null,
        JsonMember::Number@ is Number,
        JsonMember::Array@ is Array,
        JsonMember::Object@ is Object,
        JsonMember::Bool(value)@ == Member::Bool(value),
        JsonMember::Text(text)@ == Member::Text(text@),
{
}

/// The pauses between attempts are 100 milliseconds at first, twice the one before from
/// then on, and never more than two seconds.
pub proof fn law_pause_after_a_pause(pause: u64, attempts: nat)
    ensures
        pause_after(0) == 100,
        pause_after(attempts + 1) == longer_pause(pause_after(attempts)),
        pause <= 1000 ==> longer_pause(pause) == 2 * pause,
        pause > 1000 ==> longer_pause(pause) == 2000,
        PAIR_TIMEOUT_MS == 30 * 1000,
{
}

/// A port that the environment writes in decimal is the port of the web interface. What
/// is no port there, or nothing, leaves the default.
pub proof fn law_port_of_the_web_interface(text: &str, port: u16)
    ensures
        spec_api_port(None) == 47990,
        text@ == crate::text::decimal(port as nat) ==> spec_api_port(Some(text)) == port,
        crate::text::parsed_u16(text@) is None ==> spec_api_port(Some(text)) == 47990,
        crate::text::parsed_u16(text@) matches Some(read) ==> spec_api_port(Some(text)) == read,
{
    crate::text::law_port_text_reads_back(port);
}

/// What the environment says is the credential, whatever it is.
pub proof fn law_credentials_of_the_web_interface(text: String)
    ensures
        spec_api_credential(Some(text)) == text@,
        spec_api_credential(None) == "yuu"@,
{
}

/// The PIN goes to the loopback address, encrypted, and to the port as it is written in
/// decimal: to different places for different ports.
pub proof fn law_pin_goes_to_the_loopback_port(port: u16, other: u16)
    ensures
        spec_pin_url(port) == "https://127.0.0.1:"@ + crate::text::decimal(port as nat)
            + "/api/pin"@,
        spec_pin_url(port) == spec_pin_url(other) <==> port == other,
{
    reveal_strlit("https://");
    reveal_strlit("127.0.0.1");
    reveal_strlit(":");
    reveal_strlit("https://127.0.0.1:");
    reveal_strlit("/api/pin");
    assert("https://"@ + "127.0.0.1"@ + ":"@ =~= "https://127.0.0.1:"@);
    let (a, b) = (crate::text::decimal(port as nat), crate::text::decimal(other as nat));
    let (u, v) = (spec_pin_url(port), spec_pin_url(other));
    if u == v {
        assert(u.len() == 18 + a.len() + 8 && v.len() == 18 + b.len() + 8);
        assert(a =~= u.subrange(18, 18int + a.len()));
        assert(b =~= v.subrange(18, 18int + b.len()));
        crate::text::law_decimal_tells_numbers_apart(port as nat, other as nat);
    }
}

/// After a refusal the same is posted again, once the pause is over; the pause after
/// that is twice as long, up to two seconds. After an acceptance nothing is posted.
pub proof fn law_refusals_lead_to_another_attempt(
    before: PinSubmission,
    accepted: bool,
    after: PinSubmission,
    step: PinStep,
)
    requires
        follows_attempt(before, accepted, after, step),
    ensures
        step == PinStep::Stop <==> accepted,
        step matches PinStep::RetryAfter(pause) ==> pause == before.pause_ms,
        after.request == before.request,
        accepted ==> after.pause_ms == before.pause_ms,
        !accepted && before.pause_ms <= 1000 ==> after.pause_ms == 2 * before.pause_ms,
        !accepted && before.pause_ms > 1000 ==> after.pause_ms == 2000,
{
}

/// A reply whose status is a text that is not the word for true, the word for the
/// opposite among them, leads to another attempt.
pub proof fn law_refusing_texts_lead_to_another_attempt(
    before: PinSubmission,
    body: String,
    members: Map<Seq<char>, Member>,
    v: Seq<char>,
    after: PinSubmission,
    step: PinStep,
)
    requires
        json_members(body@) == Some(members),
        members.contains_key("status"@),
        members["status"@] == Member::Text(v),
        !(v.len() == 4 && (v[0] == 't' || v[0] == 'T') && (v[1] == 'r' || v[1] == 'R') && (v[2]
            == 'u' || v[2] == 'U') && (v[3] == 'e' || v[3] == 'E')),
        follows_attempt(
            before,
            (PinReply::Answered { success: true, body }).is_accepted(),
            after,
            step,
        ),
    ensures
        step == PinStep::RetryAfter(before.pause_ms),
        after.request == before.request,
{
    law_accepting_replies(PinReply::Answered { success: true, body });
}

} // verus!
