//! What the streamer says to the server and to the browser.
use crate::text::signed_decimal_text;
use vstd::prelude::*;

verus! {

/// How a log message is to be taken.
#[derive(Debug, Clone, Copy, PartialEq, Eq, Structural)]
pub enum LogMessageType {
    Fatal,
    FatalDescription,
}

/// A message for the log that the browser shows.
#[derive(Debug)]
pub struct DebugLog {
    pub message: String,
    pub ty: Option<LogMessageType>,
}

/// A message for the log, with a type where it has one.
fn debug_log(message: String, ty: Option<LogMessageType>) -> (r: DebugLog)
    ensures
        r.message@ == message@,
        r.ty == ty,
{
    DebugLog { message, ty }
}

/// Said first of all.
pub fn launched() -> (r: DebugLog)
    ensures
        r.message@ == "Completed Stage: Launch Streamer"@,
        r.ty is None,
{
    debug_log("Completed Stage: Launch Streamer".to_owned(), None)
}

/// Said when the streamer waits for the browser to choose a transport.
pub fn waiting_for_transport() -> (r: DebugLog)
    ensures
        r.message@ == "Waiting for Transport to negotiate"@,
        r.ty is None,
{
    debug_log("Waiting for Transport to negotiate".to_owned(), None)
}

/// Said when a stream is about to be started.
pub fn starting_stream() -> (r: DebugLog)
    ensures
        r.message@ == "Moonlight Stream"@,
        r.ty is None,
{
    debug_log("Moonlight Stream".to_owned(), None)
}

/// Said when a stage of the connection begins.
pub fn stage_starting(stage: &str) -> (r: DebugLog)
    ensures
        r.message@ == "Starting Stage: "@ + stage@,
        r.ty is None,
{
    debug_log("Starting Stage: ".to_owned().concat(stage), None)
}

/// Said when a stage of the connection is over.
pub fn stage_complete(stage: &str) -> (r: DebugLog)
    ensures
        r.message@ == "Completed Stage: "@ + stage@,
        r.ty is None,
{
    debug_log("Completed Stage: ".to_owned().concat(stage), None)
}

/// Said when a stage of the connection fails.
pub fn stage_failed(stage: &str, error_code: i32) -> (r: DebugLog)
    ensures
        r.message@ == "Failed Stage: "@ + stage@ + " with error code "@
            + crate::text::signed_decimal(error_code as int),
        r.ty == Some(LogMessageType::Fatal),
{
    debug_log(
        "Failed Stage: ".to_owned().concat(stage).concat(" with error code ").concat(
            signed_decimal_text(error_code).as_str(),
        ),
        Some(LogMessageType::Fatal),
    )
}

/// How the browser reaches the streamer. `I` describes the servers that help with it.
pub struct WebRtcConfig<I> {
    pub ice_servers: Vec<I>,
    pub force_relay: bool,
    pub allow_websocket_fallback: bool,
}

/// What the browser is told of how it reaches the streamer.
pub struct Setup<I> {
    pub ice_servers: Vec<I>,
    pub force_relay: bool,
    pub allow_websocket_fallback: bool,
}

/// Tells the browser how it reaches the streamer.
pub fn setup<I>(config: WebRtcConfig<I>) -> (r: Setup<I>)
    ensures
        r.ice_servers == config.ice_servers,
        r.force_relay == config.force_relay,
        r.allow_websocket_fallback == config.allow_websocket_fallback,
{
    Setup {
        ice_servers: config.ice_servers,
        force_relay: config.force_relay,
        allow_websocket_fallback: config.allow_websocket_fallback,
    }
}

/// A packet to the browser. `S` is the quality of the connection, which is only
/// passed on.
#[derive(Debug)]
pub enum OutboundPacket<S> {
    ConnectionStatusUpdate { status: S },
    HdrModeUpdate { enabled: bool },
    ControllerRumble { controller_number: u8, low_frequency_motor: u16, high_frequency_motor: u16 },
    ControllerTriggerRumble {
        controller_number: u8,
        left_trigger_motor: u16,
        right_trigger_motor: u16,
    },
}

/// The lower eight bits of a controller number.
fn low_byte(number: u16) -> (r: u8)
    ensures
        r == number % 256,
{
    let low: u16 = number % 256;
    low as u8
}

/// The quality of the connection has changed.
pub fn connection_status_update<S>(status: S) -> (r: OutboundPacket<S>)
    ensures
        r == (OutboundPacket::ConnectionStatusUpdate { status }),
{
    OutboundPacket::ConnectionStatusUpdate { status }
}

/// The host has switched high dynamic range on or off.
pub fn set_hdr_mode<S>(hdr_enabled: bool) -> (r: OutboundPacket<S>)
    ensures
        r == (OutboundPacket::<S>::HdrModeUpdate { enabled: hdr_enabled }),
{
    OutboundPacket::HdrModeUpdate { enabled: hdr_enabled }
}

/// The packet that makes a controller rumble.
pub open spec fn rumble<S>(number: u16, low: u16, high: u16) -> OutboundPacket<S> {
    OutboundPacket::ControllerRumble {
        controller_number: (number % 256) as u8,
        low_frequency_motor: low,
        high_frequency_motor: high,
    }
}

/// The packet that makes the triggers of a controller rumble.
pub open spec fn trigger_rumble<S>(number: u16, left: u16, right: u16) -> OutboundPacket<S> {
    OutboundPacket::ControllerTriggerRumble {
        controller_number: (number % 256) as u8,
        left_trigger_motor: left,
        right_trigger_motor: right,
    }
}

/// A controller is to rumble. Of its number the lower eight bits count.
pub fn controller_rumble<S>(
    controller_number: u16,
    low_frequency_motor: u16,
    high_frequency_motor: u16,
) -> (r: OutboundPacket<S>)
    ensures
        r == rumble::<S>(controller_number, low_frequency_motor, high_frequency_motor),
        r == (OutboundPacket::<S>::ControllerRumble {
            controller_number: (controller_number % 256) as u8,
            low_frequency_motor,
            high_frequency_motor,
        }),
{
    OutboundPacket::ControllerRumble {
        controller_number: low_byte(controller_number),
        low_frequency_motor,
        high_frequency_motor,
    }
}

/// The triggers of a controller are to rumble. Of its number the lower eight bits
/// count.
pub fn controller_rumble_triggers<S>(
    controller_number: u16,
    left_trigger_motor: u16,
    right_trigger_motor: u16,
) -> (r: OutboundPacket<S>)
    ensures
        r == trigger_rumble::<S>(controller_number, left_trigger_motor, right_trigger_motor),
        r == (OutboundPacket::<S>::ControllerTriggerRumble {
            controller_number: (controller_number % 256) as u8,
            left_trigger_motor,
            right_trigger_motor,
        }),
{
    OutboundPacket::ControllerTriggerRumble {
        controller_number: low_byte(controller_number),
        left_trigger_motor,
        right_trigger_motor,
    }
}

/// A rumble keeps the strength of both motors; of the number of the controller it keeps
/// what fits into a byte, and all of it where that is all.
pub proof fn law_rumbles_keep_their_strength<S>(number: u16, a: u16, b: u16)
    ensures
        rumble::<S>(number, a, b) matches OutboundPacket::ControllerRumble {
            controller_number,
            low_frequency_motor,
            high_frequency_motor,
        } && low_frequency_motor == a && high_frequency_motor == b && (number - controller_number)
            % 256 == 0 && (number < 256 ==> controller_number == number),
        trigger_rumble::<S>(number, a, b) matches OutboundPacket::ControllerTriggerRumble {
            controller_number,
            left_trigger_motor,
            right_trigger_motor,
        } && left_trigger_motor == a && right_trigger_motor == b && (number - controller_number)
            % 256 == 0 && (number < 256 ==> controller_number == number),
{
}

} // verus!
