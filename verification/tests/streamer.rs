use moonlight_web::streamer::connection::{
    keeps_receiving, on_transport_event, EventAction, IpcReaction, ServerIpcMessage, StartOutcome,
    StopActions, StreamConnection, StreamRequest, StreamStart, TransportError, TransportEvent,
    TransportType, TERMINATE_CHECK_NANOS, TIMEOUT_NANOS,
};
use moonlight_web::streamer::gamepads::ActiveGamepads;
use moonlight_web::streamer::messages::{
    connection_status_update, controller_rumble, controller_rumble_triggers, launched,
    set_hdr_mode, setup, stage_complete, stage_failed, stage_starting, waiting_for_transport,
    LogMessageType, OutboundPacket, WebRtcConfig,
};
use moonlight_web::streamer::packet::{
    ControllerInput, GeneralClientMessage, InboundPacket, PacketReaction, PacketTypes,
    StreamCommand,
};
use moonlight_web::streamer::start::{
    stream_defaults, ColorRange, EncryptionFlags, OpusMultistreamConfig, StartFailure,
    StreamConstants, StreamDefaults, StreamSettings, StreamSetup, VideoSetup,
};

struct Plain;

impl PacketTypes for Plain {
    type MouseAction = u8;
    type MouseButton = u8;
    type KeyAction = u8;
    type KeyModifiers = u8;
    type KeyFlags = u8;
    type Touch = f32;
    type ControllerType = u8;
    type ControllerCapabilities = u16;
}

type Packet = InboundPacket<Plain>;
type Command = StreamCommand<Plain>;

fn streaming() -> StreamConnection {
    StreamConnection { has_stream: true, has_transport: true, ..StreamConnection::new() }
}

fn gamepad(id: u16) -> Option<ActiveGamepads> {
    if id < 16 {
        Some(ActiveGamepads { bits: 1 << id })
    } else {
        None
    }
}

fn commands(connection: &mut StreamConnection, packet: Packet) -> Vec<Command> {
    let slot = packet.controller_id().and_then(|id| gamepad(id as u16));
    match connection.on_packet(packet, slot) {
        (PacketReaction::Send(commands), None) => commands,
        _ => panic!("the packet is not passed on"),
    }
}

fn connected(id: u8) -> Packet {
    InboundPacket::ControllerConnected { id, ty: 1, supported_buttons: 0xFF, capabilities: 3 }
}

fn input(buttons: u32) -> ControllerInput {
    ControllerInput {
        buttons,
        left_trigger: 1,
        right_trigger: 2,
        left_stick_x: -3,
        left_stick_y: 4,
        right_stick_x: -5,
        right_stick_y: 6,
    }
}

fn settings(full: bool) -> StreamSettings<u8, u16> {
    StreamSettings {
        bitrate: 10000,
        packet_size: 2048,
        fps: 60,
        width: 1920,
        height: 1080,
        play_audio_local: true,
        video_supported_formats: 0x0100,
        video_colorspace: 2,
        video_color_range_full: full,
        hdr: true,
    }
}

fn constants() -> StreamConstants {
    StreamConstants {
        format: 1,
        stereo: OpusMultistreamConfig {
            sample_rate: 48000,
            channel_count: 2,
            streams: 1,
            coupled_streams: 1,
            samples_per_frame: 240,
            mapping: [0, 1, 0, 0, 0, 0, 0, 0],
        },
        pen_touch: 1,
    }
}

fn defaults() -> StreamDefaults {
    stream_defaults(&settings(false), &constants())
}

fn asked(start: StreamStart<u8, u16>) -> StreamRequest<u8, u16> {
    match start {
        StreamStart::Ask(request) => request,
        StreamStart::EndFirst(_) => panic!("no stream is in the way"),
    }
}

#[test]
fn gamepads_come_and_go() {
    let mut gamepads = ActiveGamepads::empty();
    assert_eq!(gamepads.bits, 0);
    gamepads.insert(ActiveGamepads { bits: 0b100 });
    gamepads.insert(ActiveGamepads { bits: 0b001 });
    assert!(gamepads.contains(ActiveGamepads { bits: 0b100 }));
    assert!(!gamepads.contains(ActiveGamepads { bits: 0b110 }));
    gamepads.remove(ActiveGamepads { bits: 0b100 });
    assert_eq!(gamepads.bits, 0b001);
    assert!(!gamepads.contains(ActiveGamepads { bits: 0b100 }));
}

#[test]
fn input_is_passed_on() {
    let mut connection = streaming();
    let sent = commands(
        &mut connection,
        InboundPacket::MousePosition { x: 1, y: 2, reference_width: 3, reference_height: 4 },
    );
    assert!(matches!(
        sent[0],
        StreamCommand::MousePosition { x: 1, y: 2, reference_width: 3, reference_height: 4 }
    ));
    let sent = commands(&mut connection, InboundPacket::MouseButton { action: 7, button: 8 });
    assert!(matches!(sent[0], StreamCommand::MouseButton { action: 7, button: 8 }));
    let sent = commands(&mut connection, InboundPacket::MouseMove { delta_x: -1, delta_y: 5 });
    assert!(matches!(sent[0], StreamCommand::MouseMove { delta_x: -1, delta_y: 5 }));
    let sent = commands(&mut connection, InboundPacket::Text { text: "hi".to_string() });
    match &sent[0] {
        StreamCommand::Text { text } => assert_eq!(text, "hi"),
        _ => panic!("text is sent"),
    }
    let sent = commands(&mut connection, InboundPacket::Touch { touch: 0.5 });
    match sent[0] {
        StreamCommand::Touch { touch } => assert_eq!(touch, 0.5),
        _ => panic!("touch is sent"),
    }
    assert!(commands(&mut connection, InboundPacket::Other).is_empty());
}

#[test]
fn keys_keep_their_bits() {
    let mut connection = streaming();
    for (key, signed) in [(0x41u16, 0x41i16), (0x7FFF, 32767), (0x8000, -32768), (0xFFFF, -1)] {
        let packet = InboundPacket::Key { action: 1, modifiers: 2, key, flags: 3 };
        match commands(&mut connection, packet)[0] {
            StreamCommand::Keyboard { key, action: 1, modifiers: 2, flags: 3 } => {
                assert_eq!(key, signed)
            }
            _ => panic!("a key is sent"),
        }
    }
}

#[test]
fn scrolls_of_nothing_are_not_made() {
    let mut connection = streaming();
    let sent =
        commands(&mut connection, InboundPacket::HighResScroll { delta_x: 3, delta_y: -120 });
    assert_eq!(sent.len(), 2);
    assert!(matches!(sent[0], StreamCommand::HighResScroll { delta: -120 }));
    assert!(matches!(sent[1], StreamCommand::HighResHorizontalScroll { delta: 3 }));
    let sent = commands(&mut connection, InboundPacket::Scroll { delta_x: 2, delta_y: 0 });
    assert_eq!(sent.len(), 1);
    assert!(matches!(sent[0], StreamCommand::HorizontalScroll { delta: 2 }));
    let sent = commands(&mut connection, InboundPacket::Scroll { delta_x: 0, delta_y: -1 });
    assert_eq!(sent.len(), 1);
    assert!(matches!(sent[0], StreamCommand::Scroll { delta: -1 }));
    assert!(commands(&mut connection, InboundPacket::Scroll { delta_x: 0, delta_y: 0 }).is_empty());
}

#[test]
fn controllers_are_heard_while_connected() {
    let mut connection = streaming();
    let state = || -> Packet { InboundPacket::ControllerState { id: 2, input: input(5) } };
    let (reaction, _) = connection.on_packet(state(), gamepad(2));
    assert!(matches!(reaction, PacketReaction::NotRegistered));

    match commands(&mut connection, connected(2))[0] {
        StreamCommand::ControllerArrival { id, active, ty, supported_buttons, capabilities } => {
            assert_eq!((id, active.bits, ty, supported_buttons, capabilities), (2, 4, 1, 0xFF, 3))
        }
        _ => panic!("the controller arrives"),
    }
    match commands(&mut connection, state())[0] {
        StreamCommand::MultiController { id, active, input: state } => {
            assert_eq!((id, active.bits), (2, 4));
            assert_eq!(state, input(5));
        }
        _ => panic!("the controller is heard"),
    }
    match commands(&mut connection, InboundPacket::ControllerDisconnected { id: 2 })[0] {
        StreamCommand::MultiController { id, active, input } => {
            assert_eq!((id, active.bits), (2, 0));
            assert_eq!((input.buttons, input.left_trigger, input.right_stick_y), (0, 0, 0));
        }
        _ => panic!("the controller leaves"),
    }
    let (reaction, _) = connection.on_packet(state(), gamepad(2));
    assert!(matches!(reaction, PacketReaction::NotRegistered));
}

#[test]
fn controllers_out_of_range_are_dropped() {
    let mut connection = streaming();
    for packet in [
        connected(200),
        InboundPacket::ControllerDisconnected { id: 200 },
        InboundPacket::ControllerState { id: 200, input: input(0) },
    ] {
        let (reaction, actions) = connection.on_packet(packet, gamepad(200));
        assert!(matches!(reaction, PacketReaction::OutOfRange));
        assert_eq!(actions, None);
    }
    assert_eq!(connection, streaming());
}

#[test]
fn packets_without_a_stream_are_dropped() {
    let mut connection = StreamConnection::new();
    let stop: Packet = InboundPacket::General { message: GeneralClientMessage::Stop };
    let (reaction, actions) = connection.on_packet(stop, None);
    assert!(matches!(reaction, PacketReaction::NoStream));
    assert_eq!(actions, None);
    let (reaction, _) = connection.on_packet(connected(1), gamepad(1));
    assert!(matches!(reaction, PacketReaction::NoStream));
    assert_eq!(connection, StreamConnection::new());
}

#[test]
fn browser_stops_the_stream() {
    let mut connection = streaming();
    let stop: Packet = InboundPacket::General { message: GeneralClientMessage::Stop };
    let (reaction, actions) = connection.on_packet(stop, None);
    assert!(matches!(reaction, PacketReaction::Stop));
    assert_eq!(actions, Some(StopActions { end_stream: true, close_transport: true }));
    assert!(connection.is_terminating);
}

#[test]
fn second_stop_does_nothing() {
    let mut connection = streaming();
    assert_eq!(
        connection.stop(),
        Some(StopActions { end_stream: true, close_transport: true })
    );
    let stopped = connection;
    assert!(!stopped.has_stream && !stopped.has_transport && stopped.is_terminating);
    assert_eq!(connection.stop(), None);
    assert_eq!(connection, stopped);
    connection.request_terminate(5);
    connection.clear_terminate_request();
    connection.set_transport();
    connection.on_ipc_message(&ServerIpcMessage::SetTransport(TransportType::WebSocket));
    asked(connection.start_stream(1, settings(false)));
    connection.stream_started(Ok(None), &defaults());
    assert!(connection.is_terminating);
    assert_eq!(connection.stop(), None);
}

#[test]
fn termination_waits_for_its_time() {
    let mut connection = streaming();
    connection.request_terminate(1000);
    assert_eq!(connection.on_terminate_timer(1000 + TIMEOUT_NANOS), None);
    assert!(!connection.is_terminating);
    assert!(connection.on_terminate_timer(1000 + TERMINATE_CHECK_NANOS).is_some());
    assert!(connection.is_terminating);
}

#[test]
fn withdrawn_request_is_forgotten() {
    let mut connection = streaming();
    connection.request_terminate(0);
    connection.clear_terminate_request();
    assert_eq!(connection.on_terminate_timer(TERMINATE_CHECK_NANOS), None);
    connection.request_terminate(0);
    connection.request_terminate(TERMINATE_CHECK_NANOS);
    assert_eq!(connection.on_terminate_timer(TERMINATE_CHECK_NANOS), None);
    assert_eq!(connection.on_terminate_timer(0), None);
    assert!(!connection.is_terminating);
}

#[test]
fn transports_replace_each_other() {
    let mut connection = StreamConnection::new();
    connection.request_terminate(0);
    assert!(!connection.try_send_packet());
    let message = ServerIpcMessage::SetTransport(TransportType::WebRTC);
    assert_eq!(
        connection.on_ipc_message(&message),
        IpcReaction::Open(TransportType::WebRTC)
    );
    assert_eq!(connection.terminate_request, None);
    assert_eq!(connection.on_transport_opened(false), None);
    assert!(!connection.has_transport);
    assert_eq!(connection.on_transport_opened(true), Some(false));
    assert!(connection.try_send_packet());
    assert_eq!(connection.on_transport_opened(true), Some(true));
    assert_eq!(
        connection.on_ipc_message(&ServerIpcMessage::Other),
        IpcReaction::Pass { forward: true }
    );
    assert_eq!(
        connection.on_ipc_message(&ServerIpcMessage::Stop),
        IpcReaction::Stop {
            actions: Some(StopActions { end_stream: false, close_transport: true }),
            forward: false
        }
    );
    assert_eq!(
        connection.on_ipc_message(&ServerIpcMessage::Other),
        IpcReaction::Pass { forward: false }
    );
    assert!(keeps_receiving(&message));
    assert!(!keeps_receiving(&ServerIpcMessage::Stop));
}

#[test]
fn transport_events_lead_on() {
    type Event = Result<TransportEvent<u8, u8, u8>, TransportError>;
    let lead = |alive: bool, event: Event| on_transport_event(alive, event);
    assert!(matches!(
        lead(false, Ok(TransportEvent::SendIpc(1))),
        (EventAction::SendIpc(1), true)
    ));
    assert!(matches!(
        lead(true, Ok(TransportEvent::StartStream { settings: 2 })),
        (EventAction::StartStream(2), true)
    ));
    assert!(matches!(
        lead(true, Ok(TransportEvent::RecvPacket(3))),
        (EventAction::Packet(3), true)
    ));
    assert!(matches!(
        lead(true, Ok(TransportEvent::Closed)),
        (EventAction::RequestTerminate, false)
    ));
    assert!(matches!(
        lead(true, Err(TransportError::Closed)),
        (EventAction::RequestTerminate, false)
    ));
    assert!(matches!(
        lead(true, Err(TransportError::Implementation)),
        (EventAction::Stop, false)
    ));
    assert!(matches!(
        lead(false, Ok(TransportEvent::RecvPacket(3))),
        (EventAction::Nothing, false)
    ));
}

#[test]
fn stream_is_started_as_asked() {
    let mut connection = streaming();
    connection.request_terminate(3);
    let start = match connection.start_stream(42, settings(false)) {
        StreamStart::EndFirst(pending) => pending.stream_ended(),
        StreamStart::Ask(_) => panic!("a stream is in the way"),
    };
    assert!(!connection.has_stream);
    assert_eq!(connection.terminate_request, None);
    assert_eq!(start.log.message, "Moonlight Stream");
    assert_eq!(start.log.ty, None);
    let asked = start.parameters;
    assert_eq!(asked.app_id, 42);
    assert_eq!((asked.width, asked.height, asked.fps), (1920, 1080, 60));
    assert!(asked.hdr && asked.sops && asked.local_audio_play_mode);
    assert!(!asked.gamepads_persist_after_disconnect);
    assert_eq!(asked.gamepads.bits, 0);
    assert_eq!(asked.color_space, 2);
    assert_eq!(asked.color_range, ColorRange::Limited);
    assert_eq!((asked.bitrate, asked.packet_size), (10000, 2048));
    assert_eq!(asked.encryption, EncryptionFlags::All);
    assert_eq!(asked.supported_formats, 0x0100);
}

#[test]
fn host_is_asked_at_once_without_a_stream() {
    let mut connection = StreamConnection::new();
    connection.request_terminate(3);
    let request = asked(connection.start_stream(42, settings(true)));
    assert_eq!(request.log.message, "Moonlight Stream");
    assert_eq!(request.parameters.app_id, 42);
    assert_eq!(request.parameters.color_range, ColorRange::Full);
    assert_eq!(connection, StreamConnection::new());
}

#[test]
fn browser_is_told_of_the_stream() {
    let mut connection = StreamConnection::new();
    connection.set_video_setup(VideoSetup {
        format: 0x0100,
        width: 1280,
        height: 720,
        redraw_rate: 30,
        flags: 1,
    });
    connection
        .set_audio_setup(OpusMultistreamConfig { channel_count: 6, ..constants().stereo });
    match connection.stream_started(Ok(Some(0b11)), &defaults()) {
        StartOutcome::Started(told) => {
            assert!(told.capabilities.touch);
            assert_eq!((told.format, told.width, told.height, told.fps), (0x0100, 1280, 720, 30));
            assert_eq!(told.audio_channel_count, 6);
            assert_eq!(told.audio_sample_rate, 48000);
        }
        StartOutcome::Failed { .. } => panic!("the stream runs"),
    }
    assert!(connection.has_stream);
    let mut connection = StreamConnection::new();
    assert_eq!(connection.stream_setup, StreamSetup { video: None, audio: None });
    match connection.stream_started(Ok(None), &defaults()) {
        StartOutcome::Started(told) => {
            assert!(!told.capabilities.touch);
            assert_eq!((told.format, told.width, told.height, told.fps), (1, 1920, 1080, 60));
            assert_eq!(told.audio_channel_count, 2);
            assert_eq!(told.audio_streams, 1);
            assert_eq!(told.audio_coupled_streams, 1);
            assert_eq!(told.audio_samples_per_frame, 240);
            assert_eq!(told.audio_mapping, [0, 1, 0, 0, 0, 0, 0, 0]);
        }
        StartOutcome::Failed { .. } => panic!("the stream runs"),
    }
}

#[test]
fn failed_start_stops_the_connection() {
    let fail = |failure: StartFailure| {
        let mut connection = StreamConnection { has_stream: false, ..streaming() };
        match connection.stream_started(Err(failure), &defaults()) {
            StartOutcome::Failed { log, actions } => {
                assert_eq!(
                    actions,
                    Some(StopActions { end_stream: false, close_transport: true })
                );
                assert!(connection.is_terminating);
                log
            }
            StartOutcome::Started(_) => panic!("the stream does not run"),
        }
    };
    let log = fail(StartFailure::ConnectionAlreadyExists).unwrap();
    assert_eq!(
        log.message,
        "Failed to start stream because this streamer is already streaming"
    );
    assert_eq!(log.ty, None);
    let log = fail(StartFailure::NotSupportedHdr).unwrap();
    assert_eq!(log.message, "Failed to start stream because this app doesn't support HDR!");
    assert_eq!(log.ty, Some(LogMessageType::FatalDescription));
    assert!(fail(StartFailure::Other).is_none());
}

#[test]
fn host_ends_the_stream() {
    let mut connection = streaming();
    let (message, actions) = connection.connection_terminated(-7);
    assert_eq!(message.error_code, -7);
    assert_eq!(actions, Some(StopActions { end_stream: true, close_transport: true }));
    assert_eq!(connection.connection_terminated(0).1, None);
}

#[test]
fn stages_are_logged() {
    assert_eq!(launched().message, "Completed Stage: Launch Streamer");
    assert_eq!(waiting_for_transport().message, "Waiting for Transport to negotiate");
    assert_eq!(stage_starting("RTSP").message, "Starting Stage: RTSP");
    assert_eq!(stage_starting("RTSP").ty, None);
    assert_eq!(stage_complete("RTSP").message, "Completed Stage: RTSP");
    let failed = stage_failed("RTSP", -110);
    assert_eq!(failed.message, "Failed Stage: RTSP with error code -110");
    assert_eq!(failed.ty, Some(LogMessageType::Fatal));
}

#[test]
fn browser_is_told_how_to_connect() {
    let told = setup(WebRtcConfig {
        ice_servers: vec!["stun:a", "stun:b"],
        force_relay: true,
        allow_websocket_fallback: false,
    });
    assert_eq!(told.ice_servers, vec!["stun:a", "stun:b"]);
    assert!(told.force_relay);
    assert!(!told.allow_websocket_fallback);
}

#[test]
fn host_events_become_packets() {
    assert!(matches!(
        connection_status_update(3u8),
        OutboundPacket::ConnectionStatusUpdate { status: 3 }
    ));
    assert!(matches!(
        set_hdr_mode::<u8>(true),
        OutboundPacket::HdrModeUpdate { enabled: true }
    ));
    assert!(matches!(
        controller_rumble::<u8>(0x0102, 7, 8),
        OutboundPacket::ControllerRumble {
            controller_number: 2,
            low_frequency_motor: 7,
            high_frequency_motor: 8
        }
    ));
    assert!(matches!(
        controller_rumble_triggers::<u8>(3, 9, 10),
        OutboundPacket::ControllerTriggerRumble {
            controller_number: 3,
            left_trigger_motor: 9,
            right_trigger_motor: 10
        }
    ));
}
