//! The life of a stream connection: its stream, its transport and its end.
use crate::streamer::gamepads::ActiveGamepads;
use crate::streamer::messages::{starting_stream, DebugLog};
use crate::streamer::packet::{
    gamepads_after, on_packet, reaction_to, InboundPacket, PacketReaction, PacketTypes, Reaction,
};
use crate::streamer::start::{
    connection_complete, requested, start_failure_message, start_parameters, tells_failure, told,
    ColorRange, ConnectionComplete, EncryptionFlags, OpusMultistreamConfig, StartFailure, StartParameters, StreamDefaults,
    StreamSettings, StreamSetup, VideoSetup,
};
use vstd::prelude::*;

verus! {

/// How long a connection may go without a transport, in nanoseconds.
pub const TIMEOUT_NANOS: u128 = 10_000_000_000;

/// When a request to terminate is looked at again, in nanoseconds after it was made.
pub const TERMINATE_CHECK_NANOS: u128 = 10_200_000_000;

/// How the browser and the streamer exchange packets.
#[derive(Debug, Clone, Copy, PartialEq, Eq, Structural)]
pub enum TransportType {
    WebRTC,
    WebSocket,
}

/// A message from the server, as far as the connection looks at it.
#[derive(Debug, Clone, Copy, PartialEq, Eq, Structural)]
pub enum ServerIpcMessage {
    /// The browser has chosen a transport.
    SetTransport(TransportType),
    /// The streamer has to end.
    Stop,
    /// A message for the transport.
    Other,
}

/// What a stop has to do, beside telling the server and waking whoever waits for the
/// end.
#[derive(Debug, Clone, Copy, PartialEq, Eq, Structural)]
pub struct StopActions {
    pub end_stream: bool,
    pub close_transport: bool,
}

/// What a message from the server leads to.
#[derive(Debug, Clone, Copy, PartialEq, Eq)]
pub enum IpcReaction {
    /// A transport is to be opened; the message waits until it is.
    Open(TransportType),
    /// The connection stops, unless it has before; then the message may go to the
    /// transport.
    Stop { actions: Option<StopActions>, forward: bool },
    /// The message may go to the transport.
    Pass { forward: bool },
}

/// What the start of a stream takes.
pub enum StreamStart<C, F> {
    /// Another stream has to be ended first. The host is asked for nothing until that
    /// stream is closed.
    EndFirst(PendingStart<C, F>),
    /// The host is to be asked.
    Ask(StreamRequest<C, F>),
}

/// A stream that waits for the end of another one.
pub struct PendingStart<C, F> {
    pub app_id: u32,
    pub settings: StreamSettings<C, F>,
}

/// The request for a stream.
pub struct StreamRequest<C, F> {
    /// What the browser is told.
    pub log: DebugLog,
    /// What the host is asked for.
    pub parameters: StartParameters<C, F>,
}

/// `request` is the one for the stream that the browser wants.
pub open spec fn requests<C, F>(
    request: StreamRequest<C, F>,
    app_id: u32,
    settings: StreamSettings<C, F>,
) -> bool {
    &&& request.log.message@ == "Moonlight Stream"@
    &&& request.log.ty is None
    &&& request.parameters == requested(app_id, settings)
}

/// What came of the start of a stream.
pub enum StartOutcome {
    /// The stream runs; with what the browser is told.
    Started(ConnectionComplete),
    /// There is no stream; with what the browser is told, and with what a stop takes.
    Failed { log: Option<DebugLog>, actions: Option<StopActions> },
}

/// The message to the browser that the host has ended the stream.
#[derive(Debug, Clone, Copy, PartialEq, Eq, Structural)]
pub struct ConnectionTerminated {
    pub error_code: i32,
}

/// Something that happened on a transport.
pub enum TransportEvent<M, S, P> {
    SendIpc(M),
    StartStream { settings: S },
    RecvPacket(P),
    Closed,
}

/// Why a transport has nothing to report.
pub enum TransportError {
    Closed,
    ChannelClosed,
    Implementation,
}

/// What an event on a transport leads to.
pub enum EventAction<M, S, P> {
    /// The message goes to the server.
    SendIpc(M),
    /// The stream is started, and the connection stopped where that fails.
    StartStream(S),
    /// The packet is taken.
    Packet(P),
    /// The connection ends unless a transport comes in time.
    RequestTerminate,
    /// The connection stops.
    Stop,
    /// Nothing: the connection is gone.
    Nothing,
}

/// `r` is what an event on a transport leads to, and whether more events are waited for.
pub open spec fn leads_to<M, S, P>(
    alive: bool,
    event: Result<TransportEvent<M, S, P>, TransportError>,
    r: (EventAction<M, S, P>, bool),
) -> bool {
    r == match event {
        Ok(TransportEvent::SendIpc(message)) => (EventAction::<M, S, P>::SendIpc(message), true),
        _ => if !alive {
            (EventAction::Nothing, false)
        } else {
            match event {
                Ok(TransportEvent::SendIpc(message)) => (EventAction::SendIpc(message), true),
                Ok(TransportEvent::StartStream { settings }) => (
                    EventAction::StartStream(settings),
                    true,
                ),
                Ok(TransportEvent::RecvPacket(packet)) => (EventAction::Packet(packet), true),
                Ok(TransportEvent::Closed) => (EventAction::RequestTerminate, false),
                Err(TransportError::Implementation) => (EventAction::Stop, false),
                Err(_) => (EventAction::RequestTerminate, false),
            }
        },
    }
}

/// What an event on a transport leads to, and whether more events are waited for.
/// `alive` says whether the connection is still there.
pub fn on_transport_event<M, S, P>(
    alive: bool,
    event: Result<TransportEvent<M, S, P>, TransportError>,
) -> (r: (EventAction<M, S, P>, bool))
    requires
        !(event matches Err(TransportError::ChannelClosed)),
    ensures
        leads_to(alive, event, r),
        !alive ==> r == (match event {
            Ok(TransportEvent::SendIpc(message)) => (EventAction::<M, S, P>::SendIpc(message), true),
            _ => (EventAction::Nothing, false),
        }),
        alive ==> r == (match event {
            Ok(TransportEvent::SendIpc(message)) => (EventAction::<M, S, P>::SendIpc(message), true),
            Ok(TransportEvent::StartStream { settings }) => (EventAction::StartStream(settings), true),
            Ok(TransportEvent::RecvPacket(packet)) => (EventAction::Packet(packet), true),
            Ok(TransportEvent::Closed) => (EventAction::RequestTerminate, false),
            Err(TransportError::Implementation) => (EventAction::Stop, false),
            Err(_) => (EventAction::RequestTerminate, false),
        }),
{
    match event {
        Ok(TransportEvent::SendIpc(message)) => (EventAction::SendIpc(message), true),
        _ if !alive => (EventAction::Nothing, false),
        Ok(TransportEvent::StartStream { settings }) => (EventAction::StartStream(settings), true),
        Ok(TransportEvent::RecvPacket(packet)) => (EventAction::Packet(packet), true),
        Ok(TransportEvent::Closed) => (EventAction::RequestTerminate, false),
        Err(TransportError::Implementation) => (EventAction::Stop, false),
        Err(_) => (EventAction::RequestTerminate, false),
    }
}

/// More messages of the server are waited for after this one.
pub open spec fn is_not_the_last(message: ServerIpcMessage) -> bool {
    message != ServerIpcMessage::Stop
}

/// Whether more messages of the server are waited for after this one.
pub fn keeps_receiving(message: &ServerIpcMessage) -> (r: bool)
    ensures
        r == is_not_the_last(*message),
        r == (*message != ServerIpcMessage::Stop),
{
    match message {
        ServerIpcMessage::Stop => false,
        _ => true,
    }
}

impl<C, F> PendingStart<C, F> {
    /// Nothing is in the way of the stream any more: the host is to be asked for it.
    pub fn stream_ended(self) -> (r: StreamRequest<C, F>)
        ensures
            requests(r, self.app_id, self.settings),
            r.log.message@ == "Moonlight Stream"@,
            r.log.ty is None,
            r.parameters.app_id == self.app_id,
            r.parameters.width == self.settings.width,
            r.parameters.height == self.settings.height,
            r.parameters.fps == self.settings.fps,
            r.parameters.hdr == self.settings.hdr,
            r.parameters.sops,
            r.parameters.local_audio_play_mode == self.settings.play_audio_local,
            r.parameters.gamepads.bits == 0,
            !r.parameters.gamepads_persist_after_disconnect,
            r.parameters.color_space == self.settings.video_colorspace,
            r.parameters.color_range == ColorRange::Full <==> self.settings.video_color_range_full,
            r.parameters.bitrate == self.settings.bitrate,
            r.parameters.packet_size == self.settings.packet_size,
            r.parameters.encryption == EncryptionFlags::All,
            r.parameters.supported_formats == self.settings.video_supported_formats,
    {
        StreamRequest {
            log: starting_stream(),
            parameters: start_parameters(self.app_id, self.settings),
        }
    }
}

/// The state of a stream connection.
#[derive(Debug, Clone, Copy, PartialEq, Eq)]
pub struct StreamConnection {
    /// A stream is running.
    pub has_stream: bool,
    /// A transport is in use.
    pub has_transport: bool,
    /// When the end was last asked for, in nanoseconds.
    pub terminate_request: Option<u128>,
    /// The connection has stopped.
    pub is_terminating: bool,
    /// The gamepads that are connected.
    pub active_gamepads: ActiveGamepads,
    /// What the decoders were told.
    pub stream_setup: StreamSetup,
}

impl StreamConnection {
    /// The state after a stop.
    pub open spec fn stopped(self) -> StreamConnection {
        if self.is_terminating {
            self
        } else {
            StreamConnection {
                has_stream: false,
                has_transport: false,
                is_terminating: true,
                ..self
            }
        }
    }

    /// What a stop has to do; `None` where the connection has stopped before.
    pub open spec fn stop_actions(self) -> Option<StopActions> {
        if self.is_terminating {
            None
        } else {
            Some(
                StopActions { end_stream: self.has_stream, close_transport: self.has_transport },
            )
        }
    }

    /// The end was asked for, and the time is up.
    pub open spec fn is_overdue(self, now: u128) -> bool {
        self.terminate_request matches Some(since) && now - since > TIMEOUT_NANOS
    }

    /// The state after a request to terminate.
    pub open spec fn terminate_requested(self, now: u128) -> StreamConnection {
        StreamConnection { terminate_request: Some(now), ..self }
    }

    /// The state after such a request is withdrawn.
    pub open spec fn terminate_cleared(self) -> StreamConnection {
        StreamConnection { terminate_request: None, ..self }
    }

    /// The state with a transport in place.
    pub open spec fn transport_set(self) -> StreamConnection {
        StreamConnection { has_transport: true, ..self }
    }

    /// The state once the browser has asked for a stream.
    pub open spec fn stream_awaited(self) -> StreamConnection {
        StreamConnection { has_stream: false, ..self.terminate_cleared() }
    }

    /// The state after the answer of the host to the start of a stream.
    pub open spec fn stream_answered(
        self,
        started: Result<Option<u32>, StartFailure>,
    ) -> StreamConnection {
        match started {
            Ok(_) => StreamConnection { has_stream: true, ..self },
            Err(_) => self.stopped(),
        }
    }

    /// The state after a message from the server.
    pub open spec fn after_message(self, message: ServerIpcMessage) -> StreamConnection {
        match message {
            ServerIpcMessage::SetTransport(_) => self.terminate_cleared(),
            ServerIpcMessage::Stop => self.stopped(),
            ServerIpcMessage::Other => self,
        }
    }

    /// What a message from the server leads to.
    pub open spec fn message_reaction(self, message: ServerIpcMessage) -> IpcReaction {
        match message {
            ServerIpcMessage::SetTransport(ty) => IpcReaction::Open(ty),
            ServerIpcMessage::Stop => IpcReaction::Stop {
                actions: self.stop_actions(),
                forward: self.stopped().has_transport,
            },
            ServerIpcMessage::Other => IpcReaction::Pass { forward: self.has_transport },
        }
    }

    /// The state after a look at the request for the end.
    pub open spec fn after_timer(self, now: u128) -> StreamConnection {
        if self.is_overdue(now) {
            self.stopped()
        } else {
            self
        }
    }

    /// The state once the decoders were told something.
    pub open spec fn set_up(self, stream_setup: StreamSetup) -> StreamConnection {
        StreamConnection { stream_setup, ..self }
    }

    /// A connection with no stream and no transport, of whose video and audio nothing
    /// is known.
    pub fn new() -> (r: StreamConnection)
        ensures
            r == (StreamConnection {
                has_stream: false,
                has_transport: false,
                terminate_request: None,
                is_terminating: false,
                active_gamepads: ActiveGamepads::none(),
                stream_setup: StreamSetup { video: None, audio: None },
            }),
    {
        StreamConnection {
            has_stream: false,
            has_transport: false,
            terminate_request: None,
            is_terminating: false,
            active_gamepads: ActiveGamepads::empty(),
            stream_setup: StreamSetup { video: None, audio: None },
        }
    }

    /// Takes what the video decoder was told.
    pub fn set_video_setup(&mut self, video: VideoSetup)
        ensures
            *final(self) == old(self).set_up(
                StreamSetup { video: Some(video), audio: old(self).stream_setup.audio },
            ),
    {
        self.stream_setup.video = Some(video);
    }

    /// Takes what the audio decoder was told.
    pub fn set_audio_setup(&mut self, audio: OpusMultistreamConfig)
        ensures
            *final(self) == old(self).set_up(
                StreamSetup { video: old(self).stream_setup.video, audio: Some(audio) },
            ),
    {
        self.stream_setup.audio = Some(audio);
    }

    /// Puts a transport in place. The result says whether another one has to be closed.
    pub fn set_transport(&mut self) -> (r: bool)
        ensures
            r == old(self).has_transport,
            *final(self) == old(self).transport_set(),
    {
        let old_transport = self.has_transport;
        self.has_transport = true;
        old_transport
    }

    /// Whether a packet can go to the browser.
    pub fn try_send_packet(&self) -> (r: bool)
        ensures
            r == self.has_transport,
    {
        self.has_transport
    }

    /// What a packet leads to.
    pub open spec fn reaction<T: PacketTypes>(
        self,
        packet: InboundPacket<T>,
        slot: Option<ActiveGamepads>,
    ) -> Reaction<T> {
        if self.has_stream {
            reaction_to(self.active_gamepads, packet, slot)
        } else {
            Reaction::NoStream
        }
    }

    /// The state after a packet: it may connect or disconnect a gamepad, or stop the
    /// connection.
    pub open spec fn after_packet<T: PacketTypes>(
        self,
        packet: InboundPacket<T>,
        slot: Option<ActiveGamepads>,
    ) -> StreamConnection {
        if self.reaction(packet, slot) is Stop {
            self.stopped()
        } else {
            StreamConnection {
                active_gamepads: gamepads_after(
                    self.has_stream,
                    self.active_gamepads,
                    packet,
                    slot,
                ),
                ..self
            }
        }
    }

    /// Takes a packet from the browser. `slot` is the gamepad of the packet's number,
    /// where there can be one. The result says what the packet leads to, and what a
    /// stop takes where it leads to one.
    pub fn on_packet<T: PacketTypes>(
        &mut self,
        packet: InboundPacket<T>,
        slot: Option<ActiveGamepads>,
    ) -> (r: (PacketReaction<T>, Option<StopActions>))
        ensures
            r.0@ == old(self).reaction(packet, slot),
            r.1 == (if old(self).reaction(packet, slot) is Stop {
                old(self).stop_actions()
            } else {
                None
            }),
            *final(self) == old(self).after_packet(packet, slot),
    {
        let reaction = on_packet(self.has_stream, &mut self.active_gamepads, packet, slot);
        let actions = match &reaction {
            PacketReaction::Stop => self.stop(),
            _ => None,
        };
        (reaction, actions)
    }

    /// Takes a message from the server.
    pub fn on_ipc_message(&mut self, message: &ServerIpcMessage) -> (r: IpcReaction)
        ensures
            *final(self) == old(self).after_message(*message),
            r == old(self).message_reaction(*message),
            r == (match *message {
                ServerIpcMessage::SetTransport(ty) => IpcReaction::Open(ty),
                ServerIpcMessage::Stop => IpcReaction::Stop {
                    actions: old(self).stop_actions(),
                    forward: old(self).stopped().has_transport,
                },
                ServerIpcMessage::Other => IpcReaction::Pass { forward: old(self).has_transport },
            }),
    {
        match message {
            ServerIpcMessage::SetTransport(ty) => {
                self.clear_terminate_request();
                IpcReaction::Open(*ty)
            },
            ServerIpcMessage::Stop => {
                let actions = self.stop();
                IpcReaction::Stop { actions, forward: self.has_transport }
            },
            ServerIpcMessage::Other => IpcReaction::Pass { forward: self.has_transport },
        }
    }

    /// Takes a transport that was to be opened. Where that failed the result is `None`
    /// and the message that asked for it is dropped; else the message goes to the new
    /// transport, and the result says whether another one has to be closed.
    pub fn on_transport_opened(&mut self, opened: bool) -> (r: Option<bool>)
        ensures
            if opened {
                r == Some(old(self).has_transport) && *final(self) == old(self).transport_set()
            } else {
                r is None && *final(self) == *old(self)
            },
    {
        if opened {
            Some(self.set_transport())
        } else {
            None
        }
    }

    /// Makes room for a stream that the browser asks for. A request for the end is
    /// withdrawn. Where a stream is running it has to be ended first.
    pub fn start_stream<C, F>(&mut self, app_id: u32, settings: StreamSettings<C, F>) -> (r:
        StreamStart<C, F>)
        ensures
            if old(self).has_stream {
                r == StreamStart::EndFirst(PendingStart { app_id, settings })
            } else {
                r matches StreamStart::Ask(request) && requests(request, app_id, settings)
            },
            r matches StreamStart::Ask(request) ==> {
                &&& request.parameters.app_id == app_id
                &&& request.parameters.width == settings.width
                &&& request.parameters.height == settings.height
                &&& request.parameters.fps == settings.fps
                &&& request.parameters.hdr == settings.hdr
                &&& request.parameters.sops
                &&& request.parameters.local_audio_play_mode == settings.play_audio_local
                &&& request.parameters.gamepads.bits == 0
                &&& !request.parameters.gamepads_persist_after_disconnect
                &&& request.parameters.color_space == settings.video_colorspace
                &&& request.parameters.color_range == ColorRange::Full <==> settings.video_color_range_full
                &&& request.parameters.bitrate == settings.bitrate
                &&& request.parameters.packet_size == settings.packet_size
                &&& request.parameters.encryption == EncryptionFlags::All
                &&& request.parameters.supported_formats == settings.video_supported_formats
            },
            final(self).has_stream == false,
            final(self).terminate_request is None,
            *final(self) == old(self).stream_awaited(),
    {
        self.clear_terminate_request();
        let pending = PendingStart { app_id, settings };
        if self.has_stream {
            self.has_stream = false;
            StreamStart::EndFirst(pending)
        } else {
            StreamStart::Ask(pending.stream_ended())
        }
    }

    /// Takes the answer of the host to the start of a stream: the features of the
    /// host, where it has told them, or why there is no stream. Without a stream the
    /// connection stops.
    pub fn stream_started(
        &mut self,
        started: Result<Option<u32>, StartFailure>,
        defaults: &StreamDefaults,
    ) -> (r: StartOutcome)
        ensures
            *final(self) == old(self).stream_answered(started),
            match started {
                Ok(features) => r == StartOutcome::Started(
                    told(features, old(self).stream_setup, *defaults),
                ),
                Err(failure) => {
                    &&& r matches StartOutcome::Failed { log, actions }
                    &&& tells_failure(failure, log)
                    &&& actions == old(self).stop_actions()
                },
            },
    {
        match started {
            Ok(features) => {
                self.has_stream = true;
                StartOutcome::Started(connection_complete(features, &self.stream_setup, defaults))
            },
            Err(failure) => {
                let log = start_failure_message(failure);
                let actions = self.stop();
                StartOutcome::Failed { log, actions }
            },
        }
    }

    /// The host has ended the stream. The result says what a stop takes, as for
    /// [`StreamConnection::stop`]; the server is told of the error code before.
    pub fn connection_terminated(&mut self, error_code: i32) -> (r: (
        ConnectionTerminated,
        Option<StopActions>,
    ))
        ensures
            r.0.error_code == error_code,
            r.1 == old(self).stop_actions(),
            *final(self) == old(self).stopped(),
    {
        let actions = self.stop();
        (ConnectionTerminated { error_code }, actions)
    }

    /// Asks for the end, unless a transport comes in time.
    pub fn request_terminate(&mut self, now: u128)
        ensures
            *final(self) == old(self).terminate_requested(now),
    {
        self.terminate_request = Some(now);
    }

    /// Withdraws the request for the end.
    pub fn clear_terminate_request(&mut self)
        ensures
            *final(self) == old(self).terminate_cleared(),
    {
        self.terminate_request = None;
    }

    /// Looks at the request for the end once its time should be up.
    pub fn on_terminate_timer(&mut self, now: u128) -> (r: Option<StopActions>)
        ensures
            *final(self) == old(self).after_timer(now),
            r == (if old(self).is_overdue(now) {
                old(self).stop_actions()
            } else {
                None
            }),
    {
        let overdue = match self.terminate_request {
            Some(since) => now >= since && now - since > TIMEOUT_NANOS,
            None => false,
        };
        if overdue {
            self.stop()
        } else {
            None
        }
    }

    /// Stops the connection. The result says what that takes; it is `None` where the
    /// connection has stopped before.
    pub fn stop(&mut self) -> (r: Option<StopActions>)
        ensures
            r == old(self).stop_actions(),
            *final(self) == old(self).stopped(),
    {
        if self.is_terminating {
            return None;
        }
        let actions = StopActions {
            end_stream: self.has_stream,
            close_transport: self.has_transport,
        };
        self.is_terminating = true;
        self.has_stream = false;
        self.has_transport = false;
        Some(actions)
    }
}

/// A connection stops once: a second stop has nothing to do and changes nothing.
pub proof fn law_second_stop_does_nothing(connection: StreamConnection)
    ensures
        connection.stopped().is_terminating,
        connection.stopped().stop_actions() is None,
        connection.stopped().stopped() == connection.stopped(),
{
}

/// A stop leaves neither a stream nor a transport behind, where it is the first.
pub proof fn law_stop_leaves_nothing_open(connection: StreamConnection)
    requires
        !connection.is_terminating,
    ensures
        !connection.stopped().has_stream,
        !connection.stopped().has_transport,
        connection.stop_actions() == Some(
            StopActions {
                end_stream: connection.has_stream,
                close_transport: connection.has_transport,
            },
        ),
{
}

/// A request for the end that was withdrawn is never overdue.
pub proof fn law_withdrawn_request_is_never_overdue(connection: StreamConnection, now: u128)
    ensures
        !connection.terminate_cleared().is_overdue(now),
{
}

/// Of several requests for the end the last one counts: the time runs from it alone.
pub proof fn law_last_request_counts(
    connection: StreamConnection,
    first: u128,
    last: u128,
    now: u128,
)
    ensures
        connection.terminate_requested(first).terminate_requested(last)
            == connection.terminate_requested(last),
        connection.terminate_requested(first).terminate_requested(last).is_overdue(now) <==> now
            - last > TIMEOUT_NANOS,
{
}

/// A request for the end that stands is overdue when it is looked at again.
pub proof fn law_standing_request_is_overdue_at_its_check(
    connection: StreamConnection,
    since: u128,
    now: u128,
)
    requires
        now >= since + TERMINATE_CHECK_NANOS,
    ensures
        connection.terminate_requested(since).is_overdue(now),
{
}

/// A connection that has stopped stays so, whatever comes after: another stop, a request
/// for the end, its withdrawal or a look at it, a packet, a message from the server, a
/// transport, a stream that is asked for or answered, or word from the decoders. It
/// never has anything left to do for a stop.
pub proof fn law_stop_is_final<T: PacketTypes>(
    connection: StreamConnection,
    packet: InboundPacket<T>,
    slot: Option<ActiveGamepads>,
    message: ServerIpcMessage,
    started: Result<Option<u32>, StartFailure>,
    stream_setup: StreamSetup,
    now: u128,
)
    requires
        connection.is_terminating,
    ensures
        connection.stop_actions() is None,
        connection.stopped().is_terminating,
        connection.terminate_requested(now).is_terminating,
        connection.terminate_cleared().is_terminating,
        connection.after_timer(now).is_terminating,
        connection.after_packet(packet, slot).is_terminating,
        connection.after_message(message).is_terminating,
        connection.transport_set().is_terminating,
        connection.stream_awaited().is_terminating,
        connection.stream_answered(started).is_terminating,
        connection.set_up(stream_setup).is_terminating,
{
}

/// A packet moves nothing in a connection without a stream, not even a stop does.
pub proof fn law_packets_need_a_stream<T: PacketTypes>(
    connection: StreamConnection,
    packet: InboundPacket<T>,
    slot: Option<ActiveGamepads>,
)
    requires
        !connection.has_stream,
    ensures
        connection.after_packet(packet, slot) == connection,
        connection.reaction(packet, slot) is NoStream,
{
}

/// A request for a stream says that one is started and asks for every wish of the
/// browser as it is.
pub proof fn law_request_holds_every_wish<C, F>(
    request: StreamRequest<C, F>,
    app_id: u32,
    settings: StreamSettings<C, F>,
)
    requires
        requests(request, app_id, settings),
    ensures
        request.log.message@ == "Moonlight Stream"@,
        request.log.ty is None,
        request.parameters.app_id == app_id,
        request.parameters.width == settings.width,
        request.parameters.height == settings.height,
        request.parameters.fps == settings.fps,
        request.parameters.hdr == settings.hdr,
        request.parameters.sops,
        request.parameters.local_audio_play_mode == settings.play_audio_local,
        request.parameters.gamepads.bits == 0,
        !request.parameters.gamepads_persist_after_disconnect,
        request.parameters.color_space == settings.video_colorspace,
        request.parameters.color_range == ColorRange::Full <==> settings.video_color_range_full,
        request.parameters.bitrate == settings.bitrate,
        request.parameters.packet_size == settings.packet_size,
        request.parameters.encryption == EncryptionFlags::All,
        request.parameters.supported_formats == settings.video_supported_formats,
{
}

/// A stop ends the stream and the transport where they are there, and nothing but them;
/// a connection that has stopped before is left as it is.
pub proof fn law_what_a_stop_changes(connection: StreamConnection)
    ensures
        ({
            let after = connection.stopped();
            &&& after.is_terminating
            &&& after.terminate_request == connection.terminate_request
            &&& after.active_gamepads == connection.active_gamepads
            &&& after.stream_setup == connection.stream_setup
            &&& connection.is_terminating ==> after == connection
                && connection.stop_actions() is None
            &&& !connection.is_terminating ==> !after.has_stream && !after.has_transport && (
            connection.stop_actions() matches Some(actions) && actions.end_stream
                == connection.has_stream && actions.close_transport == connection.has_transport)
        }),
{
}

/// A request for the end is overdue once more than ten seconds have gone by since it was
/// made, and not before; without a request nothing is. It is looked at after them.
pub proof fn law_requests_wait_ten_seconds(connection: StreamConnection, now: u128)
    ensures
        connection.terminate_request is None ==> !connection.is_overdue(now),
        connection.terminate_request matches Some(since) ==> (connection.is_overdue(now) <==> now
            > since + 10 * 1000 * 1000 * 1000),
        TERMINATE_CHECK_NANOS > 10 * 1000 * 1000 * 1000,
        connection.is_overdue(now) ==> connection.after_timer(now) == connection.stopped(),
        !connection.is_overdue(now) ==> connection.after_timer(now) == connection,
{
}

/// Asking for the end and withdrawing that change nothing but the request.
pub proof fn law_what_a_request_for_the_end_changes(connection: StreamConnection, now: u128)
    ensures
        ({
            let after = connection.terminate_requested(now);
            &&& after.terminate_request == Some(now)
            &&& after.has_stream == connection.has_stream
            &&& after.has_transport == connection.has_transport
            &&& after.is_terminating == connection.is_terminating
            &&& after.active_gamepads == connection.active_gamepads
            &&& after.stream_setup == connection.stream_setup
        }),
        ({
            let after = connection.terminate_cleared();
            &&& after.terminate_request is None
            &&& after.has_stream == connection.has_stream
            &&& after.has_transport == connection.has_transport
            &&& after.is_terminating == connection.is_terminating
            &&& after.active_gamepads == connection.active_gamepads
            &&& after.stream_setup == connection.stream_setup
        }),
{
}

/// A transport, a stream that is asked for, the answer to it and word from the decoders
/// change what they are about, and nothing else.
pub proof fn law_what_transports_and_streams_change(
    connection: StreamConnection,
    features: Option<u32>,
    failure: StartFailure,
    stream_setup: StreamSetup,
)
    ensures
        ({
            let after = connection.transport_set();
            &&& after.has_transport
            &&& after.has_stream == connection.has_stream
            &&& after.terminate_request == connection.terminate_request
            &&& after.is_terminating == connection.is_terminating
            &&& after.active_gamepads == connection.active_gamepads
            &&& after.stream_setup == connection.stream_setup
        }),
        ({
            let after = connection.stream_awaited();
            &&& !after.has_stream
            &&& after.terminate_request is None
            &&& after.has_transport == connection.has_transport
            &&& after.is_terminating == connection.is_terminating
            &&& after.active_gamepads == connection.active_gamepads
            &&& after.stream_setup == connection.stream_setup
        }),
        ({
            let after = connection.stream_answered(Ok(features));
            &&& after.has_stream
            &&& after.has_transport == connection.has_transport
            &&& after.terminate_request == connection.terminate_request
            &&& after.is_terminating == connection.is_terminating
            &&& after.active_gamepads == connection.active_gamepads
            &&& after.stream_setup == connection.stream_setup
        }),
        connection.stream_answered(Err(failure)) == connection.stopped(),
        ({
            let after = connection.set_up(stream_setup);
            &&& after.stream_setup == stream_setup
            &&& after.has_stream == connection.has_stream
            &&& after.has_transport == connection.has_transport
            &&& after.terminate_request == connection.terminate_request
            &&& after.is_terminating == connection.is_terminating
            &&& after.active_gamepads == connection.active_gamepads
        }),
{
}

/// A message that chooses a transport withdraws a request for the end, a stop stops, and
/// any other message changes nothing.
pub proof fn law_what_messages_of_the_server_change(
    connection: StreamConnection,
    ty: TransportType,
)
    ensures
        connection.after_message(ServerIpcMessage::SetTransport(ty)) == (StreamConnection {
            terminate_request: None,
            ..connection
        }),
        connection.after_message(ServerIpcMessage::Stop) == connection.stopped(),
        connection.after_message(ServerIpcMessage::Other) == connection,
{
}

/// A packet that is not a stop changes at most which gamepads are connected: while a
/// stream runs, by the gamepad of the packet. It leads to what such a packet leads to.
pub proof fn law_what_packets_change<T: PacketTypes>(
    connection: StreamConnection,
    packet: InboundPacket<T>,
    slot: Option<ActiveGamepads>,
)
    ensures
        ({
            let after = connection.after_packet(packet, slot);
            &&& connection.has_stream && packet is General ==> after == connection.stopped()
            &&& !(connection.has_stream && packet is General) ==> after.has_stream
                == connection.has_stream && after.has_transport == connection.has_transport
                && after.terminate_request == connection.terminate_request && after.is_terminating
                == connection.is_terminating && after.stream_setup == connection.stream_setup
            &&& connection.has_stream && !(packet is General) ==> after.active_gamepads
                == gamepads_after(true, connection.active_gamepads, packet, slot)
            &&& connection.has_stream ==> connection.reaction(packet, slot) == reaction_to(
                connection.active_gamepads,
                packet,
                slot,
            )
            &&& !connection.has_stream ==> connection.reaction(packet, slot) is NoStream && after
                == connection
        }),
{
}

/// What a transport reports is passed on as it is. A transport that is closed ends the
/// connection only in time, one that fails at once; neither is listened to any longer. A
/// connection that is gone takes nothing but messages for the server.
pub proof fn law_transport_events<M, S, P>(
    alive: bool,
    event: Result<TransportEvent<M, S, P>, TransportError>,
    r: (EventAction<M, S, P>, bool),
)
    requires
        leads_to(alive, event, r),
    ensures
        event matches Ok(TransportEvent::SendIpc(message)) ==> (r.0 matches EventAction::SendIpc(told)
            && told == message),
        alive ==> (event matches Ok(TransportEvent::StartStream { settings }) ==> (
        r.0 matches EventAction::StartStream(told) && told == settings)),
        alive ==> (event matches Ok(TransportEvent::RecvPacket(packet)) ==> (
        r.0 matches EventAction::Packet(told) && told == packet)),
        alive ==> (r.0 is RequestTerminate <==> (event matches Ok(TransportEvent::Closed)) || (
        event matches Err(TransportError::Closed)) || (event matches Err(
            TransportError::ChannelClosed,
        ))),
        alive ==> (r.0 is Stop <==> (event matches Err(TransportError::Implementation))),
        r.1 <==> r.0 is SendIpc || r.0 is StartStream || r.0 is Packet,
        !alive && !(r.0 is SendIpc) ==> r.0 is Nothing,
{
}

/// A message that chooses a transport opens that one. Any other message goes on to the
/// transport exactly where there is one that was not just closed by a stop.
pub proof fn law_messages_of_the_server(connection: StreamConnection, ty: TransportType)
    ensures
        connection.message_reaction(ServerIpcMessage::SetTransport(ty)) == IpcReaction::Open(ty),
        connection.message_reaction(ServerIpcMessage::Other) == (IpcReaction::Pass {
            forward: connection.has_transport,
        }),
        connection.message_reaction(ServerIpcMessage::Stop) matches IpcReaction::Stop {
            actions,
            forward,
        } && (actions is Some <==> !connection.is_terminating) && (forward <==> connection.has_transport
            && connection.is_terminating),
{
}

/// Nothing but a stop is the last message of the server.
pub proof fn law_stop_is_the_last_message(ty: TransportType)
    ensures
        is_not_the_last(ServerIpcMessage::SetTransport(ty)),
        is_not_the_last(ServerIpcMessage::Other),
        !is_not_the_last(ServerIpcMessage::Stop),
{
}

} // verus!
