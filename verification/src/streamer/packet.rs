//! Packets from the browser, and what they make the stream do.
use crate::streamer::gamepads::ActiveGamepads;
use vstd::prelude::*;

verus! {

/// The kinds of values that packets carry and that are only passed on.
pub trait PacketTypes {
    type MouseAction;

    type MouseButton;

    type KeyAction;

    type KeyModifiers;

    type KeyFlags;

    type Touch;

    type ControllerType;

    type ControllerCapabilities;
}

/// A message from the browser that is not input.
#[derive(Debug, Clone, Copy, PartialEq, Eq, Structural)]
pub enum GeneralClientMessage {
    Stop,
}

/// The state of the buttons, triggers and sticks of a controller.
#[derive(Debug, Clone, Copy, PartialEq, Eq, Structural)]
pub struct ControllerInput {
    pub buttons: u32,
    pub left_trigger: u8,
    pub right_trigger: u8,
    pub left_stick_x: i16,
    pub left_stick_y: i16,
    pub right_stick_x: i16,
    pub right_stick_y: i16,
}

/// A controller of which nothing is pressed or moved.
pub open spec fn released() -> ControllerInput {
    ControllerInput {
        buttons: 0,
        left_trigger: 0,
        right_trigger: 0,
        left_stick_x: 0,
        left_stick_y: 0,
        right_stick_x: 0,
        right_stick_y: 0,
    }
}

/// A packet from the browser.
pub enum InboundPacket<T: PacketTypes> {
    General { message: GeneralClientMessage },
    MousePosition { x: i16, y: i16, reference_width: i16, reference_height: i16 },
    MouseButton { action: T::MouseAction, button: T::MouseButton },
    MouseMove { delta_x: i16, delta_y: i16 },
    HighResScroll { delta_x: i16, delta_y: i16 },
    Scroll { delta_x: i8, delta_y: i8 },
    Key { action: T::KeyAction, modifiers: T::KeyModifiers, key: u16, flags: T::KeyFlags },
    Text { text: String },
    Touch { touch: T::Touch },
    ControllerConnected {
        id: u8,
        ty: T::ControllerType,
        supported_buttons: u32,
        capabilities: T::ControllerCapabilities,
    },
    ControllerDisconnected { id: u8 },
    ControllerState { id: u8, input: ControllerInput },
    /// A packet that the stream has no use for.
    Other,
}

/// A call of the stream.
pub enum StreamCommand<T: PacketTypes> {
    MousePosition { x: i16, y: i16, reference_width: i16, reference_height: i16 },
    MouseButton { action: T::MouseAction, button: T::MouseButton },
    MouseMove { delta_x: i16, delta_y: i16 },
    HighResScroll { delta: i16 },
    HighResHorizontalScroll { delta: i16 },
    Scroll { delta: i8 },
    HorizontalScroll { delta: i8 },
    Keyboard { key: i16, action: T::KeyAction, modifiers: T::KeyModifiers, flags: T::KeyFlags },
    Text { text: String },
    Touch { touch: T::Touch },
    ControllerArrival {
        id: u8,
        active: ActiveGamepads,
        ty: T::ControllerType,
        supported_buttons: u32,
        capabilities: T::ControllerCapabilities,
    },
    MultiController { id: u8, active: ActiveGamepads, input: ControllerInput },
}

/// What a packet leads to.
pub enum PacketReaction<T: PacketTypes> {
    /// The packet is dropped: there is no stream.
    NoStream,
    /// The stream is to be stopped.
    Stop,
    /// The packet is dropped: there can be no gamepad of its number.
    OutOfRange,
    /// The packet is dropped: its gamepad was not connected.
    NotRegistered,
    /// The calls are made, one after the other.
    Send(Vec<StreamCommand<T>>),
}

/// What a packet leads to, with the calls as a sequence.
pub enum Reaction<T: PacketTypes> {
    NoStream,
    Stop,
    OutOfRange,
    NotRegistered,
    Send(Seq<StreamCommand<T>>),
}

impl<T: PacketTypes> View for PacketReaction<T> {
    type V = Reaction<T>;

    open spec fn view(&self) -> Reaction<T> {
        match self {
            PacketReaction::NoStream => Reaction::NoStream,
            PacketReaction::Stop => Reaction::Stop,
            PacketReaction::OutOfRange => Reaction::OutOfRange,
            PacketReaction::NotRegistered => Reaction::NotRegistered,
            PacketReaction::Send(commands) => Reaction::Send(commands@),
        }
    }
}

impl<T: PacketTypes> InboundPacket<T> {
    /// The number of the controller that the packet is about.
    pub open spec fn spec_controller_id(self) -> Option<u8> {
        match self {
            InboundPacket::ControllerConnected { id, .. } => Some(id),
            InboundPacket::ControllerDisconnected { id } => Some(id),
            InboundPacket::ControllerState { id, .. } => Some(id),
            _ => None,
        }
    }

    /// The number of the controller that the packet is about, where it is about one.
    pub fn controller_id(&self) -> (r: Option<u8>)
        ensures
            r == self.spec_controller_id(),
    {
        match self {
            InboundPacket::ControllerConnected { id, .. } => Some(*id),
            InboundPacket::ControllerDisconnected { id } => Some(*id),
            InboundPacket::ControllerState { id, .. } => Some(*id),
            _ => None,
        }
    }
}

/// The 16 bits of `key`, read as a signed number.
pub open spec fn signed_key(key: u16) -> int {
    if key < 0x8000 {
        key as int
    } else {
        key - 0x10000
    }
}

/// A scroll that is only made where there is something to scroll.
pub open spec fn scroll_by<T: PacketTypes>(delta: int, command: StreamCommand<T>) -> Seq<
    StreamCommand<T>,
> {
    if delta != 0 {
        seq![command]
    } else {
        Seq::empty()
    }
}

/// The gamepads that are connected after a packet. `slot` is the gamepad of the
/// packet's number, where there can be one.
pub open spec fn gamepads_after<T: PacketTypes>(
    has_stream: bool,
    active: ActiveGamepads,
    packet: InboundPacket<T>,
    slot: Option<ActiveGamepads>,
) -> ActiveGamepads {
    match (packet, slot) {
        (InboundPacket::ControllerConnected { .. }, Some(gamepad)) => if has_stream {
            active.with(gamepad)
        } else {
            active
        },
        (InboundPacket::ControllerDisconnected { .. }, Some(gamepad)) => if has_stream {
            active.without(gamepad)
        } else {
            active
        },
        _ => active,
    }
}

/// What a packet leads to while there is a stream. `slot` is the gamepad of the
/// packet's number, where there can be one.
pub open spec fn reaction_to<T: PacketTypes>(
    active: ActiveGamepads,
    packet: InboundPacket<T>,
    slot: Option<ActiveGamepads>,
) -> Reaction<T> {
    match packet {
        InboundPacket::General { message: GeneralClientMessage::Stop } => Reaction::Stop,
        InboundPacket::MousePosition { x, y, reference_width, reference_height } => Reaction::Send(
            seq![StreamCommand::MousePosition { x, y, reference_width, reference_height }],
        ),
        InboundPacket::MouseButton { action, button } => Reaction::Send(
            seq![StreamCommand::MouseButton { action, button }],
        ),
        InboundPacket::MouseMove { delta_x, delta_y } => Reaction::Send(
            seq![StreamCommand::MouseMove { delta_x, delta_y }],
        ),
        InboundPacket::HighResScroll { delta_x, delta_y } => Reaction::Send(
            scroll_by::<T>(delta_y as int, StreamCommand::HighResScroll { delta: delta_y })
                + scroll_by::<T>(
                delta_x as int,
                StreamCommand::HighResHorizontalScroll { delta: delta_x },
            ),
        ),
        InboundPacket::Scroll { delta_x, delta_y } => Reaction::Send(
            scroll_by::<T>(delta_y as int, StreamCommand::Scroll { delta: delta_y })
                + scroll_by::<T>(
                delta_x as int,
                StreamCommand::HorizontalScroll { delta: delta_x },
            ),
        ),
        InboundPacket::Key { action, modifiers, key, flags } => Reaction::Send(
            seq![StreamCommand::Keyboard { key: signed_key(key) as i16, action, modifiers, flags }],
        ),
        InboundPacket::Text { text } => Reaction::Send(seq![StreamCommand::Text { text }]),
        InboundPacket::Touch { touch } => Reaction::Send(seq![StreamCommand::Touch { touch }]),
        InboundPacket::ControllerConnected { id, ty, supported_buttons, capabilities } => match slot {
            None => Reaction::OutOfRange,
            Some(gamepad) => Reaction::Send(
                seq![
                    StreamCommand::ControllerArrival {
                        id,
                        active: active.with(gamepad),
                        ty,
                        supported_buttons,
                        capabilities,
                    },
                ],
            ),
        },
        InboundPacket::ControllerDisconnected { id } => match slot {
            None => Reaction::OutOfRange,
            Some(gamepad) => Reaction::Send(
                seq![
                    StreamCommand::MultiController {
                        id,
                        active: active.without(gamepad),
                        input: released(),
                    },
                ],
            ),
        },
        InboundPacket::ControllerState { id, input } => match slot {
            None => Reaction::OutOfRange,
            Some(gamepad) => if active.has(gamepad) {
                Reaction::Send(seq![StreamCommand::MultiController { id, active, input }])
            } else {
                Reaction::NotRegistered
            },
        },
        InboundPacket::Other => Reaction::Send(Seq::empty()),
    }
}

/// Reads the 16 bits of `key` as a signed number.
fn to_signed_key(key: u16) -> (r: i16)
    ensures
        r == signed_key(key),
{
    if key < 0x8000 {
        key as i16
    } else {
        (key as i32 - 0x10000) as i16
    }
}

/// A single call.
fn send<T: PacketTypes>(command: StreamCommand<T>) -> (r: PacketReaction<T>)
    ensures
        r@ == Reaction::Send(seq![command]),
{
    let mut commands: Vec<StreamCommand<T>> = Vec::new();
    commands.push(command);
    proof {
        assert(commands@ =~= seq![command]);
    }
    PacketReaction::Send(commands)
}

/// Takes a packet from the browser. `slot` is the gamepad of the packet's number,
/// where there can be one.
pub fn on_packet<T: PacketTypes>(
    has_stream: bool,
    active: &mut ActiveGamepads,
    packet: InboundPacket<T>,
    slot: Option<ActiveGamepads>,
) -> (r: PacketReaction<T>)
    ensures
        *final(active) == gamepads_after(has_stream, *old(active), packet, slot),
        r@ == (if has_stream {
            reaction_to(*old(active), packet, slot)
        } else {
            Reaction::NoStream
        }),
{
    if !has_stream {
        return PacketReaction::NoStream;
    }
    match packet {
        InboundPacket::General { message: GeneralClientMessage::Stop } => PacketReaction::Stop,
        InboundPacket::MousePosition { x, y, reference_width, reference_height } => send(
            StreamCommand::MousePosition { x, y, reference_width, reference_height },
        ),
        InboundPacket::MouseButton { action, button } => send(
            StreamCommand::MouseButton { action, button },
        ),
        InboundPacket::MouseMove { delta_x, delta_y } => send(
            StreamCommand::MouseMove { delta_x, delta_y },
        ),
        InboundPacket::HighResScroll { delta_x, delta_y } => {
            let mut commands: Vec<StreamCommand<T>> = Vec::new();
            if delta_y != 0 {
                commands.push(StreamCommand::HighResScroll { delta: delta_y });
            }
            if delta_x != 0 {
                commands.push(StreamCommand::HighResHorizontalScroll { delta: delta_x });
            }
            proof {
                assert(commands@ =~= scroll_by::<T>(
                    delta_y as int,
                    StreamCommand::HighResScroll { delta: delta_y },
                ) + scroll_by::<T>(
                    delta_x as int,
                    StreamCommand::HighResHorizontalScroll { delta: delta_x },
                ));
            }
            PacketReaction::Send(commands)
        },
        InboundPacket::Scroll { delta_x, delta_y } => {
            let mut commands: Vec<StreamCommand<T>> = Vec::new();
            if delta_y != 0 {
                commands.push(StreamCommand::Scroll { delta: delta_y });
            }
            if delta_x != 0 {
                commands.push(StreamCommand::HorizontalScroll { delta: delta_x });
            }
            proof {
                assert(commands@ =~= scroll_by::<T>(
                    delta_y as int,
                    StreamCommand::Scroll { delta: delta_y },
                ) + scroll_by::<T>(
                    delta_x as int,
                    StreamCommand::HorizontalScroll { delta: delta_x },
                ));
            }
            PacketReaction::Send(commands)
        },
        InboundPacket::Key { action, modifiers, key, flags } => send(
            StreamCommand::Keyboard { key: to_signed_key(key), action, modifiers, flags },
        ),
        InboundPacket::Text { text } => send(StreamCommand::Text { text }),
        InboundPacket::Touch { touch } => send(StreamCommand::Touch { touch }),
        InboundPacket::ControllerConnected { id, ty, supported_buttons, capabilities } => {
            let gamepad = match slot {
                Some(gamepad) => gamepad,
                None => {
                    return PacketReaction::OutOfRange;
                },
            };
            active.insert(gamepad);
            send(
                StreamCommand::ControllerArrival {
                    id,
                    active: *active,
                    ty,
                    supported_buttons,
                    capabilities,
                },
            )
        },
        InboundPacket::ControllerDisconnected { id } => {
            let gamepad = match slot {
                Some(gamepad) => gamepad,
                None => {
                    return PacketReaction::OutOfRange;
                },
            };
            active.remove(gamepad);
            let input = ControllerInput {
                buttons: 0,
                left_trigger: 0,
                right_trigger: 0,
                left_stick_x: 0,
                left_stick_y: 0,
                right_stick_x: 0,
                right_stick_y: 0,
            };
            send(StreamCommand::MultiController { id, active: *active, input })
        },
        InboundPacket::ControllerState { id, input } => {
            let gamepad = match slot {
                Some(gamepad) => gamepad,
                None => {
                    return PacketReaction::OutOfRange;
                },
            };
            if !active.contains(gamepad) {
                return PacketReaction::NotRegistered;
            }
            send(StreamCommand::MultiController { id, active: *active, input })
        },
        InboundPacket::Other => PacketReaction::Send(Vec::new()),
    }
}

/// Once a controller is connected its state reaches the stream, and names every
/// gamepad that is connected.
pub proof fn law_connected_controller_is_heard<T: PacketTypes>(
    active: ActiveGamepads,
    connect: InboundPacket<T>,
    state: InboundPacket<T>,
    gamepad: ActiveGamepads,
)
    requires
        connect is ControllerConnected,
        state is ControllerState,
    ensures
        ({
            let after = gamepads_after(true, active, connect, Some(gamepad));
            reaction_to(after, state, Some(gamepad)) == Reaction::Send(
                seq![
                    StreamCommand::<T>::MultiController {
                        id: state->ControllerState_id,
                        active: active.with(gamepad),
                        input: state->input,
                    },
                ],
            )
        }),
{
    crate::streamer::gamepads::law_added_gamepad_is_there(active, gamepad, gamepad);
}

/// Once a controller is disconnected its state no longer reaches the stream.
pub proof fn law_disconnected_controller_is_not_heard<T: PacketTypes>(
    active: ActiveGamepads,
    disconnect: InboundPacket<T>,
    state: InboundPacket<T>,
    gamepad: ActiveGamepads,
)
    requires
        disconnect is ControllerDisconnected,
        state is ControllerState,
        gamepad.bits != 0,
    ensures
        ({
            let after = gamepads_after(true, active, disconnect, Some(gamepad));
            reaction_to(after, state, Some(gamepad)) == Reaction::<T>::NotRegistered
        }),
{
    crate::streamer::gamepads::law_removed_gamepad_is_gone(active, gamepad, gamepad);
}

/// Only packets about controllers change which gamepads are connected, and none does
/// where there is no stream or no gamepad of the packet's number.
pub proof fn law_gamepads_change_by_controllers_only<T: PacketTypes>(
    has_stream: bool,
    active: ActiveGamepads,
    packet: InboundPacket<T>,
    slot: Option<ActiveGamepads>,
)
    requires
        !has_stream || slot is None || packet.spec_controller_id() is None
            || packet is ControllerState,
    ensures
        gamepads_after(has_stream, active, packet, slot) == active,
{
}

/// A disconnect takes away its own gamepad and no other: a gamepad that shares no bit
/// with it is connected afterwards exactly where it was before. The stream is told the
/// gamepads that are connected afterwards, and that nothing is pressed any more.
pub proof fn law_disconnect_takes_its_own_gamepad_only<T: PacketTypes>(
    active: ActiveGamepads,
    id: u8,
    gamepad: ActiveGamepads,
    other: ActiveGamepads,
)
    ensures
        ({
            let packet = InboundPacket::<T>::ControllerDisconnected { id };
            let after = gamepads_after(true, active, packet, Some(gamepad));
            &&& after.bits & gamepad.bits == 0
            &&& after.bits | gamepad.bits == active.bits | gamepad.bits
            &&& other.bits & gamepad.bits == 0 ==> (after.bits & other.bits == other.bits
                <==> active.bits & other.bits == other.bits)
            &&& reaction_to(active, packet, Some(gamepad)) matches Reaction::Send(sent)
                && sent.len() == 1 && (sent[0] matches StreamCommand::MultiController {
                id: told_id,
                active: told,
                input,
            } && told_id == id && told == after && input.buttons == 0 && input.left_trigger == 0
                && input.right_trigger == 0 && input.left_stick_x == 0 && input.left_stick_y == 0
                && input.right_stick_x == 0 && input.right_stick_y == 0)
        }),
{
    let (a, g, o) = (active.bits, gamepad.bits, other.bits);
    assert((a & !g) & g == 0) by (bit_vector);
    assert((a & !g) | g == a | g) by (bit_vector);
    assert(o & g == 0 ==> (a & !g) & o == a & o) by (bit_vector);
}

/// A connect adds its own gamepad and no other, and the stream is told the gamepads that
/// are connected afterwards, with all that the packet says of the controller.
pub proof fn law_connect_adds_its_own_gamepad_only<T: PacketTypes>(
    active: ActiveGamepads,
    id: u8,
    ty: T::ControllerType,
    supported_buttons: u32,
    capabilities: T::ControllerCapabilities,
    gamepad: ActiveGamepads,
    other: ActiveGamepads,
)
    ensures
        ({
            let packet = InboundPacket::<T>::ControllerConnected {
                id,
                ty,
                supported_buttons,
                capabilities,
            };
            let after = gamepads_after(true, active, packet, Some(gamepad));
            &&& after.bits & gamepad.bits == gamepad.bits
            &&& after.bits & active.bits == active.bits
            &&& other.bits & gamepad.bits == 0 ==> (after.bits & other.bits == other.bits
                <==> active.bits & other.bits == other.bits)
            &&& reaction_to(active, packet, Some(gamepad)) matches Reaction::Send(sent)
                && sent.len() == 1 && (sent[0] matches StreamCommand::ControllerArrival {
                id: told_id,
                active: told,
                ty: told_ty,
                supported_buttons: told_buttons,
                capabilities: told_capabilities,
            } && told_id == id && told == after && told_ty == ty && told_buttons
                == supported_buttons && told_capabilities == capabilities)
        }),
{
    let (a, g, o) = (active.bits, gamepad.bits, other.bits);
    assert((a | g) & g == g) by (bit_vector);
    assert((a | g) & a == a) by (bit_vector);
    assert(o & g == 0 ==> (a | g) & o == a & o) by (bit_vector);
}

/// The state of a controller is passed on, with every gamepad that is connected, exactly
/// where its own one is; it changes none of them.
pub proof fn law_state_is_passed_on_where_connected<T: PacketTypes>(
    has_stream: bool,
    active: ActiveGamepads,
    id: u8,
    input: ControllerInput,
    gamepad: ActiveGamepads,
)
    ensures
        ({
            let packet = InboundPacket::<T>::ControllerState { id, input };
            &&& gamepads_after(has_stream, active, packet, Some(gamepad)) == active
            &&& active.bits & gamepad.bits == gamepad.bits ==> (reaction_to(
                active,
                packet,
                Some(gamepad),
            ) matches Reaction::Send(sent) && sent.len() == 1 && (
            sent[0] matches StreamCommand::MultiController {
                id: told_id,
                active: told,
                input: told_input,
            } && told_id == id && told == active && told_input == input))
            &&& active.bits & gamepad.bits != gamepad.bits ==> reaction_to(
                active,
                packet,
                Some(gamepad),
            ) is NotRegistered
        }),
{
}

/// One controller that leaves does not silence another one.
pub proof fn law_other_controllers_stay_heard<T: PacketTypes>(
    active: ActiveGamepads,
    leaving: u8,
    gamepad: ActiveGamepads,
    id: u8,
    input: ControllerInput,
    other: ActiveGamepads,
)
    requires
        other.bits & gamepad.bits == 0,
        active.bits & other.bits == other.bits,
    ensures
        ({
            let after = gamepads_after(
                true,
                active,
                InboundPacket::<T>::ControllerDisconnected { id: leaving },
                Some(gamepad),
            );
            reaction_to(after, InboundPacket::<T>::ControllerState { id, input }, Some(other)) matches Reaction::Send(sent)
                && sent.len() == 1 && (sent[0] matches StreamCommand::MultiController {
                id: told_id,
                active: told,
                input: told_input,
            } && told_id == id && told == after && told_input == input)
        }),
{
    law_disconnect_takes_its_own_gamepad_only::<T>(active, leaving, gamepad, other);
}

/// A controller for which there is no gamepad is dropped and changes nothing.
pub proof fn law_controllers_out_of_range_are_dropped<T: PacketTypes>(
    has_stream: bool,
    active: ActiveGamepads,
    packet: InboundPacket<T>,
)
    requires
        packet is ControllerConnected || packet is ControllerDisconnected
            || packet is ControllerState,
    ensures
        reaction_to(active, packet, None) is OutOfRange,
        gamepads_after(has_stream, active, packet, None) == active,
        packet.spec_controller_id() is Some,
{
}

/// The number of a controller is that of its packet; other packets are about none.
pub proof fn law_controller_numbers<T: PacketTypes>(packet: InboundPacket<T>)
    ensures
        packet matches InboundPacket::ControllerConnected { id, .. } ==> packet.spec_controller_id()
            == Some(id),
        packet matches InboundPacket::ControllerDisconnected { id } ==> packet.spec_controller_id()
            == Some(id),
        packet matches InboundPacket::ControllerState { id, .. } ==> packet.spec_controller_id()
            == Some(id),
        packet.spec_controller_id() is Some ==> packet is ControllerConnected
            || packet is ControllerDisconnected || packet is ControllerState,
{
}

/// Input of the mouse, by touch and as text is passed on as one call with all that it
/// holds, whatever gamepads are connected.
pub proof fn law_input_is_passed_on_as_it_is<T: PacketTypes>(
    active: ActiveGamepads,
    packet: InboundPacket<T>,
    slot: Option<ActiveGamepads>,
)
    ensures
        packet matches InboundPacket::MousePosition { x, y, reference_width, reference_height }
            ==> (reaction_to(active, packet, slot) matches Reaction::Send(sent) && sent.len() == 1
            && (sent[0] matches StreamCommand::MousePosition {
            x: to_x,
            y: to_y,
            reference_width: width,
            reference_height: height,
        } && to_x == x && to_y == y && width == reference_width && height == reference_height)),
        packet matches InboundPacket::MouseButton { action, button } ==> (reaction_to(
            active,
            packet,
            slot,
        ) matches Reaction::Send(sent) && sent.len() == 1 && (
        sent[0] matches StreamCommand::MouseButton { action: told, button: told_button } && told
            == action && told_button == button)),
        packet matches InboundPacket::MouseMove { delta_x, delta_y } ==> (reaction_to(
            active,
            packet,
            slot,
        ) matches Reaction::Send(sent) && sent.len() == 1 && (
        sent[0] matches StreamCommand::MouseMove { delta_x: by_x, delta_y: by_y } && by_x == delta_x
            && by_y == delta_y)),
        packet matches InboundPacket::Text { text } ==> (reaction_to(active, packet, slot) matches Reaction::Send(sent)
            && sent.len() == 1 && (sent[0] matches StreamCommand::Text { text: told } && told
            == text)),
        packet matches InboundPacket::Touch { touch } ==> (reaction_to(active, packet, slot) matches Reaction::Send(sent)
            && sent.len() == 1 && (sent[0] matches StreamCommand::Touch { touch: told } && told
            == touch)),
        packet is Other ==> (reaction_to(active, packet, slot) matches Reaction::Send(sent)
            && sent.len() == 0),
        packet is General <==> reaction_to(active, packet, slot) is Stop,
{
}

/// A key is passed on with its sixteen bits as they are, and with all that goes with it.
pub proof fn law_keys_keep_their_bits<T: PacketTypes>(
    active: ActiveGamepads,
    packet: InboundPacket<T>,
    slot: Option<ActiveGamepads>,
)
    ensures
        packet matches InboundPacket::Key { action, modifiers, key, flags } ==> (reaction_to(
            active,
            packet,
            slot,
        ) matches Reaction::Send(sent) && sent.len() == 1 && (
        sent[0] matches StreamCommand::Keyboard {
            key: told,
            action: told_action,
            modifiers: told_modifiers,
            flags: told_flags,
        } && (told + 0x10000) % 0x10000 == key && told_action == action && told_modifiers
            == modifiers && told_flags == flags)),
{
}

/// A scroll is made for each direction in which there is something to scroll, the
/// vertical one first, and for no other.
pub proof fn law_scrolls_are_made_by_direction<T: PacketTypes>(
    active: ActiveGamepads,
    packet: InboundPacket<T>,
    slot: Option<ActiveGamepads>,
)
    ensures
        packet matches InboundPacket::HighResScroll { delta_x, delta_y } ==> (reaction_to(
            active,
            packet,
            slot,
        ) matches Reaction::Send(sent) && sent.len() == (if delta_y != 0 {
            1int
        } else {
            0
        }) + (if delta_x != 0 {
            1int
        } else {
            0
        }) && (delta_y != 0 ==> (sent[0] matches StreamCommand::HighResScroll { delta } && delta
            == delta_y)) && (delta_x != 0 ==> (
        sent.last() matches StreamCommand::HighResHorizontalScroll { delta } && delta
            == delta_x))),
        packet matches InboundPacket::Scroll { delta_x, delta_y } ==> (reaction_to(
            active,
            packet,
            slot,
        ) matches Reaction::Send(sent) && sent.len() == (if delta_y != 0 {
            1int
        } else {
            0
        }) + (if delta_x != 0 {
            1int
        } else {
            0
        }) && (delta_y != 0 ==> (sent[0] matches StreamCommand::Scroll { delta } && delta
            == delta_y)) && (delta_x != 0 ==> (sent.last() matches StreamCommand::HorizontalScroll {
            delta,
        } && delta == delta_x))),
{
}

/// A reaction stands for the calls that it holds.
pub proof fn law_reactions_hold_their_calls<T: PacketTypes>(commands: Vec<StreamCommand<T>>)
    ensures
        PacketReaction::Send(commands)@ == Reaction::Send(commands@),
        PacketReaction::<T>::NoStream@ is NoStream,
        PacketReaction::<T>::Stop@ is Stop,
        PacketReaction::<T>::OutOfRange@ is OutOfRange,
        PacketReaction::<T>::NotRegistered@ is NotRegistered,
{
}

} // verus!
