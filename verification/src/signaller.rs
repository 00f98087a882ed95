//! The signaller's decisions: which messages open and carry the WebRTC
//! negotiation, what each inbound message asks of the WebRTC layer, and where
//! a frame from the data channel goes.

use vstd::prelude::*;
use crate::message::{
    is_plain_message, plain_message, Payload, ProtoControllerAttach, ProtoControllerRumble,
    ProtoIce, ProtoMessage, ProtoSdp, ProtoServerPushStream, RtcIceCandidateInit,
    RtcSessionDescriptionInit,
};
use crate::protocol::{dispatch_for, Dispatch, NestriStreamProtocol};
use crate::text::same_text;

verus! {

/// A custom upstream event for the compositor source. Pointer and wheel
/// values are carried as the integers of the wire message; the compositor
/// takes them as floating-point fields of the same value.
#[derive(Clone, Copy, Debug, PartialEq, Eq, Structural)]
pub enum InputEvent {
    MouseMoveRelative { pointer_x: i32, pointer_y: i32 },
    MouseMoveAbsolute { pointer_x: i32, pointer_y: i32 },
    KeyboardKey { key: u32, pressed: bool },
    MouseAxis { x: i32, y: i32 },
    MouseButton { button: u32, pressed: bool },
}

/// The event that an input payload maps to; payloads that are no input map
/// to none.
pub open spec fn input_event_for(payload: Payload) -> Option<InputEvent> {
    match payload {
        Payload::MouseMove(data) => Some(
            InputEvent::MouseMoveRelative { pointer_x: data.x, pointer_y: data.y },
        ),
        Payload::MouseMoveAbs(data) => Some(
            InputEvent::MouseMoveAbsolute { pointer_x: data.x, pointer_y: data.y },
        ),
        Payload::KeyDown(data) => Some(
            InputEvent::KeyboardKey { key: data.key as u32, pressed: true },
        ),
        Payload::KeyUp(data) => Some(
            InputEvent::KeyboardKey { key: data.key as u32, pressed: false },
        ),
        Payload::MouseWheel(data) => Some(InputEvent::MouseAxis { x: data.x, y: data.y }),
        Payload::MouseKeyDown(data) => Some(
            InputEvent::MouseButton { button: data.key as u32, pressed: true },
        ),
        Payload::MouseKeyUp(data) => Some(
            InputEvent::MouseButton { button: data.key as u32, pressed: false },
        ),
        _ => None,
    }
}

/// Maps an input payload to the compositor event it stands for.
pub fn handle_input_message(payload: &Payload) -> (event: Option<InputEvent>)
    ensures
        event == input_event_for(*payload),
{
    match payload {
        Payload::MouseMove(data) => Some(
            InputEvent::MouseMoveRelative { pointer_x: data.x, pointer_y: data.y },
        ),
        Payload::MouseMoveAbs(data) => Some(
            InputEvent::MouseMoveAbsolute { pointer_x: data.x, pointer_y: data.y },
        ),
        Payload::KeyDown(data) => {
            let key: u32 = #[verifier::truncate]
            (data.key as u32);
            Some(InputEvent::KeyboardKey { key, pressed: true })
        },
        Payload::KeyUp(data) => {
            let key: u32 = #[verifier::truncate]
            (data.key as u32);
            Some(InputEvent::KeyboardKey { key, pressed: false })
        },
        Payload::MouseWheel(data) => Some(InputEvent::MouseAxis { x: data.x, y: data.y }),
        Payload::MouseKeyDown(data) => {
            let button: u32 = #[verifier::truncate]
            (data.key as u32);
            Some(InputEvent::MouseButton { button, pressed: true })
        },
        Payload::MouseKeyUp(data) => {
            let button: u32 = #[verifier::truncate]
            (data.key as u32);
            Some(InputEvent::MouseButton { button, pressed: false })
        },
        _ => None,
    }
}

/// The name of the structure that carries the event to the compositor.
pub fn event_name(event: &InputEvent) -> (name: &'static str)
    ensures
        name@ == match *event {
            InputEvent::MouseMoveRelative { .. } => "MouseMoveRelative"@,
            InputEvent::MouseMoveAbsolute { .. } => "MouseMoveAbsolute"@,
            InputEvent::KeyboardKey { .. } => "KeyboardKey"@,
            InputEvent::MouseAxis { .. } => "MouseAxis"@,
            InputEvent::MouseButton { .. } => "MouseButton"@,
        },
{
    match event {
        InputEvent::MouseMoveRelative { .. } => "MouseMoveRelative",
        InputEvent::MouseMoveAbsolute { .. } => "MouseMoveAbsolute",
        InputEvent::KeyboardKey { .. } => "KeyboardKey",
        InputEvent::MouseAxis { .. } => "MouseAxis",
        InputEvent::MouseButton { .. } => "MouseButton",
    }
}

/// Where a frame from the data channel goes.
#[derive(Clone, Debug, PartialEq, Eq)]
pub enum DataChannelRoute {
    /// To the compositor source, as this event.
    Input(InputEvent),
    /// To the controller manager, as this command.
    Controller(Payload),
    /// Nowhere.
    Dropped,
}

/// The route of a decoded frame. Frames of type `input` go to the
/// compositor where their payload is an input event; frames of type
/// `controllerInput` go to the controller manager where there is one;
/// everything else is dropped.
pub open spec fn route_for(msg: ProtoMessage, has_controller_manager: bool) -> DataChannelRoute {
    match msg.message_base {
        None => DataChannelRoute::Dropped,
        Some(base) => if base.payload_type@ == "input"@ {
            match msg.payload {
                Some(payload) => match input_event_for(payload) {
                    Some(event) => DataChannelRoute::Input(event),
                    None => DataChannelRoute::Dropped,
                },
                None => DataChannelRoute::Dropped,
            }
        } else if base.payload_type@ == "controllerInput"@ {
            match msg.payload {
                Some(payload) => if has_controller_manager {
                    DataChannelRoute::Controller(payload)
                } else {
                    DataChannelRoute::Dropped
                },
                None => DataChannelRoute::Dropped,
            }
        } else {
            DataChannelRoute::Dropped
        },
    }
}

/// Routes a decoded frame from the data channel.
pub fn route_data_channel_message(msg: ProtoMessage, has_controller_manager: bool) -> (route:
    DataChannelRoute)
    ensures
        route == route_for(msg, has_controller_manager),
{
    match msg.message_base {
        None => DataChannelRoute::Dropped,
        Some(base) => {
            if same_text(base.payload_type.as_str(), "input") {
                match msg.payload {
                    Some(payload) => match handle_input_message(&payload) {
                        Some(event) => DataChannelRoute::Input(event),
                        None => DataChannelRoute::Dropped,
                    },
                    None => DataChannelRoute::Dropped,
                }
            } else if same_text(base.payload_type.as_str(), "controllerInput") {
                match msg.payload {
                    Some(payload) => if has_controller_manager {
                        DataChannelRoute::Controller(payload)
                    } else {
                        DataChannelRoute::Dropped
                    },
                    None => DataChannelRoute::Dropped,
                }
            } else {
                DataChannelRoute::Dropped
            }
        },
    }
}

/// The three message types that the signaller listens for.
#[derive(Clone, Copy, Debug, PartialEq, Eq, Structural)]
pub enum SignalHandler {
    Answer,
    IceCandidate,
    PushStreamOk,
}

/// The key under which a handler is registered.
pub fn handler_key(handler: SignalHandler) -> (key: &'static str)
    ensures
        key@ == match handler {
            SignalHandler::Answer => "answer"@,
            SignalHandler::IceCandidate => "ice-candidate"@,
            SignalHandler::PushStreamOk => "push-stream-ok"@,
        },
{
    match handler {
        SignalHandler::Answer => "answer",
        SignalHandler::IceCandidate => "ice-candidate",
        SignalHandler::PushStreamOk => "push-stream-ok",
    }
}

/// What an inbound message asks of the WebRTC layer.
#[derive(Clone, Debug, PartialEq, Eq)]
pub enum SignalAction {
    /// Hand the remote answer, this SDP text, to the WebRTC layer.
    SessionDescription { sdp: String },
    /// Hand a remote ICE candidate to the WebRTC layer.
    HandleIce { sdp_m_line_index: u32, sdp_mid: Option<String>, candidate: String },
    /// Ask the WebRTC layer for an offer.
    SessionRequested,
    /// The payload is of the expected kind but carries nothing to act on.
    Nothing,
    /// The payload is of another kind than the handler expects: warn and go
    /// on.
    Unexpected,
}

/// The message has no payload at all.
#[derive(Clone, Copy, Debug, PartialEq, Eq, Structural)]
pub struct MissingPayload;

/// What the handler for `answer` makes of a message.
pub open spec fn answer_action(msg: ProtoMessage) -> Result<SignalAction, MissingPayload> {
    match msg.payload {
        None => Err(MissingPayload),
        Some(Payload::Sdp(sdp)) => match sdp.sdp {
            Some(init) => Ok(SignalAction::SessionDescription { sdp: init.sdp }),
            None => Ok(SignalAction::Nothing),
        },
        Some(_) => Ok(SignalAction::Unexpected),
    }
}

/// What the handler for `ice-candidate` makes of a message. A candidate
/// without an m-line index is taken for line 0.
pub open spec fn ice_action(msg: ProtoMessage) -> Result<SignalAction, MissingPayload> {
    match msg.payload {
        None => Err(MissingPayload),
        Some(Payload::Ice(ice)) => match ice.candidate {
            Some(init) => Ok(
                SignalAction::HandleIce {
                    sdp_m_line_index: match init.sdp_m_line_index {
                        Some(index) => index,
                        None => 0,
                    },
                    sdp_mid: init.sdp_mid,
                    candidate: init.candidate,
                },
            ),
            None => Ok(SignalAction::Nothing),
        },
        Some(_) => Ok(SignalAction::Unexpected),
    }
}

/// What the handler for `push-stream-ok` makes of a message.
pub open spec fn push_stream_ok_action(msg: ProtoMessage) -> Result<SignalAction, MissingPayload> {
    match msg.payload {
        None => Err(MissingPayload),
        Some(Payload::ServerPushStream(_)) => Ok(SignalAction::SessionRequested),
        Some(_) => Ok(SignalAction::Unexpected),
    }
}

/// What a handler makes of a message.
pub open spec fn signal_action(handler: SignalHandler, msg: ProtoMessage) -> Result<
    SignalAction,
    MissingPayload,
> {
    match handler {
        SignalHandler::Answer => answer_action(msg),
        SignalHandler::IceCandidate => ice_action(msg),
        SignalHandler::PushStreamOk => push_stream_ok_action(msg),
    }
}

/// Handles a remote answer.
pub fn handle_answer(msg: ProtoMessage) -> (res: Result<SignalAction, MissingPayload>)
    ensures
        res == answer_action(msg),
{
    match msg.payload {
        None => Err(MissingPayload),
        Some(Payload::Sdp(sdp)) => match sdp.sdp {
            Some(init) => Ok(SignalAction::SessionDescription { sdp: init.sdp }),
            None => Ok(SignalAction::Nothing),
        },
        Some(_) => Ok(SignalAction::Unexpected),
    }
}

/// Handles a remote ICE candidate.
pub fn handle_ice_candidate(msg: ProtoMessage) -> (res: Result<SignalAction, MissingPayload>)
    ensures
        res == ice_action(msg),
{
    match msg.payload {
        None => Err(MissingPayload),
        Some(Payload::Ice(ice)) => match ice.candidate {
            Some(init) => {
                let sdp_m_line_index: u32 = match init.sdp_m_line_index {
                    Some(index) => index,
                    None => 0,
                };
                Ok(
                    SignalAction::HandleIce {
                        sdp_m_line_index,
                        sdp_mid: init.sdp_mid,
                        candidate: init.candidate,
                    },
                )
            },
            None => Ok(SignalAction::Nothing),
        },
        Some(_) => Ok(SignalAction::Unexpected),
    }
}

/// Handles the relay's go-ahead for pushing a stream.
pub fn handle_push_stream_ok(msg: ProtoMessage) -> (res: Result<SignalAction, MissingPayload>)
    ensures
        res == push_stream_ok_action(msg),
{
    match msg.payload {
        None => Err(MissingPayload),
        Some(Payload::ServerPushStream(_)) => Ok(SignalAction::SessionRequested),
        Some(_) => Ok(SignalAction::Unexpected),
    }
}

/// Runs the handler of the given kind on a message.
pub fn handle_signal(handler: SignalHandler, msg: ProtoMessage) -> (res: Result<
    SignalAction,
    MissingPayload,
>)
    ensures
        res == signal_action(handler, msg),
{
    match handler {
        SignalHandler::Answer => handle_answer(msg),
        SignalHandler::IceCandidate => handle_ice_candidate(msg),
        SignalHandler::PushStreamOk => handle_push_stream_ok(msg),
    }
}

/// What starting the signaller comes to.
#[derive(Clone, Debug, PartialEq, Eq)]
pub enum StartOutcome {
    /// Send this message to announce the room.
    Announce(ProtoMessage),
    /// No room was set: nothing is sent.
    RoomNotSet,
    /// No protocol stream was set: nothing can be sent.
    ProtocolNotSet,
}

/// The plan for starting the signaller.
#[derive(Clone, Debug, PartialEq, Eq)]
pub struct StartPlan {
    /// Whether the three handlers are registered. They are whenever there is
    /// a protocol stream to register them on.
    pub register_handlers: bool,
    pub outcome: StartOutcome,
}

/// Plans the start: the handlers are registered on the protocol stream, and
/// the room is announced with a `push-stream-room` message.
pub fn start(stream_room: Option<String>, has_stream_protocol: bool) -> (plan: StartPlan)
    ensures
        plan.register_handlers == has_stream_protocol,
        match stream_room {
            None => plan.outcome == StartOutcome::RoomNotSet,
            Some(room) => if has_stream_protocol {
                match plan.outcome {
                    StartOutcome::Announce(msg) => is_plain_message(
                        msg,
                        Payload::ServerPushStream(ProtoServerPushStream { room_name: room }),
                        "push-stream-room"@,
                    ),
                    _ => false,
                }
            } else {
                plan.outcome == StartOutcome::ProtocolNotSet
            },
        },
{
    let outcome = match stream_room {
        None => StartOutcome::RoomNotSet,
        Some(room) => if has_stream_protocol {
            StartOutcome::Announce(push_stream_message(room))
        } else {
            StartOutcome::ProtocolNotSet
        },
    };
    StartPlan { register_handlers: has_stream_protocol, outcome }
}

/// The message that announces the room to the relay.
pub fn push_stream_message(room: String) -> (msg: ProtoMessage)
    ensures
        is_plain_message(
            msg,
            Payload::ServerPushStream(ProtoServerPushStream { room_name: room }),
            "push-stream-room"@,
        ),
{
    plain_message(
        Payload::ServerPushStream(ProtoServerPushStream { room_name: room }),
        "push-stream-room",
    )
}

/// `msg` is an offer that carries the SDP text `sdp`.
pub open spec fn is_offer(msg: ProtoMessage, sdp: Seq<char>) -> bool {
    &&& match msg.message_base {
        Some(base) => base.payload_type@ == "offer"@ && base.latency is None,
        None => false,
    }
    &&& match msg.payload {
        Some(Payload::Sdp(ProtoSdp { sdp: Some(init) })) => init.sdp@ == sdp && init.kind@
            == "offer"@,
        _ => false,
    }
}

/// The message that carries a local offer to the peer.
pub fn send_sdp(sdp: String) -> (msg: ProtoMessage)
    ensures
        is_offer(msg, sdp@),
{
    let init = RtcSessionDescriptionInit { sdp, kind: "offer".to_owned() };
    plain_message(Payload::Sdp(ProtoSdp { sdp: Some(init) }), "offer")
}

/// `msg` is an `ice-candidate` message for the given candidate.
pub open spec fn is_ice_message(
    msg: ProtoMessage,
    candidate: Seq<char>,
    sdp_m_line_index: u32,
    sdp_mid: Option<String>,
) -> bool {
    &&& match msg.message_base {
        Some(base) => base.payload_type@ == "ice-candidate"@ && base.latency is None,
        None => false,
    }
    &&& match msg.payload {
        Some(Payload::Ice(ProtoIce { candidate: Some(init) })) => {
            &&& init.candidate@ == candidate
            &&& init.sdp_mid == sdp_mid
            &&& init.sdp_m_line_index == Some(sdp_m_line_index)
            &&& init.username_fragment is None
        },
        _ => false,
    }
}

/// The message that carries a local ICE candidate to the peer.
pub fn add_ice(candidate: &str, sdp_m_line_index: u32, sdp_mid: Option<String>) -> (msg:
    ProtoMessage)
    ensures
        is_ice_message(msg, candidate@, sdp_m_line_index, sdp_mid),
{
    let init = RtcIceCandidateInit {
        candidate: candidate.to_owned(),
        sdp_mid,
        sdp_m_line_index: Some(sdp_m_line_index),
        username_fragment: None,
    };
    plain_message(Payload::Ice(ProtoIce { candidate: Some(init) }), "ice-candidate")
}

/// `msg` is the `controllerInput` message for a rumble event. The strong
/// motor goes out as the high frequency and the weak one as the low
/// frequency; the duration stays in milliseconds.
pub open spec fn is_rumble_message(
    msg: ProtoMessage,
    slot: u32,
    strong: u16,
    weak: u16,
    duration_ms: u16,
    session_id: String,
) -> bool {
    is_plain_message(
        msg,
        Payload::ControllerRumble(
            ProtoControllerRumble {
                session_slot: slot as i32,
                session_id,
                low_frequency: weak as i32,
                high_frequency: strong as i32,
                duration: duration_ms as i32,
            },
        ),
        "controllerInput"@,
    )
}

/// The outbound message for a rumble event of the daemon.
pub fn rumble_message(slot: u32, strong: u16, weak: u16, duration_ms: u16, session_id: String) -> (msg:
    ProtoMessage)
    ensures
        is_rumble_message(msg, slot, strong, weak, duration_ms, session_id),
{
    let session_slot: i32 = #[verifier::truncate]
    (slot as i32);
    plain_message(
        Payload::ControllerRumble(
            ProtoControllerRumble {
                session_slot,
                session_id,
                low_frequency: weak as i32,
                high_frequency: strong as i32,
                duration: duration_ms as i32,
            },
        ),
        "controllerInput",
    )
}

/// The outbound message for an attach acknowledgement.
pub fn attach_message(attach: ProtoControllerAttach) -> (msg: ProtoMessage)
    ensures
        is_plain_message(msg, Payload::ControllerAttach(attach), "controllerInput"@),
{
    plain_message(Payload::ControllerAttach(attach), "controllerInput")
}

/// How the data channel is opened.
#[derive(Clone, Debug, PartialEq, Eq)]
pub struct DataChannelConfig {
    pub name: String,
    pub ordered: bool,
    pub max_retransmits: u32,
    pub priority: String,
    pub protocol: String,
}

/// The data channel of a session: ordered, two retransmits at most, high
/// priority, raw protocol.
pub fn data_channel_config() -> (config: DataChannelConfig)
    ensures
        config.name@ == "nestri-data-channel"@,
        config.ordered,
        config.max_retransmits == 2,
        config.priority@ == "high"@,
        config.protocol@ == "raw"@,
{
    DataChannelConfig {
        name: "nestri-data-channel".to_owned(),
        ordered: true,
        max_retransmits: 2,
        priority: "high".to_owned(),
        protocol: "raw".to_owned(),
    }
}

/// The number under which a handler is registered on the protocol stream.
pub open spec fn handler_number(handler: SignalHandler) -> u64 {
    match handler {
        SignalHandler::Answer => 0,
        SignalHandler::IceCandidate => 1,
        SignalHandler::PushStreamOk => 2,
    }
}

/// The handler that a number stands for.
pub open spec fn handler_numbered(number: u64) -> Option<SignalHandler> {
    if number == 0 {
        Some(SignalHandler::Answer)
    } else if number == 1 {
        Some(SignalHandler::IceCandidate)
    } else if number == 2 {
        Some(SignalHandler::PushStreamOk)
    } else {
        None
    }
}

/// The handlers of a stream once the signaller's three are registered on
/// top of `before`.
pub open spec fn with_signal_handlers(before: Map<Seq<char>, u64>) -> Map<Seq<char>, u64> {
    before.insert("answer"@, 0).insert("ice-candidate"@, 1).insert("push-stream-ok"@, 2)
}

/// Registers the signaller's three handlers on the protocol stream, in
/// place of whatever was registered for their types.
pub fn register_callbacks(stream: &mut NestriStreamProtocol)
    ensures
        final(stream).handlers() == with_signal_handlers(old(stream).handlers()),
        final(stream).is_open() == old(stream).is_open(),
        final(stream).reader_alive() == old(stream).reader_alive(),
        final(stream).writer_alive() == old(stream).writer_alive(),
{
    stream.register_callback(handler_key(SignalHandler::Answer), 0);
    stream.register_callback(handler_key(SignalHandler::IceCandidate), 1);
    stream.register_callback(handler_key(SignalHandler::PushStreamOk), 2);
}

/// What became of an inbound message.
#[derive(Debug, PartialEq, Eq)]
pub enum Inbound {
    /// It has no base: dropped.
    MissingBase,
    /// No handler is registered for its type: dropped.
    NoHandler,
    /// The handler registered for its type is none of the signaller's; it
    /// is handed back with the handler's number.
    Foreign(u64, ProtoMessage),
    /// One of the signaller's handlers took it, with this result.
    Handled(Result<SignalAction, MissingPayload>),
}

/// What becomes of `msg` on a stream with the given handlers.
pub open spec fn inbound_for(entries: Map<Seq<char>, u64>, msg: ProtoMessage) -> Inbound {
    match dispatch_for(entries, msg) {
        Dispatch::MissingBase => Inbound::MissingBase,
        Dispatch::NoHandler => Inbound::NoHandler,
        Dispatch::Handler(number) => match handler_numbered(number) {
            Some(handler) => Inbound::Handled(signal_action(handler, msg)),
            None => Inbound::Foreign(number, msg),
        },
    }
}

/// Takes a decoded message from the protocol stream through dispatch and,
/// where one of the signaller's handlers is registered for it, through that
/// handler.
pub fn on_message(stream: &NestriStreamProtocol, msg: ProtoMessage) -> (res: Inbound)
    ensures
        res == inbound_for(stream.handlers(), msg),
{
    match stream.dispatch(&msg) {
        Dispatch::MissingBase => Inbound::MissingBase,
        Dispatch::NoHandler => Inbound::NoHandler,
        Dispatch::Handler(number) => {
            if number == 0 {
                Inbound::Handled(handle_answer(msg))
            } else if number == 1 {
                Inbound::Handled(handle_ice_candidate(msg))
            } else if number == 2 {
                Inbound::Handled(handle_push_stream_ok(msg))
            } else {
                Inbound::Foreign(number, msg)
            }
        },
    }
}

/// Once the signaller's handlers are registered, whatever was registered
/// before, every message of one of their three types reaches its handler.
pub proof fn lemma_registered_signals_are_handled(
    before: Map<Seq<char>, u64>,
    handler: SignalHandler,
    msg: ProtoMessage,
)
    requires
        match msg.message_base {
            Some(base) => base.payload_type@ == match handler {
                SignalHandler::Answer => "answer"@,
                SignalHandler::IceCandidate => "ice-candidate"@,
                SignalHandler::PushStreamOk => "push-stream-ok"@,
            },
            None => false,
        },
    ensures
        inbound_for(with_signal_handlers(before), msg) == Inbound::Handled(
            signal_action(handler, msg),
        ),
{
    reveal_strlit("answer");
    reveal_strlit("ice-candidate");
    reveal_strlit("push-stream-ok");
    assert("answer"@.len() == 6);
    assert("ice-candidate"@.len() == 13);
    assert("push-stream-ok"@.len() == 14);
}

/// The go-ahead of the relay, once the handlers are registered, asks for
/// exactly one session.
pub proof fn lemma_push_stream_ok_requests_session(before: Map<Seq<char>, u64>, msg: ProtoMessage)
    requires
        match msg.message_base {
            Some(base) => base.payload_type@ == "push-stream-ok"@,
            None => false,
        },
        msg.payload is Some,
        msg.payload->0 is ServerPushStream,
    ensures
        inbound_for(with_signal_handlers(before), msg) == Inbound::Handled(
            Ok(SignalAction::SessionRequested),
        ),
{
    lemma_registered_signals_are_handled(before, SignalHandler::PushStreamOk, msg);
}

} // verus!
