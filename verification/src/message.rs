//! The message envelope that travels on the signalling stream and on the data
//! channel: a base with the dispatch key and an optional latency trace, and
//! one payload out of a closed set.

use vstd::prelude::*;

verus! {

/// A point in time: seconds and nanoseconds since the Unix epoch.
#[derive(Clone, Copy, Debug, PartialEq, Eq, Structural)]
pub struct Timestamp {
    pub seconds: i64,
    pub nanos: i32,
}

/// One entry of a latency trace.
#[derive(Clone, Debug, PartialEq, Eq)]
pub struct ProtoTimestampEntry {
    pub stage: String,
    pub time: Option<Timestamp>,
}

/// The latency trace of a message.
#[derive(Clone, Debug, PartialEq, Eq)]
pub struct ProtoLatencyTracker {
    pub sequence_id: String,
    pub timestamps: Vec<ProtoTimestampEntry>,
}

/// The base of every envelope. `payload_type` is the key that handlers are
/// looked up by; it need not be the payload's variant name.
#[derive(Clone, Debug, PartialEq, Eq)]
pub struct ProtoMessageBase {
    pub payload_type: String,
    pub latency: Option<ProtoLatencyTracker>,
}

/// A session description: the SDP text and its kind, `offer` or `answer`.
#[derive(Clone, Debug, PartialEq, Eq)]
pub struct RtcSessionDescriptionInit {
    pub sdp: String,
    pub kind: String,
}

/// Carries a session description.
#[derive(Clone, Debug, PartialEq, Eq)]
pub struct ProtoSdp {
    pub sdp: Option<RtcSessionDescriptionInit>,
}

/// An ICE candidate with the media line it belongs to.
#[derive(Clone, Debug, PartialEq, Eq)]
pub struct RtcIceCandidateInit {
    pub candidate: String,
    pub sdp_mid: Option<String>,
    pub sdp_m_line_index: Option<u32>,
    pub username_fragment: Option<String>,
}

/// Carries an ICE candidate.
#[derive(Clone, Debug, PartialEq, Eq)]
pub struct ProtoIce {
    pub candidate: Option<RtcIceCandidateInit>,
}

/// Announces, or confirms, the room that a stream is pushed to.
#[derive(Clone, Debug, PartialEq, Eq)]
pub struct ProtoServerPushStream {
    pub room_name: String,
}

/// Asks for a controller of the model `id`, or acknowledges one with the
/// slot it lives in.
#[derive(Clone, Debug, PartialEq, Eq)]
pub struct ProtoControllerAttach {
    pub id: String,
    pub session_slot: i32,
    pub session_id: String,
}

/// Asks for a controller to be removed.
#[derive(Clone, Debug, PartialEq, Eq)]
pub struct ProtoControllerDetach {
    pub session_slot: i32,
    pub session_id: String,
}

/// A rumble event for a controller of a peer.
#[derive(Clone, Debug, PartialEq, Eq)]
pub struct ProtoControllerRumble {
    pub session_slot: i32,
    pub session_id: String,
    pub low_frequency: i32,
    pub high_frequency: i32,
    pub duration: i32,
}

/// A batch of controller input. `update_type` 0 is a full state; any other
/// value is a delta, gated field by field by `changed_fields`.
#[derive(Clone, Debug, PartialEq, Eq)]
pub struct ProtoControllerStateBatch {
    pub session_slot: i32,
    pub session_id: String,
    pub update_type: i32,
    pub button_changed_mask: Vec<(i32, bool)>,
    pub left_stick_x: Option<i32>,
    pub left_stick_y: Option<i32>,
    pub right_stick_x: Option<i32>,
    pub right_stick_y: Option<i32>,
    pub left_trigger: Option<i32>,
    pub right_trigger: Option<i32>,
    pub dpad_x: Option<i32>,
    pub dpad_y: Option<i32>,
    pub changed_fields: Option<u32>,
}

/// Tells that a client is gone, with the slots its controllers lived in.
#[derive(Clone, Debug, PartialEq, Eq)]
pub struct ProtoClientDisconnected {
    pub session_id: String,
    pub controller_slots: Vec<i32>,
}

/// A relative pointer move.
#[derive(Clone, Copy, Debug, PartialEq, Eq, Structural)]
pub struct ProtoMouseMove {
    pub x: i32,
    pub y: i32,
}

/// An absolute pointer move.
#[derive(Clone, Copy, Debug, PartialEq, Eq, Structural)]
pub struct ProtoMouseMoveAbs {
    pub x: i32,
    pub y: i32,
}

/// A wheel move.
#[derive(Clone, Copy, Debug, PartialEq, Eq, Structural)]
pub struct ProtoMouseWheel {
    pub x: i32,
    pub y: i32,
}

/// A key press.
#[derive(Clone, Copy, Debug, PartialEq, Eq, Structural)]
pub struct ProtoKeyDown {
    pub key: i32,
}

/// A key release.
#[derive(Clone, Copy, Debug, PartialEq, Eq, Structural)]
pub struct ProtoKeyUp {
    pub key: i32,
}

/// A mouse button press.
#[derive(Clone, Copy, Debug, PartialEq, Eq, Structural)]
pub struct ProtoMouseKeyDown {
    pub key: i32,
}

/// A mouse button release.
#[derive(Clone, Copy, Debug, PartialEq, Eq, Structural)]
pub struct ProtoMouseKeyUp {
    pub key: i32,
}

/// The closed set of payloads.
#[derive(Clone, Debug, PartialEq, Eq)]
pub enum Payload {
    Sdp(ProtoSdp),
    Ice(ProtoIce),
    ServerPushStream(ProtoServerPushStream),
    ControllerAttach(ProtoControllerAttach),
    ControllerDetach(ProtoControllerDetach),
    ControllerRumble(ProtoControllerRumble),
    ControllerStateBatch(ProtoControllerStateBatch),
    ClientDisconnected(ProtoClientDisconnected),
    MouseMove(ProtoMouseMove),
    MouseMoveAbs(ProtoMouseMoveAbs),
    KeyDown(ProtoKeyDown),
    KeyUp(ProtoKeyUp),
    MouseWheel(ProtoMouseWheel),
    MouseKeyDown(ProtoMouseKeyDown),
    MouseKeyUp(ProtoMouseKeyUp),
}

/// The envelope.
#[derive(Clone, Debug, PartialEq, Eq)]
pub struct ProtoMessage {
    pub message_base: Option<ProtoMessageBase>,
    pub payload: Option<Payload>,
}

/// What a new message may carry besides its payload. A given `latency` wins
/// over `sequence_id`; a `sequence_id` alone starts a new trace.
#[derive(Clone, Debug, PartialEq, Eq)]
pub struct CreateMessageOptions {
    pub sequence_id: Option<String>,
    pub latency: Option<ProtoLatencyTracker>,
}

/// `latency` is a fresh trace for `sequence_id`: one entry, stage `created`,
/// taken at `now`.
pub open spec fn is_fresh_trace(
    latency: ProtoLatencyTracker,
    sequence_id: String,
    now: Timestamp,
) -> bool {
    &&& latency.sequence_id == sequence_id
    &&& latency.timestamps@.len() == 1
    &&& latency.timestamps@[0].stage@ == "created"@
    &&& latency.timestamps@[0].time == Some(now)
}

/// `latency` is the trace that a message made with `options` at `now`
/// carries.
pub open spec fn is_trace_for(
    latency: Option<ProtoLatencyTracker>,
    options: Option<CreateMessageOptions>,
    now: Timestamp,
) -> bool {
    match options {
        None => latency is None,
        Some(opts) => match opts.latency {
            Some(given) => latency == Some(given),
            None => match opts.sequence_id {
                Some(seq) => match latency {
                    Some(l) => is_fresh_trace(l, seq, now),
                    None => false,
                },
                None => latency is None,
            },
        },
    }
}

/// `msg` is the envelope of `payload` under the key `payload_type`, with the
/// trace that `options` ask for.
pub open spec fn is_message(
    msg: ProtoMessage,
    payload: Payload,
    payload_type: Seq<char>,
    options: Option<CreateMessageOptions>,
    now: Timestamp,
) -> bool {
    &&& msg.payload == Some(payload)
    &&& match msg.message_base {
        Some(base) => base.payload_type@ == payload_type && is_trace_for(
            base.latency,
            options,
            now,
        ),
        None => false,
    }
}

/// `msg` is the envelope of `payload` under the key `payload_type`, without a
/// latency trace.
pub open spec fn is_plain_message(msg: ProtoMessage, payload: Payload, payload_type: Seq<char>) -> bool {
    &&& msg.payload == Some(payload)
    &&& match msg.message_base {
        Some(base) => base.payload_type@ == payload_type && base.latency is None,
        None => false,
    }
}

/// The system clock through `std::time::SystemTime::now`, turned into
/// seconds and nanoseconds by `prost_types::Timestamp::from`. Nothing is
/// claimed of the value: it differs from call to call.
#[verifier::external_body]
fn current_timestamp() -> (now: Timestamp) {
    let t = prost_types::Timestamp::from(std::time::SystemTime::now());
    Timestamp { seconds: t.seconds, nanos: t.nanos }
}

/// Wraps `payload` in an envelope, with `now` as the time of creation where
/// a trace is started.
pub fn create_message_at(
    payload: Payload,
    payload_type: &str,
    options: Option<CreateMessageOptions>,
    now: Timestamp,
) -> (msg: ProtoMessage)
    ensures
        is_message(msg, payload, payload_type@, options, now),
{
    let latency = match options {
        None => None,
        Some(opts) => match opts.latency {
            Some(given) => Some(given),
            None => match opts.sequence_id {
                Some(seq) => {
                    let mut timestamps: Vec<ProtoTimestampEntry> = Vec::new();
                    timestamps.push(
                        ProtoTimestampEntry { stage: "created".to_owned(), time: Some(now) },
                    );
                    Some(ProtoLatencyTracker { sequence_id: seq, timestamps })
                },
                None => None,
            },
        },
    };
    ProtoMessage {
        message_base: Some(ProtoMessageBase { payload_type: payload_type.to_owned(), latency }),
        payload: Some(payload),
    }
}

/// Whether making a message with `options` starts a new trace, and so reads
/// the clock.
pub open spec fn starts_trace(options: Option<CreateMessageOptions>) -> bool {
    match options {
        Some(opts) => opts.latency is None && opts.sequence_id is Some,
        None => false,
    }
}

/// Wraps `payload` in an envelope. Where the options start a new trace, its
/// one entry carries the time of the call; everything else of the message is
/// fixed by the arguments.
pub fn create_message(
    payload: Payload,
    payload_type: &str,
    options: Option<CreateMessageOptions>,
) -> (msg: ProtoMessage)
    ensures
        exists|now: Timestamp| is_message(msg, payload, payload_type@, options, now),
        !starts_trace(options) ==> forall|now: Timestamp|
            is_message(msg, payload, payload_type@, options, now),
{
    let reads_clock = match &options {
        Some(opts) => opts.latency.is_none() && opts.sequence_id.is_some(),
        None => false,
    };
    let now = if reads_clock {
        current_timestamp()
    } else {
        Timestamp { seconds: 0, nanos: 0 }
    };
    let msg = create_message_at(payload, payload_type, options, now);
    assert(is_message(msg, payload, payload_type@, options, now));
    msg
}

/// Wraps `payload` in an envelope without a latency trace.
pub fn plain_message(payload: Payload, payload_type: &str) -> (msg: ProtoMessage)
    ensures
        is_plain_message(msg, payload, payload_type@),
{
    create_message(payload, payload_type, None)
}

} // verus!
