use nestri_server::message::{
    create_message, create_message_at, CreateMessageOptions, Payload, ProtoControllerAttach,
    ProtoControllerDetach, ProtoControllerRumble, ProtoIce, ProtoKeyDown, ProtoKeyUp,
    ProtoLatencyTracker, ProtoMessage, ProtoMessageBase, ProtoMouseKeyDown, ProtoMouseKeyUp,
    ProtoMouseMove, ProtoMouseMoveAbs, ProtoMouseWheel, ProtoSdp, ProtoServerPushStream,
    ProtoTimestampEntry, RtcIceCandidateInit, RtcSessionDescriptionInit, Timestamp,
};
use nestri_server::protocol::NestriStreamProtocol;
use nestri_server::signaller::{
    on_message, register_callbacks, Inbound,
    add_ice, attach_message, data_channel_config, event_name, handle_answer,
    handle_ice_candidate, handle_input_message, handle_push_stream_ok, handle_signal,
    handler_key, push_stream_message, route_data_channel_message, rumble_message, send_sdp,
    start, DataChannelRoute, InputEvent, MissingPayload, SignalAction, SignalHandler,
    StartOutcome,
};

fn envelope(payload_type: &str, payload: Option<Payload>) -> ProtoMessage {
    ProtoMessage {
        message_base: Some(ProtoMessageBase { payload_type: payload_type.to_string(), latency: None }),
        payload,
    }
}

#[test]
fn signaling_handshake() {
    let plan = start(Some("abc".to_string()), true);
    assert!(plan.register_handlers);
    let expected = envelope(
        "push-stream-room",
        Some(Payload::ServerPushStream(ProtoServerPushStream { room_name: "abc".to_string() })),
    );
    assert_eq!(plan.outcome, StartOutcome::Announce(expected));

    let ok = envelope(
        "push-stream-ok",
        Some(Payload::ServerPushStream(ProtoServerPushStream { room_name: "abc".to_string() })),
    );
    assert_eq!(handle_signal(SignalHandler::PushStreamOk, ok), Ok(SignalAction::SessionRequested));
}

#[test]
fn start_without_room_or_protocol() {
    let plan = start(None, true);
    assert!(plan.register_handlers);
    assert_eq!(plan.outcome, StartOutcome::RoomNotSet);
    let plan = start(Some("abc".to_string()), false);
    assert!(!plan.register_handlers);
    assert_eq!(plan.outcome, StartOutcome::ProtocolNotSet);
    let plan = start(None, false);
    assert_eq!(plan.outcome, StartOutcome::RoomNotSet);
}

#[test]
fn handler_keys() {
    assert_eq!(handler_key(SignalHandler::Answer), "answer");
    assert_eq!(handler_key(SignalHandler::IceCandidate), "ice-candidate");
    assert_eq!(handler_key(SignalHandler::PushStreamOk), "push-stream-ok");
}

#[test]
fn answer_is_handed_on() {
    let msg = envelope(
        "answer",
        Some(Payload::Sdp(ProtoSdp {
            sdp: Some(RtcSessionDescriptionInit { sdp: "v=0".to_string(), kind: "answer".to_string() }),
        })),
    );
    assert_eq!(handle_answer(msg), Ok(SignalAction::SessionDescription { sdp: "v=0".to_string() }));
    let empty = envelope("answer", Some(Payload::Sdp(ProtoSdp { sdp: None })));
    assert_eq!(handle_answer(empty), Ok(SignalAction::Nothing));
    let other = envelope("answer", Some(Payload::KeyDown(ProtoKeyDown { key: 1 })));
    assert_eq!(handle_answer(other), Ok(SignalAction::Unexpected));
    assert_eq!(handle_answer(envelope("answer", None)), Err(MissingPayload));
}

#[test]
fn ice_candidate_is_handed_on() {
    let init = RtcIceCandidateInit {
        candidate: "candidate:1".to_string(),
        sdp_mid: Some("0".to_string()),
        sdp_m_line_index: Some(3),
        username_fragment: None,
    };
    let msg = envelope("ice-candidate", Some(Payload::Ice(ProtoIce { candidate: Some(init.clone()) })));
    assert_eq!(
        handle_ice_candidate(msg),
        Ok(SignalAction::HandleIce {
            sdp_m_line_index: 3,
            sdp_mid: Some("0".to_string()),
            candidate: "candidate:1".to_string(),
        })
    );
    let mut no_index = init;
    no_index.sdp_m_line_index = None;
    no_index.sdp_mid = None;
    let msg = envelope("ice-candidate", Some(Payload::Ice(ProtoIce { candidate: Some(no_index) })));
    assert_eq!(
        handle_ice_candidate(msg),
        Ok(SignalAction::HandleIce {
            sdp_m_line_index: 0,
            sdp_mid: None,
            candidate: "candidate:1".to_string(),
        })
    );
    let none = envelope("ice-candidate", Some(Payload::Ice(ProtoIce { candidate: None })));
    assert_eq!(handle_ice_candidate(none), Ok(SignalAction::Nothing));
    let other = envelope("ice-candidate", Some(Payload::Sdp(ProtoSdp { sdp: None })));
    assert_eq!(handle_ice_candidate(other), Ok(SignalAction::Unexpected));
    assert_eq!(handle_ice_candidate(envelope("ice-candidate", None)), Err(MissingPayload));
}

#[test]
fn push_stream_ok_asks_for_a_session() {
    let other = envelope("push-stream-ok", Some(Payload::Ice(ProtoIce { candidate: None })));
    assert_eq!(handle_push_stream_ok(other), Ok(SignalAction::Unexpected));
    assert_eq!(handle_push_stream_ok(envelope("push-stream-ok", None)), Err(MissingPayload));
}

#[test]
fn outbound_offer_and_candidate() {
    let offer = send_sdp("v=0\r\n".to_string());
    assert_eq!(
        offer,
        envelope(
            "offer",
            Some(Payload::Sdp(ProtoSdp {
                sdp: Some(RtcSessionDescriptionInit {
                    sdp: "v=0\r\n".to_string(),
                    kind: "offer".to_string(),
                }),
            })),
        )
    );
    let ice = add_ice("candidate:7", 1, Some("video0".to_string()));
    assert_eq!(
        ice,
        envelope(
            "ice-candidate",
            Some(Payload::Ice(ProtoIce {
                candidate: Some(RtcIceCandidateInit {
                    candidate: "candidate:7".to_string(),
                    sdp_mid: Some("video0".to_string()),
                    sdp_m_line_index: Some(1),
                    username_fragment: None,
                }),
            })),
        )
    );
    assert_eq!(
        push_stream_message("r".to_string()),
        envelope(
            "push-stream-room",
            Some(Payload::ServerPushStream(ProtoServerPushStream { room_name: "r".to_string() })),
        )
    );
}

#[test]
fn rumble_keeps_the_axis_naming() {
    let msg = rumble_message(3, 1000, 20, 250, "S".to_string());
    assert_eq!(
        msg,
        envelope(
            "controllerInput",
            Some(Payload::ControllerRumble(ProtoControllerRumble {
                session_slot: 3,
                session_id: "S".to_string(),
                low_frequency: 20,
                high_frequency: 1000,
                duration: 250,
            })),
        )
    );
}

#[test]
fn attach_acknowledgement_goes_out_as_controller_input() {
    let ack = ProtoControllerAttach { id: "ps5".to_string(), session_slot: 0, session_id: "S".to_string() };
    assert_eq!(
        attach_message(ack.clone()),
        envelope("controllerInput", Some(Payload::ControllerAttach(ack)))
    );
}

#[test]
fn input_events() {
    assert_eq!(
        handle_input_message(&Payload::MouseMove(ProtoMouseMove { x: 3, y: -4 })),
        Some(InputEvent::MouseMoveRelative { pointer_x: 3, pointer_y: -4 })
    );
    assert_eq!(
        handle_input_message(&Payload::MouseMoveAbs(ProtoMouseMoveAbs { x: 30, y: 40 })),
        Some(InputEvent::MouseMoveAbsolute { pointer_x: 30, pointer_y: 40 })
    );
    assert_eq!(
        handle_input_message(&Payload::KeyDown(ProtoKeyDown { key: 65 })),
        Some(InputEvent::KeyboardKey { key: 65, pressed: true })
    );
    assert_eq!(
        handle_input_message(&Payload::KeyUp(ProtoKeyUp { key: 65 })),
        Some(InputEvent::KeyboardKey { key: 65, pressed: false })
    );
    assert_eq!(
        handle_input_message(&Payload::MouseWheel(ProtoMouseWheel { x: 0, y: -120 })),
        Some(InputEvent::MouseAxis { x: 0, y: -120 })
    );
    assert_eq!(
        handle_input_message(&Payload::MouseKeyDown(ProtoMouseKeyDown { key: 272 })),
        Some(InputEvent::MouseButton { button: 272, pressed: true })
    );
    assert_eq!(
        handle_input_message(&Payload::MouseKeyUp(ProtoMouseKeyUp { key: 272 })),
        Some(InputEvent::MouseButton { button: 272, pressed: false })
    );
    assert_eq!(
        handle_input_message(&Payload::KeyDown(ProtoKeyDown { key: -1 })),
        Some(InputEvent::KeyboardKey { key: u32::MAX, pressed: true })
    );
    assert_eq!(
        handle_input_message(&Payload::ControllerDetach(ProtoControllerDetach {
            session_slot: 0,
            session_id: "S".to_string(),
        })),
        None
    );
}

#[test]
fn event_names() {
    assert_eq!(event_name(&InputEvent::MouseMoveRelative { pointer_x: 0, pointer_y: 0 }), "MouseMoveRelative");
    assert_eq!(event_name(&InputEvent::MouseMoveAbsolute { pointer_x: 0, pointer_y: 0 }), "MouseMoveAbsolute");
    assert_eq!(event_name(&InputEvent::KeyboardKey { key: 0, pressed: true }), "KeyboardKey");
    assert_eq!(event_name(&InputEvent::MouseAxis { x: 0, y: 0 }), "MouseAxis");
    assert_eq!(event_name(&InputEvent::MouseButton { button: 0, pressed: true }), "MouseButton");
}

#[test]
fn data_channel_routes() {
    let key = Payload::KeyDown(ProtoKeyDown { key: 7 });
    assert_eq!(
        route_data_channel_message(envelope("input", Some(key.clone())), true),
        DataChannelRoute::Input(InputEvent::KeyboardKey { key: 7, pressed: true })
    );
    let detach = Payload::ControllerDetach(ProtoControllerDetach {
        session_slot: 1,
        session_id: "S".to_string(),
    });
    assert_eq!(
        route_data_channel_message(envelope("controllerInput", Some(detach.clone())), true),
        DataChannelRoute::Controller(detach.clone())
    );
    assert_eq!(
        route_data_channel_message(envelope("controllerInput", Some(detach.clone())), false),
        DataChannelRoute::Dropped
    );
    assert_eq!(
        route_data_channel_message(envelope("input", Some(detach.clone())), true),
        DataChannelRoute::Dropped
    );
    assert_eq!(
        route_data_channel_message(envelope("controllerInput", Some(key.clone())), true),
        DataChannelRoute::Controller(key.clone())
    );
    assert_eq!(route_data_channel_message(envelope("input", None), true), DataChannelRoute::Dropped);
    assert_eq!(
        route_data_channel_message(envelope("Input", Some(key.clone())), true),
        DataChannelRoute::Dropped
    );
    let no_base = ProtoMessage { message_base: None, payload: Some(key) };
    assert_eq!(route_data_channel_message(no_base, true), DataChannelRoute::Dropped);
}

#[test]
fn data_channel_settings() {
    let config = data_channel_config();
    assert_eq!(config.name, "nestri-data-channel");
    assert!(config.ordered);
    assert_eq!(config.max_retransmits, 2);
    assert_eq!(config.priority, "high");
    assert_eq!(config.protocol, "raw");
}

#[test]
fn message_without_options_has_no_trace() {
    let payload = Payload::KeyUp(ProtoKeyUp { key: 1 });
    let msg = create_message(payload.clone(), "input", None);
    assert_eq!(msg, envelope("input", Some(payload.clone())));
    let opts = CreateMessageOptions { sequence_id: None, latency: None };
    assert_eq!(create_message(payload.clone(), "input", Some(opts)), envelope("input", Some(payload)));
}

#[test]
fn message_with_a_sequence_id_starts_a_trace() {
    let payload = Payload::KeyUp(ProtoKeyUp { key: 1 });
    let now = Timestamp { seconds: 1700000000, nanos: 5 };
    let opts = CreateMessageOptions { sequence_id: Some("seq-1".to_string()), latency: None };
    let msg = create_message_at(payload.clone(), "input", Some(opts.clone()), now);
    let base = msg.message_base.unwrap();
    assert_eq!(base.payload_type, "input");
    assert_eq!(
        base.latency,
        Some(ProtoLatencyTracker {
            sequence_id: "seq-1".to_string(),
            timestamps: vec![ProtoTimestampEntry { stage: "created".to_string(), time: Some(now) }],
        })
    );
    assert_eq!(msg.payload, Some(payload.clone()));

    let stamped = create_message(payload, "input", Some(opts));
    let trace = stamped.message_base.unwrap().latency.unwrap();
    assert_eq!(trace.sequence_id, "seq-1");
    assert_eq!(trace.timestamps.len(), 1);
    assert_eq!(trace.timestamps[0].stage, "created");
    let time = trace.timestamps[0].time.unwrap();
    assert!(time.seconds > 1_500_000_000);
    assert!(time.nanos >= 0 && time.nanos < 1_000_000_000);
}

#[test]
fn a_given_trace_wins_over_a_sequence_id() {
    let payload = Payload::KeyUp(ProtoKeyUp { key: 1 });
    let given = ProtoLatencyTracker { sequence_id: "old".to_string(), timestamps: Vec::new() };
    let opts = CreateMessageOptions {
        sequence_id: Some("new".to_string()),
        latency: Some(given.clone()),
    };
    let msg = create_message(payload, "input", Some(opts));
    assert_eq!(msg.message_base.unwrap().latency, Some(given));
}

#[test]
fn registered_handlers_take_their_messages() {
    let (mut stream, _rx) = NestriStreamProtocol::new();
    let ok = envelope(
        "push-stream-ok",
        Some(Payload::ServerPushStream(ProtoServerPushStream { room_name: "abc".to_string() })),
    );
    assert_eq!(on_message(&stream, ok.clone()), Inbound::NoHandler);
    stream.register_callback("push-stream-ok", 9);
    stream.register_callback("other", 10);
    assert_eq!(on_message(&stream, ok.clone()), Inbound::Foreign(9, ok.clone()));

    register_callbacks(&mut stream);
    assert_eq!(on_message(&stream, ok), Inbound::Handled(Ok(SignalAction::SessionRequested)));
    let answer = envelope(
        "answer",
        Some(Payload::Sdp(ProtoSdp {
            sdp: Some(RtcSessionDescriptionInit { sdp: "v=0".to_string(), kind: "answer".to_string() }),
        })),
    );
    assert_eq!(
        on_message(&stream, answer),
        Inbound::Handled(Ok(SignalAction::SessionDescription { sdp: "v=0".to_string() }))
    );
    let ice = envelope("ice-candidate", None);
    assert_eq!(on_message(&stream, ice), Inbound::Handled(Err(MissingPayload)));
    let other = envelope("other", None);
    assert_eq!(on_message(&stream, other.clone()), Inbound::Foreign(10, other));
    assert_eq!(on_message(&stream, envelope("offer", None)), Inbound::NoHandler);
    let no_base = ProtoMessage { message_base: None, payload: None };
    assert_eq!(on_message(&stream, no_base), Inbound::MissingBase);
}
