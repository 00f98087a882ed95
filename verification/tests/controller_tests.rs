use nestri_server::controller::{
    attach_ack, controller_string_to_type, get_free_slot, plan_state_batch, slot_record,
    AttachPlan, AxisId, ControllerStep, ControllerTemplate, DeviceWrite, SlotTable,
    UnsupportedController, MAX_CONTROLLERS,
};
use nestri_server::message::{
    Payload, ProtoClientDisconnected, ProtoControllerAttach, ProtoControllerDetach,
    ProtoControllerStateBatch, ProtoKeyDown,
};

fn attach(id: &str, session_id: &str, session_slot: i32) -> ProtoControllerAttach {
    ProtoControllerAttach {
        id: id.to_string(),
        session_slot,
        session_id: session_id.to_string(),
    }
}

fn do_attach(table: &mut SlotTable, request: &ProtoControllerAttach) -> Option<ProtoControllerAttach> {
    match table.plan_attach(request) {
        AttachPlan::Reattach { slot } => Some(attach_ack(request, slot)),
        AttachPlan::Create { slot, template } => {
            assert!(table.record_attach(slot, slot_record(request, template)));
            Some(attach_ack(request, slot))
        }
        AttachPlan::Unsupported { .. } | AttachPlan::Full => None,
    }
}

fn batch(update_type: i32) -> ProtoControllerStateBatch {
    ProtoControllerStateBatch {
        session_slot: 0,
        session_id: "S".to_string(),
        update_type,
        button_changed_mask: Vec::new(),
        left_stick_x: None,
        left_stick_y: None,
        right_stick_x: None,
        right_stick_y: None,
        left_trigger: None,
        right_trigger: None,
        dpad_x: None,
        dpad_y: None,
        changed_fields: None,
    }
}

#[test]
fn templates_by_name() {
    assert_eq!(controller_string_to_type("ps4"), Ok(ControllerTemplate::Ps4));
    assert_eq!(controller_string_to_type("ps5"), Ok(ControllerTemplate::Ps5));
    assert_eq!(controller_string_to_type("xbox360"), Ok(ControllerTemplate::Xbox360));
    assert_eq!(controller_string_to_type("xboxone"), Ok(ControllerTemplate::XboxOne));
    assert_eq!(controller_string_to_type("switchpro"), Ok(ControllerTemplate::SwitchPro));
}

#[test]
fn template_names_ignore_case() {
    assert_eq!(controller_string_to_type("PS5"), Ok(ControllerTemplate::Ps5));
    assert_eq!(controller_string_to_type("XboxOne"), Ok(ControllerTemplate::XboxOne));
    assert_eq!(controller_string_to_type("SwitchPRO"), Ok(ControllerTemplate::SwitchPro));
}

#[test]
fn unknown_template_is_an_error() {
    assert_eq!(controller_string_to_type("gamecube"), Err(UnsupportedController));
    assert_eq!(controller_string_to_type(""), Err(UnsupportedController));
    assert_eq!(controller_string_to_type("ps5 "), Err(UnsupportedController));
}

#[test]
fn controller_reconnection() {
    let mut table = SlotTable::new();
    let request = attach("ps5", "S", 0);
    assert_eq!(
        table.plan_attach(&request),
        AttachPlan::Create { slot: 0, template: ControllerTemplate::Ps5 }
    );
    let ack = do_attach(&mut table, &request).unwrap();
    assert_eq!(ack.session_slot, 0);
    assert_eq!(ack.session_id, "S");
    assert_eq!(ack.id, "ps5");
    assert_eq!(table.len(), 1);

    assert_eq!(table.plan_attach(&request), AttachPlan::Reattach { slot: 0 });
    let again = do_attach(&mut table, &request).unwrap();
    assert_eq!(again.session_slot, 0);
    assert_eq!(again.session_id, "S");
    assert_eq!(table.len(), 1);
}

#[test]
fn reconnection_names_the_global_slot() {
    let mut table = SlotTable::new();
    do_attach(&mut table, &attach("ps4", "A", 0)).unwrap();
    do_attach(&mut table, &attach("ps4", "B", 0)).unwrap();
    let ack = do_attach(&mut table, &attach("xbox360", "B", 0)).unwrap();
    assert_eq!(ack.session_slot, 1);
    assert_eq!(table.len(), 2);
    assert_eq!(table.get(1).unwrap().template, ControllerTemplate::Ps4);
}

#[test]
fn slot_exhaustion() {
    let mut table = SlotTable::new();
    for i in 0..17 {
        let ack = do_attach(&mut table, &attach("xbox360", "S", i)).unwrap();
        assert_eq!(ack.session_slot, i);
    }
    assert_eq!(table.len(), 17);
    assert_eq!(get_free_slot(&table), None);
    let request = attach("xbox360", "S", 17);
    assert_eq!(table.plan_attach(&request), AttachPlan::Full);
    assert!(do_attach(&mut table, &request).is_none());
    assert_eq!(table.len(), 17);
    assert_eq!(table.len() as u32, MAX_CONTROLLERS);
}

#[test]
fn unsupported_model_takes_no_slot() {
    let mut table = SlotTable::new();
    let request = attach("joystick", "S", 0);
    assert_eq!(table.plan_attach(&request), AttachPlan::Unsupported { slot: 0 });
    assert!(do_attach(&mut table, &request).is_none());
    assert_eq!(table.len(), 0);
}

#[test]
fn free_slot_is_the_lowest() {
    let mut table = SlotTable::new();
    for i in 0..4 {
        do_attach(&mut table, &attach("ps4", "S", i)).unwrap();
    }
    assert!(table.detach(1));
    assert!(table.detach(2));
    assert_eq!(get_free_slot(&table), Some(1));
    let ack = do_attach(&mut table, &attach("ps4", "T", 0)).unwrap();
    assert_eq!(ack.session_slot, 1);
    assert_eq!(get_free_slot(&table), Some(2));
}

#[test]
fn record_attach_refuses_what_breaks_the_table() {
    let mut table = SlotTable::new();
    let request = attach("ps4", "S", 0);
    assert!(table.record_attach(0, slot_record(&request, ControllerTemplate::Ps4)));
    assert!(!table.record_attach(0, slot_record(&attach("ps4", "T", 0), ControllerTemplate::Ps4)));
    assert!(!table.record_attach(1, slot_record(&request, ControllerTemplate::Ps4)));
    assert!(!table.record_attach(17, slot_record(&attach("ps4", "U", 0), ControllerTemplate::Ps4)));
    assert_eq!(table.len(), 1);
    assert_eq!(table.find_slot(&"S".to_string(), 0), Some(0));
    assert_eq!(table.find_slot(&"T".to_string(), 0), None);
}

#[test]
fn detach_of_a_missing_slot_changes_nothing() {
    let mut table = SlotTable::new();
    do_attach(&mut table, &attach("ps4", "S", 0)).unwrap();
    assert!(!table.detach(5));
    assert!(!table.detach(-1));
    assert_eq!(table.len(), 1);
    assert!(table.detach(0));
    assert_eq!(table.len(), 0);
    assert!(!table.contains(0));
}

#[test]
fn client_disconnected() {
    let mut table = SlotTable::new();
    for i in 0..8 {
        do_attach(&mut table, &attach("ps4", "S", i)).unwrap();
    }
    for slot in [1, 2, 4, 5, 6] {
        assert!(table.detach(slot));
    }
    assert!(table.contains(0) && table.contains(3) && table.contains(7));
    let removed = table.disconnect(&vec![0, 7, 9]);
    assert_eq!(removed, vec![0u32, 7]);
    assert!(!table.contains(0));
    assert!(table.contains(3));
    assert!(!table.contains(7));
    assert_eq!(table.len(), 1);
}

#[test]
fn disconnect_lists_a_slot_twice() {
    let mut table = SlotTable::new();
    do_attach(&mut table, &attach("ps4", "S", 0)).unwrap();
    let removed = table.disconnect(&vec![0, 0]);
    assert_eq!(removed, vec![0u32]);
    assert_eq!(table.len(), 0);
}

#[test]
fn delta_mask() {
    let mut b = batch(1);
    b.changed_fields = Some(0b10);
    b.button_changed_mask = vec![(0x130, true)];
    b.left_stick_x = Some(5000);
    let writes = plan_state_batch(&b);
    assert_eq!(
        writes,
        vec![
            DeviceWrite::Sync,
            DeviceWrite::Axis { axis: AxisId::LeftStickX, value: 5000 },
            DeviceWrite::Sync,
        ]
    );
    let touching: Vec<&DeviceWrite> =
        writes.iter().filter(|w| !matches!(w, DeviceWrite::Sync)).collect();
    assert_eq!(touching.len(), 1);
}

#[test]
fn delta_without_mask_writes_nothing() {
    let mut b = batch(1);
    b.left_stick_x = Some(1);
    b.button_changed_mask = vec![(0x130, true)];
    assert_eq!(plan_state_batch(&b), Vec::<DeviceWrite>::new());
}

#[test]
fn delta_bits_follow_the_field_order() {
    let axes = [
        AxisId::LeftStickX,
        AxisId::LeftStickY,
        AxisId::RightStickX,
        AxisId::RightStickY,
        AxisId::LowerLeftTrigger,
        AxisId::LowerRightTrigger,
        AxisId::DPadX,
        AxisId::DPadY,
    ];
    for (k, axis) in axes.iter().enumerate() {
        let mut b = batch(1);
        b.button_changed_mask = vec![(0x131, true)];
        b.left_stick_x = Some(1);
        b.left_stick_y = Some(2);
        b.right_stick_x = Some(3);
        b.right_stick_y = Some(4);
        b.left_trigger = Some(5);
        b.right_trigger = Some(6);
        b.dpad_x = Some(7);
        b.dpad_y = Some(8);
        b.changed_fields = Some(1u32 << (k + 1));
        assert_eq!(
            plan_state_batch(&b),
            vec![
                DeviceWrite::Sync,
                DeviceWrite::Axis { axis: *axis, value: (k + 1) as i32 },
                DeviceWrite::Sync,
            ]
        );
    }
    let mut b = batch(1);
    b.button_changed_mask = vec![(0x131, true)];
    b.left_stick_x = Some(1);
    b.changed_fields = Some(1);
    assert_eq!(
        plan_state_batch(&b),
        vec![
            DeviceWrite::Sync,
            DeviceWrite::Button { code: 0x131, pressed: true },
            DeviceWrite::Sync,
        ]
    );
}

#[test]
fn full_state_applies_every_field_in_order() {
    let mut b = batch(0);
    b.button_changed_mask = vec![(0x130, true), (0x134, false)];
    b.left_stick_x = Some(1);
    b.left_stick_y = Some(-2);
    b.right_stick_x = Some(3);
    b.right_stick_y = Some(-4);
    b.left_trigger = Some(5);
    b.right_trigger = Some(6);
    b.dpad_x = Some(-1);
    b.dpad_y = Some(1);
    b.changed_fields = Some(0);
    assert_eq!(
        plan_state_batch(&b),
        vec![
            DeviceWrite::Sync,
            DeviceWrite::Button { code: 0x130, pressed: true },
            DeviceWrite::Sync,
            DeviceWrite::Button { code: 0x134, pressed: false },
            DeviceWrite::Sync,
            DeviceWrite::Axis { axis: AxisId::LeftStickX, value: 1 },
            DeviceWrite::Sync,
            DeviceWrite::Axis { axis: AxisId::LeftStickY, value: -2 },
            DeviceWrite::Sync,
            DeviceWrite::Axis { axis: AxisId::RightStickX, value: 3 },
            DeviceWrite::Sync,
            DeviceWrite::Axis { axis: AxisId::RightStickY, value: -4 },
            DeviceWrite::Sync,
            DeviceWrite::Axis { axis: AxisId::LowerLeftTrigger, value: 5 },
            DeviceWrite::Sync,
            DeviceWrite::Axis { axis: AxisId::LowerRightTrigger, value: 6 },
            DeviceWrite::Sync,
            DeviceWrite::Axis { axis: AxisId::DPadX, value: -1 },
            DeviceWrite::Sync,
            DeviceWrite::Axis { axis: AxisId::DPadY, value: 1 },
            DeviceWrite::Sync,
        ]
    );
}

#[test]
fn full_state_skips_absent_axes() {
    let mut b = batch(0);
    b.right_trigger = Some(255);
    assert_eq!(
        plan_state_batch(&b),
        vec![
            DeviceWrite::Sync,
            DeviceWrite::Axis { axis: AxisId::LowerRightTrigger, value: 255 },
            DeviceWrite::Sync,
        ]
    );
}

#[test]
fn unknown_button_codes_are_passed_over() {
    let mut b = batch(0);
    b.button_changed_mask = vec![(0x132, true), (0x135, true), (0x12f, true), (0x13f, true),
        (0x224, true), (0x21f, true), (0, true), (0x13e, true), (0x220, false), (0x223, true)];
    assert_eq!(
        plan_state_batch(&b),
        vec![
            DeviceWrite::Sync,
            DeviceWrite::Button { code: 0x13e, pressed: true },
            DeviceWrite::Sync,
            DeviceWrite::Button { code: 0x220, pressed: false },
            DeviceWrite::Sync,
            DeviceWrite::Button { code: 0x223, pressed: true },
            DeviceWrite::Sync,
        ]
    );
}

#[test]
fn every_known_button_code_is_written() {
    let known = [
        0x130, 0x131, 0x133, 0x134, 0x136, 0x137, 0x138, 0x139, 0x13a, 0x13b, 0x13c, 0x13d,
        0x13e, 0x220, 0x221, 0x222, 0x223,
    ];
    for code in 0..0x300i32 {
        let mut b = batch(0);
        b.button_changed_mask = vec![(code, true)];
        let writes = plan_state_batch(&b);
        if known.contains(&code) {
            assert_eq!(writes.len(), 3);
            assert_eq!(writes[1], DeviceWrite::Button { code: code as u16, pressed: true });
        } else {
            assert_eq!(writes, vec![DeviceWrite::Sync]);
        }
    }
}

#[test]
fn batch_for_a_missing_slot_is_not_routed() {
    let mut table = SlotTable::new();
    let mut b = batch(0);
    b.session_slot = 2;
    b.dpad_x = Some(1);
    assert!(table.route_state_batch(&b).is_none());
    for i in 0..3 {
        do_attach(&mut table, &attach("ps4", "S", i)).unwrap();
    }
    let (slot, writes) = table.route_state_batch(&b).unwrap();
    assert_eq!(slot, 2);
    assert_eq!(writes, plan_state_batch(&b));
}

#[test]
fn commands_step_by_step() {
    let mut table = SlotTable::new();
    let request = attach("ps5", "S", 0);
    let step = table.command_step(Payload::ControllerAttach(request.clone()));
    assert_eq!(
        step,
        ControllerStep::Attach {
            request: request.clone(),
            plan: AttachPlan::Create { slot: 0, template: ControllerTemplate::Ps5 },
        }
    );
    assert_eq!(table.len(), 0);
    assert!(table.record_attach(0, slot_record(&request, ControllerTemplate::Ps5)));
    assert_eq!(
        table.command_step(Payload::ControllerAttach(request.clone())),
        ControllerStep::Attach { request: request.clone(), plan: AttachPlan::Reattach { slot: 0 } }
    );

    let mut b = batch(0);
    b.dpad_y = Some(-1);
    assert_eq!(
        table.command_step(Payload::ControllerStateBatch(b.clone())),
        ControllerStep::Input {
            slot: 0,
            writes: vec![
                DeviceWrite::Sync,
                DeviceWrite::Axis { axis: AxisId::DPadY, value: -1 },
                DeviceWrite::Sync,
            ],
        }
    );
    b.session_slot = 4;
    assert_eq!(
        table.command_step(Payload::ControllerStateBatch(b)),
        ControllerStep::InputMissed { session_slot: 4 }
    );

    assert_eq!(
        table.command_step(Payload::KeyDown(ProtoKeyDown { key: 1 })),
        ControllerStep::Ignored
    );
    let detach = |slot: i32| {
        Payload::ControllerDetach(ProtoControllerDetach { session_slot: slot, session_id: "S".to_string() })
    };
    assert_eq!(table.command_step(detach(3)), ControllerStep::DetachMissed { session_slot: 3 });
    assert_eq!(table.command_step(detach(0)), ControllerStep::Detached { slot: 0 });
    assert_eq!(table.len(), 0);

    for i in 0..3 {
        do_attach(&mut table, &attach("ps4", "T", i)).unwrap();
    }
    let notice = ProtoClientDisconnected { session_id: "T".to_string(), controller_slots: vec![2, 5, 0] };
    assert_eq!(
        table.command_step(Payload::ClientDisconnected(notice.clone())),
        ControllerStep::Disconnected { notice, removed: vec![2, 0] }
    );
    assert_eq!(table.len(), 1);
    assert!(table.contains(1));
}

#[test]
fn table_never_outgrows_its_cap() {
    let mut table = SlotTable::new();
    for round in 0..5 {
        for i in 0..40 {
            let _ = do_attach(&mut table, &attach("ps4", &format!("session-{}", round), i));
            assert!(table.len() <= 17);
        }
        for slot in 0..17u32 {
            assert_eq!(table.contains(slot), true);
        }
        assert!(!table.contains(17));
        table.disconnect(&vec![3, 4, 5, 16, 17, -1]);
        assert_eq!(table.len(), 13);
        assert!(table.detach(0));
        assert_eq!(get_free_slot(&table), Some(0));
    }
}
