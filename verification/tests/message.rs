use bytes::Bytes;
use poweredup::protocol::consts::{
    ActionType, AlertPayload, AlertType, CommandFeedback, HubPropertyOperation,
    HubPropertyReference, IoEvent, MessageType,
};
use poweredup::protocol::message::{
    encode, parse, FrameBuffer, HubAlertMessage, HubPropertyMessage, LpfMessage,
    PortInputFormatSetupSingle, PortOutputCommand, Version,
};

// Helper: build a complete LPF2 frame from type + payload bytes.
fn frame(msg_type: u8, payload: &[u8]) -> Vec<u8> {
    let len = 3 + payload.len();
    let mut f = vec![len as u8, 0x00, msg_type];
    f.extend_from_slice(payload);
    f
}

#[test]
fn frame_buffer_single_chunk() {
    let mut fb = FrameBuffer::new();
    let data = frame(
        0x04,
        &[0x00, 0x01, 0x27, 0x00, 0x00, 0x00, 0x00, 0x00, 0x00],
    );
    let frames = fb.push(&data);
    assert_eq!(frames.len(), 1);
    assert_eq!(frames[0].as_ref(), data.as_slice());
}

#[test]
fn frame_buffer_two_frames_in_one_chunk() {
    let mut fb = FrameBuffer::new();
    let mut data = frame(0x02, &[0x01]); // HubAction
    data.extend(frame(0x02, &[0x02])); // another HubAction
    let frames = fb.push(&data);
    assert_eq!(frames.len(), 2);
}

#[test]
fn frame_buffer_fragmented() {
    let mut fb = FrameBuffer::new();
    let data = frame(0x02, &[0x01]);
    let (first, second) = data.split_at(2);
    assert_eq!(fb.push(first).len(), 0);
    assert_eq!(fb.push(second).len(), 1);
}

#[test]
fn parse_hub_action() {
    // HUB_ACTIONS disconnect: [0x04, 0x00, 0x02, 0x02]
    let data = frame(
        MessageType::HubActions.value(),
        &[ActionType::Disconnect.value()],
    );
    let msg = parse(&data).unwrap();
    assert_eq!(msg, LpfMessage::HubAction(ActionType::Disconnect));
}

#[test]
fn parse_hub_alert() {
    let data = frame(
        MessageType::HubAlerts.value(),
        &[AlertType::LowVoltage.value(), AlertPayload::Alert.value()],
    );
    let msg = parse(&data).unwrap();
    assert_eq!(
        msg,
        LpfMessage::HubAlert(HubAlertMessage {
            alert_type: AlertType::LowVoltage,
            payload: AlertPayload::Alert,
        })
    );
}

#[test]
fn parse_hub_attached_io_attached() {
    let payload = &[
        0x00,               // port_id
        IoEvent::AttachedIo.value(),
        0x26, 0x00,         // device_type_id = 0x0026 = 38 = MediumLinearMotor
        0x00, 0x00, 0x00, 0x10, // hw_version le_i32
        0x00, 0x00, 0x00, 0x10, // sw_version le_i32
    ];
    let data = frame(MessageType::HubAttachedIo.value(), payload);
    let msg = parse(&data).unwrap();
    if let LpfMessage::HubAttachedIo(m) = msg {
        assert_eq!(m.port_id, 0x00);
        assert_eq!(m.event, IoEvent::AttachedIo);
        let info = m.attached.unwrap();
        assert_eq!(info.device_type_id, 0x0026);
    } else {
        panic!("wrong variant");
    }
}

#[test]
fn parse_hub_attached_io_detached() {
    let payload = &[0x01, IoEvent::DetachedIo.value()];
    let data = frame(MessageType::HubAttachedIo.value(), payload);
    let msg = parse(&data).unwrap();
    if let LpfMessage::HubAttachedIo(m) = msg {
        assert_eq!(m.port_id, 0x01);
        assert_eq!(m.event, IoEvent::DetachedIo);
        assert!(m.attached.is_none());
    } else {
        panic!("wrong variant");
    }
}

#[test]
fn parse_port_value_single() {
    let payload = &[0x00, 0x64]; // port 0, data = [100]
    let data = frame(MessageType::PortValueSingle.value(), payload);
    let msg = parse(&data).unwrap();
    if let LpfMessage::PortValueSingle(v) = msg {
        assert_eq!(v.port_id, 0x00);
        assert_eq!(v.data.as_ref(), &[0x64u8]);
    } else {
        panic!("wrong variant");
    }
}

#[test]
fn parse_feedback_single_entry() {
    let payload = &[0x00, CommandFeedback::ExecutionCompleted.value()];
    let data = frame(MessageType::PortOutputCommandFeedback.value(), payload);
    let msg = parse(&data).unwrap();
    if let LpfMessage::PortOutputCommandFeedback(f) = msg {
        assert_eq!(f.entries, vec![(0x00, CommandFeedback::ExecutionCompleted)]);
    } else {
        panic!("wrong variant");
    }
}

#[test]
fn parse_feedback_two_entries() {
    let payload = &[
        0x00,
        CommandFeedback::ExecutionCompleted.value(),
        0x01,
        CommandFeedback::ExecutionBusy.value(),
    ];
    let data = frame(MessageType::PortOutputCommandFeedback.value(), payload);
    let msg = parse(&data).unwrap();
    if let LpfMessage::PortOutputCommandFeedback(f) = msg {
        assert_eq!(f.entries.len(), 2);
    } else {
        panic!("wrong variant");
    }
}

#[test]
fn parse_unknown_message_type_does_not_error() {
    let data = frame(0xFE, &[0x01, 0x02]);
    let msg = parse(&data).unwrap();
    assert!(matches!(msg, LpfMessage::Unknown { .. }));
}

#[test]
fn encode_hub_action_shutdown() {
    let msg = LpfMessage::HubAction(ActionType::SwitchOffHub);
    let bytes = encode(&msg);
    assert_eq!(bytes.as_ref(), &[0x04, 0x00, 0x02, 0x01]);
}

#[test]
fn encode_port_input_format_setup_subscribe() {
    let msg = LpfMessage::PortInputFormatSetupSingle(PortInputFormatSetupSingle {
        port_id: 0x00,
        mode: 0x00,
        delta: 1,
        enable_notifications: true,
    });
    let bytes = encode(&msg);
    assert_eq!(
        bytes.as_ref(),
        &[0x0a, 0x00, 0x41, 0x00, 0x00, 0x01, 0x00, 0x00, 0x00, 0x01]
    );
}

#[test]
fn encode_port_input_format_setup_unsubscribe() {
    let msg = LpfMessage::PortInputFormatSetupSingle(PortInputFormatSetupSingle {
        port_id: 0x01,
        mode: 0x02,
        delta: 1,
        enable_notifications: false,
    });
    let bytes = encode(&msg);
    assert_eq!(
        bytes.as_ref(),
        &[0x0a, 0x00, 0x41, 0x01, 0x02, 0x01, 0x00, 0x00, 0x00, 0x00]
    );
}

#[test]
fn version_display() {
    let v = Version::from_le_i32(0x1000_0000_u32 as i32);
    assert_eq!(v.to_string(), "1.0.00.0000");
}

#[test]
fn hub_property_round_trip() {
    // Request FW version: [0x05, 0x00, 0x01, 0x03, 0x05]
    let property_payload = Bytes::new();
    let msg = LpfMessage::HubProperty(HubPropertyMessage {
        property: HubPropertyReference::FwVersion,
        operation: HubPropertyOperation::RequestUpdateDownstream,
        payload: property_payload,
    });
    let bytes = encode(&msg);
    assert_eq!(bytes.as_ref(), &[0x05, 0x00, 0x01, 0x03, 0x05]);

    let parsed = parse(&bytes).unwrap();
    if let LpfMessage::HubProperty(m) = parsed {
        assert_eq!(m.property, HubPropertyReference::FwVersion);
        assert_eq!(m.operation, HubPropertyOperation::RequestUpdateDownstream);
    } else {
        panic!("wrong variant");
    }
}

// ── Further cases ────────────────────────────────────────────────────────────

#[test]
fn version_fields_and_padding() {
    // 0x1234_5678 → major 1, minor 2, patch 0x34 = 52, build 0x5678 = 22136;
    // the text shows the hex digit groups.
    let v = Version::from_le_i32(0x1234_5678);
    assert_eq!((v.major, v.minor, v.patch, v.build), (1, 2, 52, 22136));
    assert_eq!(v.to_string(), "1.2.34.5678");
    let v = Version::from_le_i32(0x1002_0016);
    assert_eq!(v.to_string(), "1.0.02.0016");
    let v = Version::from_le_i32(0x0705_0009);
    assert_eq!(v.to_string(), "0.7.05.0009");
    let v = Version::from_le_i32(-1);
    assert_eq!(v.to_string(), "f.f.ff.ffff");
}

#[test]
fn parse_errors_carry_their_details() {
    let e = parse(&[0x02, 0x00]).unwrap_err();
    assert_eq!(e.to_string(), "Parse error: frame too short: 2 bytes");
    let e = parse(&[0x09, 0x00, 0x02, 0x01]).unwrap_err();
    assert_eq!(e.to_string(), "Parse error: frame truncated: declared 9, got 4");
    let e = parse(&frame(0x01, &[0x03])).unwrap_err();
    assert_eq!(e.to_string(), "Parse error: HubProperty payload too short");
    let e = parse(&frame(0x02, &[])).unwrap_err();
    assert_eq!(e.to_string(), "Parse error: HubAction payload empty");
    let e = parse(&frame(0x02, &[0x07])).unwrap_err();
    assert_eq!(e.to_string(), "Parse error: unknown ActionType discriminant: 0x7");
    let e = parse(&frame(0x03, &[0x01])).unwrap_err();
    assert_eq!(e.to_string(), "Parse error: HubAlert payload too short");
    let e = parse(&frame(0x04, &[])).unwrap_err();
    assert_eq!(e.to_string(), "Parse error: HubAttachedIo payload empty");
    let e = parse(&[0x02, 0x00, 0x02]).unwrap_err();
    assert_eq!(e.to_string(), "Parse error: frame too short: declared 2 bytes");
    let e = parse(&[0x04, 0x00, 0x04, 0x00]).unwrap_err();
    assert_eq!(e.to_string(), "Parse error: HubAttachedIo payload too short");
    let e = parse(&frame(0x04, &[0x00, 0x01, 0x26, 0x00])).unwrap_err();
    assert_eq!(e.to_string(), "Parse error: HubAttachedIo attach record too short");
    let e = parse(&frame(0x04, &[0x10, 0x02, 0x27, 0x00, 0x00])).unwrap_err();
    assert_eq!(e.to_string(), "Parse error: HubAttachedIo virtual attach record too short");
    let e = parse(&frame(0x04, &[0x00, 0x05])).unwrap_err();
    assert_eq!(e.to_string(), "Parse error: unknown IoEvent discriminant: 0x5");
    let e = parse(&frame(0x05, &[0x01])).unwrap_err();
    assert_eq!(e.to_string(), "Parse error: GenericError payload too short");
    let e = parse(&frame(0x41, &[0x00; 6])).unwrap_err();
    assert_eq!(e.to_string(), "Parse error: PortInputFormatSetup payload too short");
    let e = parse(&frame(0x45, &[])).unwrap_err();
    assert_eq!(e.to_string(), "Parse error: PortValueSingle payload empty");
    let e = parse(&frame(0x47, &[0x00])).unwrap_err();
    assert_eq!(e.to_string(), "Parse error: PortInputFormatSingle payload too short");
    let e = parse(&frame(0x81, &[0x00])).unwrap_err();
    assert_eq!(e.to_string(), "Parse error: PortOutputCommand payload too short");
    let e = parse(&frame(0x82, &[0x00, 0x22, 0x01])).unwrap_err();
    assert_eq!(
        e.to_string(),
        "Parse error: PortOutputCommandFeedback unexpected payload length 3"
    );
    let e = parse(&frame(0x82, &[0x00, 0x22, 0x01, 0x99])).unwrap_err();
    assert_eq!(e.to_string(), "Parse error: unknown CommandFeedback discriminant: 0x99");
    let e = parse(&frame(0x01, &[0x03, 0x09])).unwrap_err();
    assert_eq!(
        e.to_string(),
        "Parse error: unknown HubPropertyOperation discriminant: 0x9"
    );
}

#[test]
fn parse_decodes_the_remaining_message_types() {
    let msg = parse(&frame(0x05, &[0x21, 0x06])).unwrap();
    assert_eq!(msg, LpfMessage::GenericError { command: 0x21, code: 0x06 });
    let msg = parse(&frame(0x41, &[0x01, 0x02, 0x05, 0x00, 0x00, 0x00, 0x07])).unwrap();
    assert_eq!(
        msg,
        LpfMessage::PortInputFormatSetupSingle(PortInputFormatSetupSingle {
            port_id: 1,
            mode: 2,
            delta: 5,
            enable_notifications: true,
        })
    );
    let msg = parse(&frame(0x81, &[0x03, 0x11, 0x51, 0x00, 0x32])).unwrap();
    if let LpfMessage::PortOutputCommand(c) = msg {
        assert_eq!((c.port_id, c.startup_and_completion), (3, 0x11));
        assert_eq!(c.payload.as_ref(), &[0x51, 0x00, 0x32]);
    } else {
        panic!("wrong variant");
    }
    // Virtual attach: port 0x10 built from ports 0 and 1, device 0x0027.
    let msg = parse(&frame(0x04, &[0x10, 0x02, 0x27, 0x00, 0x00, 0x01])).unwrap();
    if let LpfMessage::HubAttachedIo(m) = msg {
        assert!(m.attached.is_none());
        let v = m.virtual_attached.unwrap();
        assert_eq!((v.device_type_id, v.first_port_id, v.second_port_id), (0x27, 0, 1));
    } else {
        panic!("wrong variant");
    }
    // The payload ends at the declared length; bytes past it are ignored.
    let msg = parse(&[0x04, 0x00, 0x02, 0x01, 0xEE, 0xEE]).unwrap();
    assert_eq!(msg, LpfMessage::HubAction(ActionType::SwitchOffHub));
}

#[test]
fn attached_io_versions_are_decoded() {
    let payload = [0x00, 0x01, 0x26, 0x00, 0x09, 0x00, 0x05, 0x07, 0x78, 0x56, 0x34, 0x12];
    if let LpfMessage::HubAttachedIo(m) = parse(&frame(0x04, &payload)).unwrap() {
        let info = m.attached.unwrap();
        assert_eq!(info.hw_version.to_string(), "0.7.05.0009");
        assert_eq!(info.sw_version.to_string(), "1.2.34.5678");
    } else {
        panic!("wrong variant");
    }
}

#[test]
fn encoded_messages_parse_back() {
    let messages = vec![
        LpfMessage::HubProperty(HubPropertyMessage {
            property: HubPropertyReference::AdvertisingName,
            operation: HubPropertyOperation::SetDownstream,
            payload: Bytes::from_static(b"Hub"),
        }),
        LpfMessage::HubAction(ActionType::Disconnect),
        LpfMessage::PortInputFormatSetupSingle(PortInputFormatSetupSingle {
            port_id: 2,
            mode: 3,
            delta: 0x0102_0304,
            enable_notifications: true,
        }),
        LpfMessage::PortOutputCommand(PortOutputCommand {
            port_id: 1,
            startup_and_completion: 0x11,
            payload: Bytes::from_static(&[0x51, 0x00, 0x32]),
        }),
        LpfMessage::Unknown { message_type: 0xFE, payload: Bytes::from_static(&[1, 2, 3]) },
    ];
    for m in messages {
        let bytes = encode(&m);
        assert_eq!(bytes[0] as usize, bytes.len());
        assert_eq!(parse(&bytes).unwrap(), m);
    }
}

#[test]
fn upstream_only_messages_encode_to_the_header() {
    let bytes = encode(&LpfMessage::GenericError { command: 1, code: 2 });
    assert_eq!(bytes.as_ref(), &[0x02, 0x00]);
}

#[test]
fn frame_buffer_keeps_every_byte() {
    let mut fb = FrameBuffer::new();
    let mut stream = frame(0x02, &[0x01]);
    stream.extend(frame(0x45, &[0x00, 0x10, 0x20]));
    stream.extend(frame(0x02, &[0x02]));
    let mut out: Vec<u8> = Vec::new();
    let mut count = 0;
    for chunk in stream.chunks(3) {
        for f in fb.push(chunk) {
            assert_eq!(f[0] as usize, f.len());
            out.extend_from_slice(&f);
            count += 1;
        }
    }
    assert_eq!(count, 3);
    assert_eq!(out, stream);
}

#[test]
fn frame_buffer_stops_at_a_zero_length_byte() {
    let mut fb = FrameBuffer::new();
    let frames = fb.push(&[0x00, 0x04, 0x00, 0x02, 0x01]);
    assert!(frames.is_empty());
}

#[test]
fn frame_buffer_holds_an_incomplete_frame() {
    let mut fb = FrameBuffer::new();
    assert_eq!(fb.pending_len(), 0);
    let frames = fb.push(&[0x05, 0x00, 0x02]);
    assert!(frames.is_empty());
    assert_eq!(fb.pending_len(), 3);
    let frames = fb.push(&[0x01, 0x07]);
    assert_eq!(frames.len(), 1);
    assert_eq!(frames[0].as_ref(), &[0x05, 0x00, 0x02, 0x01, 0x07]);
    assert_eq!(fb.pending_len(), 0);
}
