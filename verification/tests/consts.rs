use poweredup::protocol::consts::{
    BleManufacturerData, BrakingStyle, Color, CommandFeedback, DeviceType, HubType, MarioColor,
    MessageType,
};

#[test]
fn hub_type_round_trip() {
    for disc in 0u8..=10 {
        let ht = HubType::try_from(disc).expect("should parse");
        assert_eq!(ht.value(), disc);
    }
}

#[test]
fn hub_type_unknown_wire_value_is_error() {
    assert!(HubType::try_from(99).is_err());
}

#[test]
fn device_type_known_values() {
    assert_eq!(
        DeviceType::try_from(38).unwrap(),
        DeviceType::MediumLinearMotor
    );
    assert_eq!(
        DeviceType::try_from(49).unwrap(),
        DeviceType::TechnicLargeAngularMotor
    );
    assert_eq!(
        DeviceType::try_from(255).unwrap_err().to_string(),
        "Parse error: unknown DeviceType discriminant: 0xff"
    );
}

#[test]
fn message_type_round_trip() {
    let known: &[(u8, MessageType)] = &[
        (0x01, MessageType::HubProperties),
        (0x04, MessageType::HubAttachedIo),
        (0x81, MessageType::PortOutputCommand),
        (0x82, MessageType::PortOutputCommandFeedback),
    ];
    for &(byte, expected) in known {
        assert_eq!(MessageType::try_from(byte).unwrap(), expected);
        assert_eq!(expected.value(), byte);
    }
}

#[test]
fn command_feedback_all_variants() {
    let cases: &[(u8, CommandFeedback)] = &[
        (0x00, CommandFeedback::TransmissionPending),
        (0x10, CommandFeedback::TransmissionBusy),
        (0x20, CommandFeedback::ExecutionPending),
        (0x21, CommandFeedback::ExecutionBusy),
        (0x22, CommandFeedback::ExecutionCompleted),
        (0x24, CommandFeedback::ExecutionDiscarded),
        (0x26, CommandFeedback::FeedbackDisabled),
        (0x44, CommandFeedback::TransmissionDiscarded),
        (0x66, CommandFeedback::FeedbackMissing),
    ];
    for &(byte, expected) in cases {
        assert_eq!(CommandFeedback::try_from(byte).unwrap(), expected);
    }
}

#[test]
fn braking_style_values() {
    assert_eq!(BrakingStyle::try_from(0).unwrap(), BrakingStyle::Float);
    assert_eq!(BrakingStyle::try_from(126).unwrap(), BrakingStyle::Hold);
    assert_eq!(BrakingStyle::try_from(127).unwrap(), BrakingStyle::Brake);
}

#[test]
fn color_none_is_255() {
    assert_eq!(Color::try_from(255).unwrap(), Color::NoColor);
}

#[test]
fn mario_color_u16() {
    assert_eq!(MarioColor::try_from(0x1300u16).unwrap(), MarioColor::White);
    assert!(MarioColor::try_from(0x0000u16).is_err());
}

#[test]
fn every_device_type_value_decodes_back() {
    let mut known = 0;
    for v in 0u8..=255 {
        if let Ok(t) = DeviceType::try_from(v) {
            assert_eq!(t.value(), v);
            known += 1;
        }
    }
    assert_eq!(known, 39);
}

#[test]
fn unknown_discriminant_message_uses_short_hex() {
    assert_eq!(
        HubType::try_from(11).unwrap_err().to_string(),
        "Parse error: unknown HubType discriminant: 0xb"
    );
    assert_eq!(
        MarioColor::try_from(0x1301u16).unwrap_err().to_string(),
        "Parse error: unknown MarioColor discriminant: 0x1301"
    );
    assert_eq!(
        BleManufacturerData::try_from(0).unwrap_err().to_string(),
        "Parse error: unknown BleManufacturerData discriminant: 0x0"
    );
}
