use bytes::Bytes;
use poweredup::protocol::wedo2::{
    encode_disconnect, encode_set_name, encode_subscribe, encode_unsubscribe,
    parse_port_message, parse_sensor_message, Wedo2IoEvent, Wedo2SensorMessage,
};

#[test]
fn parse_port_attach() {
    // [port=1, event=attach, ?, device_type=1(SimpleMediumLinearMotor)]
    let data = [0x01, 0x01, 0x00, 0x01, 0x00];
    let msg = parse_port_message(&data).unwrap();
    assert_eq!(msg.port_id, 1);
    assert_eq!(msg.event, Wedo2IoEvent::Attached);
    assert_eq!(msg.device_type_id, 1);
}

#[test]
fn parse_port_detach() {
    let data = [0x02, 0x00];
    let msg = parse_port_message(&data).unwrap();
    assert_eq!(msg.port_id, 2);
    assert_eq!(msg.event, Wedo2IoEvent::Detached);
    assert_eq!(msg.device_type_id, 0);
}

#[test]
fn parse_port_message_too_short_errors() {
    assert!(parse_port_message(&[0x01]).is_err());
    assert!(parse_port_message(&[]).is_err());
}

#[test]
fn parse_port_unknown_event_errors() {
    assert!(parse_port_message(&[0x01, 0x02]).is_err());
}

#[test]
fn parse_button_pressed() {
    let msg = parse_sensor_message(&[0x01]).unwrap();
    assert_eq!(msg, Wedo2SensorMessage::Button { pressed: true });
}

#[test]
fn parse_button_released() {
    let msg = parse_sensor_message(&[0x00]).unwrap();
    assert_eq!(msg, Wedo2SensorMessage::Button { pressed: false });
}

#[test]
fn parse_sensor_port_data() {
    // [header_byte, port_id=1, value_byte=42]
    let data = [0x05, 0x01, 0x2A];
    let msg = parse_sensor_message(&data).unwrap();
    assert_eq!(
        msg,
        Wedo2SensorMessage::PortData {
            port_id: 1,
            data: Bytes::from_static(&[0x2A]),
        }
    );
}

#[test]
fn parse_sensor_empty_errors() {
    assert!(parse_sensor_message(&[]).is_err());
}

#[test]
fn encode_subscribe_roundtrip() {
    let sub = encode_subscribe(1, 8, 0); // port A, HubLED, mode 0
    assert_eq!(sub.len(), 11);
    assert_eq!(&sub[..], &[0x01, 0x02, 0x01, 0x08, 0x00, 0x01, 0x00, 0x00, 0x00, 0x00, 0x01]);

    let unsub = encode_unsubscribe(1, 8, 0);
    assert_eq!(unsub.len(), 11);
    // Last byte is 0x00 for unsubscribe
    assert_eq!(unsub[10], 0x00);
    // Everything else is the same
    assert_eq!(&sub[..10], &unsub[..10]);
}

#[test]
fn encode_disconnect_is_single_zero_byte() {
    let disc = encode_disconnect();
    assert_eq!(&disc[..], &[0x00]);
}

#[test]
fn encode_set_name_truncates_at_14_chars() {
    let long_name = "ABCDEFGHIJKLMNOPQRSTUVWXYZ"; // 26 chars
    let encoded = encode_set_name(long_name);
    assert_eq!(encoded.len(), 14);
    assert_eq!(&encoded[..], b"ABCDEFGHIJKLMN");
}

#[test]
fn encode_set_name_short() {
    let encoded = encode_set_name("Hub");
    assert_eq!(&encoded[..], b"Hub");
}

// ── Further cases ────────────────────────────────────────────────────────────

#[test]
fn wedo2_error_details() {
    assert_eq!(
        parse_port_message(&[0x01]).unwrap_err().to_string(),
        "Parse error: wedo2 port message too short: 1 bytes"
    );
    assert_eq!(
        parse_port_message(&[0x01, 0x2a]).unwrap_err().to_string(),
        "Parse error: unknown wedo2 port event: 0x2a"
    );
    assert_eq!(
        parse_sensor_message(&[]).unwrap_err().to_string(),
        "Parse error: empty wedo2 sensor message"
    );
}

#[test]
fn attach_without_device_byte_reports_type_zero() {
    let msg = parse_port_message(&[0x01, 0x01, 0x00]).unwrap();
    assert_eq!(msg.event, Wedo2IoEvent::Attached);
    assert_eq!(msg.device_type_id, 0);
}

#[test]
fn single_nonzero_sensor_byte_is_a_press() {
    let msg = parse_sensor_message(&[0x07]).unwrap();
    assert_eq!(msg, Wedo2SensorMessage::Button { pressed: true });
    let msg = parse_sensor_message(&[0x05, 0x02]).unwrap();
    assert_eq!(msg, Wedo2SensorMessage::PortData { port_id: 2, data: Bytes::new() });
}

#[test]
fn set_name_counts_characters_not_bytes() {
    let encoded = encode_set_name("ÄÖÜäöüßÄÖÜäöüßXYZ");
    assert_eq!(&encoded[..], "ÄÖÜäöüßÄÖÜäöüß".as_bytes());
}
