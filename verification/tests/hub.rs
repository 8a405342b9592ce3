use bytes::Bytes;
use poweredup::device::{AnyDevice, Device};
use poweredup::hub::port_maps::{
    duplo_train_base, move_hub, port_map_for, powered_up_hub, remote_control,
    technic_medium_hub, technic_small_hub, wedo2_smart_hub, PortMap,
};
use poweredup::hub::{
    hub_property_request, initialization_requests, DeviceRegistry, HubProperties, Initialization,
};
use poweredup::protocol::consts::{
    HubPropertyOperation, HubPropertyReference, HubType, IoEvent, MessageType,
};
use poweredup::protocol::message::{
    encode, parse, HubPropertyMessage, LpfMessage, PortInputFormatSingle, PortValueSingle,
};

fn frame(msg_type: u8, payload: &[u8]) -> Vec<u8> {
    let mut f = vec![(3 + payload.len()) as u8, 0x00, msg_type];
    f.extend_from_slice(payload);
    f
}

#[test]
fn device_attach_detach() {
    // Build an attach frame for port 0, device type MediumLinearMotor (0x0026)
    let attach_payload: &[u8] = &[
        0x00, // port_id
        IoEvent::AttachedIo.value(),
        0x26,
        0x00, // device_type_id
        0x00,
        0x00,
        0x00,
        0x10, // hw_version
        0x00,
        0x00,
        0x00,
        0x10, // sw_version
    ];
    let attach_msg = parse(&frame(MessageType::HubAttachedIo.value(), attach_payload)).unwrap();
    let detach_payload: &[u8] = &[0x00, IoEvent::DetachedIo.value()];
    let detach_msg = parse(&frame(MessageType::HubAttachedIo.value(), detach_payload)).unwrap();

    let mut props = HubProperties::default();
    let mut ready = DeviceRegistry::new();
    ready.handle_message(&mut props, &attach_msg);
    assert_eq!(ready.devices().len(), 1);
    assert_eq!(ready.devices()[&0].device_type_id(), 0x0026);

    ready.handle_message(&mut props, &detach_msg);
    assert!(ready.devices().is_empty());
}

#[test]
fn typed_constructors_set_hub_type_and_ports() {
    let cases: &[(&str, HubType, &str, u8)] = &[
        ("Hub_A", HubType::Hub, "A", 0),
        ("Hub_led", HubType::Hub, "HUB_LED", 50),
        ("MoveHub_C", HubType::MoveHub, "C", 2),
        ("MoveHub_tilt", HubType::MoveHub, "TILT_SENSOR", 58),
        ("TMH_accel", HubType::TechnicMediumHub, "ACCELEROMETER", 97),
        ("TSH_led", HubType::TechnicSmallHub, "HUB_LED", 49),
        ("RC_left", HubType::RemoteControl, "LEFT", 0),
        ("Duplo_color", HubType::DuploTrainBase, "COLOR", 18),
        ("WeDo_led", HubType::WeDo2SmartHub, "HUB_LED", 6),
    ];
    for (label, hub_type, port_name, expected_id) in cases {
        let ports = port_map_for(*hub_type);
        assert_eq!(
            ports.get(port_name),
            Some(*expected_id),
            "{label}: port {port_name} should be {expected_id}"
        );
    }
}

#[test]
fn port_maps_match_their_tables() {
    let m = powered_up_hub();
    assert_eq!(m.get("B"), Some(1));
    assert_eq!(m.get("CURRENT_SENSOR"), Some(59));
    assert_eq!(m.get("VOLTAGE_SENSOR"), Some(60));
    assert_eq!(m.get("C"), None);
    let m = move_hub();
    assert_eq!((m.get("D"), m.get("HUB_LED"), m.get("VOLTAGE_SENSOR")), (Some(3), Some(50), Some(60)));
    let m = technic_medium_hub();
    assert_eq!((m.get("GYRO_SENSOR"), m.get("TILT_SENSOR")), (Some(98), Some(99)));
    let m = technic_small_hub();
    assert_eq!((m.get("B"), m.get("C"), m.get("ACCELEROMETER")), (Some(1), None, Some(97)));
    let m = remote_control();
    assert_eq!((m.get("HUB_LED"), m.get("REMOTE_CONTROL_RSSI")), (Some(52), Some(60)));
    let m = duplo_train_base();
    assert_eq!((m.get("MOTOR"), m.get("SPEEDOMETER")), (Some(0), Some(19)));
    let m = wedo2_smart_hub();
    assert_eq!((m.get("B"), m.get("PIEZO_BUZZER"), m.get("CURRENT_SENSOR")), (Some(2), Some(5), Some(3)));
    assert_eq!(port_map_for(HubType::Unknown).get("A"), None);
}

#[test]
fn port_map_insert_replaces() {
    let mut m = PortMap::new();
    assert_eq!(m.get("A"), None);
    m.insert("A".to_string(), 0);
    m.insert("B".to_string(), 1);
    m.insert("A".to_string(), 7);
    assert_eq!(m.get("A"), Some(7));
    assert_eq!(m.get("B"), Some(1));
    assert_eq!(m.get("a"), None);
}

fn prop_response(reference: HubPropertyReference, payload: &[u8]) -> LpfMessage {
    LpfMessage::HubProperty(HubPropertyMessage {
        property: reference,
        operation: HubPropertyOperation::UpdateUpstream,
        payload: Bytes::copy_from_slice(payload),
    })
}

#[test]
fn initialization_sends_six_requests() {
    let requests = initialization_requests();
    let encoded: Vec<Vec<u8>> = requests.iter().map(|m| encode(m).to_vec()).collect();
    assert_eq!(
        encoded,
        vec![
            vec![0x05, 0x00, 0x01, 0x02, 0x02],
            vec![0x05, 0x00, 0x01, 0x05, 0x02],
            vec![0x05, 0x00, 0x01, 0x06, 0x02],
            vec![0x05, 0x00, 0x01, 0x03, 0x05],
            vec![0x05, 0x00, 0x01, 0x04, 0x05],
            vec![0x05, 0x00, 0x01, 0x0D, 0x05],
        ]
    );
    let single = hub_property_request(HubPropertyReference::Rssi, HubPropertyOperation::RequestUpdateDownstream);
    assert_eq!(encode(&single).as_ref(), &[0x05, 0x00, 0x01, 0x05, 0x05]);
}

#[test]
fn initialization_waits_for_every_mandatory_property() {
    let mut init = Initialization::new();
    let mut props = HubProperties::new();
    assert!(!init.is_complete());
    init.on_frame(&mut props, &Ok(prop_response(HubPropertyReference::FwVersion, &0x1002_0016u32.to_le_bytes())));
    init.on_frame(&mut props, &Ok(prop_response(HubPropertyReference::HwVersion, &0x0705_0009u32.to_le_bytes())));
    init.on_frame(
        &mut props,
        &Ok(prop_response(HubPropertyReference::PrimaryMacAddress, &[0xAA, 0xBB, 0xCC, 0x0D, 0xEE, 0x0F])),
    );
    init.on_frame(&mut props, &parse(&[0x02, 0x00]));
    init.on_frame(&mut props, &Ok(LpfMessage::GenericError { command: 1, code: 5 }));
    assert!(!init.is_complete());
    init.on_frame(&mut props, &Ok(prop_response(HubPropertyReference::Button, &[1])));
    init.on_frame(&mut props, &Ok(prop_response(HubPropertyReference::BatteryVoltage, &[87])));
    assert!(!init.is_complete());
    init.on_frame(&mut props, &Ok(prop_response(HubPropertyReference::Rssi, &[0xC4])));
    assert!(init.is_complete());
    assert!(props.button_pressed);
    assert_eq!(props.battery_level, Some(87));
    assert_eq!(props.rssi, Some(-60));
    assert_eq!(props.firmware_version.as_ref().unwrap().to_string(), "1.0.02.0016");
    assert_eq!(props.hardware_version.as_ref().unwrap().to_string(), "0.7.05.0009");
    assert_eq!(props.primary_mac.as_deref(), Some("aa:bb:cc:0d:ee:0f"));
}

#[test]
fn short_property_reports_leave_values_unset() {
    let mut props = HubProperties::new();
    props.apply_hub_property(&HubPropertyMessage {
        property: HubPropertyReference::FwVersion,
        operation: HubPropertyOperation::UpdateUpstream,
        payload: Bytes::from_static(&[1, 2, 3]),
    });
    props.apply_hub_property(&HubPropertyMessage {
        property: HubPropertyReference::PrimaryMacAddress,
        operation: HubPropertyOperation::UpdateUpstream,
        payload: Bytes::from_static(&[1, 2, 3, 4, 5]),
    });
    props.apply_hub_property(&HubPropertyMessage {
        property: HubPropertyReference::Rssi,
        operation: HubPropertyOperation::UpdateUpstream,
        payload: Bytes::new(),
    });
    assert!(props.firmware_version.is_none());
    assert!(props.primary_mac.is_none());
    assert_eq!(props.rssi, Some(0));
}

#[test]
fn ready_hub_updates_only_live_properties() {
    let mut props = HubProperties::new();
    let mut ready = DeviceRegistry::new();
    ready.handle_message(&mut props, &prop_response(HubPropertyReference::BatteryVoltage, &[42]));
    ready.handle_message(&mut props, &prop_response(HubPropertyReference::FwVersion, &[0, 0, 0, 0x10]));
    ready.handle_message(&mut props, &prop_response(HubPropertyReference::Button, &[]));
    assert_eq!(props.battery_level, Some(42));
    assert!(props.firmware_version.is_none());
    assert!(!props.button_pressed);
}

#[test]
fn ready_hub_sets_device_modes() {
    let mut props = HubProperties::new();
    let mut ready = DeviceRegistry::new();
    let attach = parse(&frame(0x04, &[0x01, 0x01, 48, 0, 0, 0, 0, 0, 0, 0, 0, 0])).unwrap();
    ready.handle_message(&mut props, &attach);
    let virtual_attach = parse(&frame(0x04, &[0x10, 0x02, 0x26, 0x00, 0x00, 0x01])).unwrap();
    ready.handle_message(&mut props, &virtual_attach);
    assert_eq!(ready.devices().len(), 2);
    assert!(matches!(ready.devices()[&0x10], AnyDevice::TachoMotor(_)));
    ready.handle_message(&mut props, &LpfMessage::PortInputFormatSingle(PortInputFormatSingle { port_id: 1, mode: 3 }));
    ready.handle_message(&mut props, &LpfMessage::PortInputFormatSingle(PortInputFormatSingle { port_id: 9, mode: 3 }));
    ready.handle_message(
        &mut props,
        &LpfMessage::PortValueSingle(PortValueSingle { port_id: 1, data: Bytes::from_static(&[90, 0]) }),
    );
    let mut dev = match &ready.devices()[&1] {
        AnyDevice::AbsoluteMotor(_) => poweredup::device::DeviceFactory::create(48, 1),
        _ => panic!("expected an absolute motor"),
    };
    dev.set_mode(3);
    assert!(dev.receive(&[90, 0]).unwrap().is_some());
    // A short attach record does not parse; detaching an empty port changes nothing.
    assert!(parse(&frame(0x04, &[0x05, 0x01, 0x26])).is_err());
    ready.handle_message(&mut props, &parse(&frame(0x04, &[0x07, 0x00])).unwrap());
    assert_eq!(ready.devices().len(), 2);
}

#[test]
fn initialization_waits_until_each_value_is_known() {
    let mut init = Initialization::new();
    let mut props = HubProperties::new();
    init.on_frame(&mut props, &Ok(prop_response(HubPropertyReference::Button, &[0])));
    init.on_frame(&mut props, &Ok(prop_response(HubPropertyReference::Rssi, &[0xC4])));
    init.on_frame(&mut props, &Ok(prop_response(HubPropertyReference::BatteryVoltage, &[90])));
    init.on_frame(&mut props, &Ok(prop_response(HubPropertyReference::HwVersion, &0x0705_0009u32.to_le_bytes())));
    init.on_frame(
        &mut props,
        &Ok(prop_response(HubPropertyReference::PrimaryMacAddress, &[1, 2, 3, 4, 5, 6])),
    );
    // A firmware report too short to hold a version leaves it pending.
    init.on_frame(&mut props, &Ok(prop_response(HubPropertyReference::FwVersion, &[1, 2, 3])));
    assert!(!init.is_complete());
    assert!(props.firmware_version.is_none());
    init.on_frame(&mut props, &Ok(prop_response(HubPropertyReference::FwVersion, &0x1000_0000u32.to_le_bytes())));
    assert!(init.is_complete());
    // An empty battery report clears the level, and the battery is pending again.
    init.on_frame(&mut props, &Ok(prop_response(HubPropertyReference::BatteryVoltage, &[])));
    assert!(props.battery_level.is_none());
    assert!(!init.is_complete());
    init.on_frame(&mut props, &Ok(prop_response(HubPropertyReference::BatteryVoltage, &[80])));
    assert!(init.is_complete());
    assert_eq!(props.battery_level, Some(80));
}
