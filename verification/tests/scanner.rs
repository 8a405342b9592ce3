use poweredup::hub::port_maps::port_map_for;
use poweredup::protocol::consts::{ble_uuid, HubType};
use poweredup::scanner::AdvertisedHub;

fn lpf2_services() -> Vec<&'static str> {
    vec![ble_uuid::LPF2_SERVICE]
}

fn wedo2_services() -> Vec<&'static str> {
    vec![ble_uuid::WEDO2_SERVICE]
}

fn mfr(id_byte: u8) -> Vec<u8> {
    // Manufacturer data: bytes 0-2 can be anything; byte 3 is the hub ID.
    vec![0x97, 0x03, 0x00, id_byte]
}

#[test]
fn parse_move_hub() {
    let adv = AdvertisedHub::from_advertisement(&lpf2_services(), &mfr(64)).unwrap();
    assert_eq!(adv.hub_type, HubType::MoveHub);
}

#[test]
fn parse_powered_up_hub() {
    let adv = AdvertisedHub::from_advertisement(&lpf2_services(), &mfr(65)).unwrap();
    assert_eq!(adv.hub_type, HubType::Hub);
}

#[test]
fn parse_remote_control() {
    let adv = AdvertisedHub::from_advertisement(&lpf2_services(), &mfr(66)).unwrap();
    assert_eq!(adv.hub_type, HubType::RemoteControl);
}

#[test]
fn parse_technic_medium_hub() {
    let adv = AdvertisedHub::from_advertisement(&lpf2_services(), &mfr(128)).unwrap();
    assert_eq!(adv.hub_type, HubType::TechnicMediumHub);
}

#[test]
fn parse_technic_small_hub() {
    let adv = AdvertisedHub::from_advertisement(&lpf2_services(), &mfr(131)).unwrap();
    assert_eq!(adv.hub_type, HubType::TechnicSmallHub);
}

#[test]
fn parse_duplo_train_base() {
    let adv = AdvertisedHub::from_advertisement(&lpf2_services(), &mfr(32)).unwrap();
    assert_eq!(adv.hub_type, HubType::DuploTrainBase);
}

#[test]
fn parse_wedo2_smart_hub() {
    // WeDo 2.0 is identified by service UUID alone — no manufacturer byte needed.
    let adv = AdvertisedHub::from_advertisement(&wedo2_services(), &[]).unwrap();
    assert_eq!(adv.hub_type, HubType::WeDo2SmartHub);
}

#[test]
fn unknown_service_returns_none() {
    let adv =
        AdvertisedHub::from_advertisement(&["00001800-0000-1000-8000-00805f9b34fb"], &mfr(65));
    assert!(adv.is_none());
}

#[test]
fn unknown_manufacturer_byte_returns_none() {
    // LPF2 service present but an unrecognised ID byte.
    let adv = AdvertisedHub::from_advertisement(&lpf2_services(), &mfr(0xFF));
    assert!(adv.is_none());
}

// The hub built for an advertisement takes the detected type and that type's port map.

#[test]
fn into_hub_powered_up_hub() {
    let adv = AdvertisedHub::from_advertisement(&lpf2_services(), &mfr(65)).unwrap();
    let ports = port_map_for(adv.hub_type);
    assert_eq!(adv.hub_type, HubType::Hub);
    assert_eq!(ports.get("A"), Some(0u8));
    assert_eq!(ports.get("HUB_LED"), Some(50u8));
}

#[test]
fn into_hub_move_hub() {
    let adv = AdvertisedHub::from_advertisement(&lpf2_services(), &mfr(64)).unwrap();
    let ports = port_map_for(adv.hub_type);
    assert_eq!(adv.hub_type, HubType::MoveHub);
    assert_eq!(ports.get("TILT_SENSOR"), Some(58u8));
}

#[test]
fn into_hub_remote_control() {
    let adv = AdvertisedHub::from_advertisement(&lpf2_services(), &mfr(66)).unwrap();
    let ports = port_map_for(adv.hub_type);
    assert_eq!(adv.hub_type, HubType::RemoteControl);
    assert_eq!(ports.get("LEFT"), Some(0u8));
    assert_eq!(ports.get("RIGHT"), Some(1u8));
}

#[test]
fn into_hub_wedo2() {
    let adv = AdvertisedHub::from_advertisement(&wedo2_services(), &[]).unwrap();
    let ports = port_map_for(adv.hub_type);
    assert_eq!(adv.hub_type, HubType::WeDo2SmartHub);
    assert_eq!(ports.get("A"), Some(1u8));
}

// ── Further cases ────────────────────────────────────────────────────────────

#[test]
fn service_uuid_without_dashes_or_in_upper_case_matches() {
    let adv = AdvertisedHub::from_advertisement(&["000016231212EFDE1623785FEABCD123"], &mfr(65));
    assert_eq!(adv.unwrap().hub_type, HubType::Hub);
    let adv = AdvertisedHub::from_advertisement(
        &["00001800-0000-1000-8000-00805f9b34fb", "00001623-1212-EFDE-1623-785FEABCD123"],
        &mfr(131),
    );
    assert_eq!(adv.unwrap().hub_type, HubType::TechnicSmallHub);
}

#[test]
fn lpf2_without_manufacturer_byte_is_none() {
    assert!(AdvertisedHub::from_advertisement(&lpf2_services(), &[0x97, 0x03, 0x00]).is_none());
}

#[test]
fn mario_figures_are_detected_and_have_no_ports() {
    let adv = AdvertisedHub::from_advertisement(&lpf2_services(), &mfr(67)).unwrap();
    assert_eq!(adv.hub_type, HubType::Mario);
    assert_eq!(port_map_for(adv.hub_type).get("A"), None);
    assert_eq!(
        AdvertisedHub::from_advertisement(&lpf2_services(), &mfr(68)).unwrap().hub_type,
        HubType::Luigi
    );
    assert_eq!(
        AdvertisedHub::from_advertisement(&lpf2_services(), &mfr(69)).unwrap().hub_type,
        HubType::Peach
    );
}
