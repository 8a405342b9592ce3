//! BLE advertisement parsing and hub-model detection.
//!
//! Given the service UUIDs and manufacturer data of a BLE advertisement,
//! determine which hub model sent it. The application scans for
//! advertisements, and builds a hub of the detected model with the port map
//! from [`crate::hub::port_maps::port_map_for`].

use crate::protocol::consts::{ble_uuid, BleManufacturerData, HubType};
use vstd::prelude::*;
use vstd::string::StrSliceExecFns;

verus! {

/// The lower-case form of an ASCII letter; other characters are unchanged.
pub open spec fn ascii_lower(c: char) -> char {
    if 'A' <= c && c <= 'Z' {
        ((c as u32) + 32) as char
    } else {
        c
    }
}

/// A UUID text with its dashes dropped and its letters in lower case, so that
/// the forms with and without dashes, in either case, compare equal.
pub open spec fn normalized_uuid(s: Seq<char>) -> Seq<char>
    decreases s.len(),
{
    if s.len() == 0 {
        Seq::empty()
    } else if s.last() == '-' {
        normalized_uuid(s.drop_last())
    } else {
        normalized_uuid(s.drop_last()).push(ascii_lower(s.last()))
    }
}

/// Whether one of `uuids` names the service `service`.
pub open spec fn lists_service(uuids: Seq<&str>, service: Seq<char>) -> bool {
    exists|i: int| 0 <= i < uuids.len() && normalized_uuid(uuids[i]@) == normalized_uuid(service)
}

/// The hub model an LPF2 manufacturer-data identifier names.
pub open spec fn hub_type_for_manufacturer_id(id: BleManufacturerData) -> HubType {
    match id {
        BleManufacturerData::DuploTrainBaseId => HubType::DuploTrainBase,
        BleManufacturerData::MoveHubId => HubType::MoveHub,
        BleManufacturerData::HubId => HubType::Hub,
        BleManufacturerData::RemoteControlId => HubType::RemoteControl,
        BleManufacturerData::MarioId => HubType::Mario,
        BleManufacturerData::LuigiId => HubType::Luigi,
        BleManufacturerData::PeachId => HubType::Peach,
        BleManufacturerData::TechnicMediumHubId => HubType::TechnicMediumHub,
        BleManufacturerData::TechnicSmallHubId => HubType::TechnicSmallHub,
    }
}

/// The hub model an advertisement comes from: the `WeDo 2.0` Smart Hub when it
/// lists the `WeDo 2.0` service; otherwise, when it lists the LPF2 service, the
/// model that byte 3 of the manufacturer data names; otherwise none.
pub open spec fn advertised_hub_type(uuids: Seq<&str>, manufacturer_data: Seq<u8>) -> Option<HubType> {
    if lists_service(uuids, ble_uuid::WEDO2_SERVICE@) {
        Some(HubType::WeDo2SmartHub)
    } else if lists_service(uuids, ble_uuid::LPF2_SERVICE@) && manufacturer_data.len() > 3 {
        match BleManufacturerData::spec_from_value(manufacturer_data[3]) {
            Some(id) => Some(hub_type_for_manufacturer_id(id)),
            None => None,
        }
    } else {
        None
    }
}

fn lower(c: char) -> (r: char)
    ensures
        r == ascii_lower(c),
{
    if 'A' <= c && c <= 'Z' {
        let b = c as u8;
        (b + 32) as char
    } else {
        c
    }
}

fn normalize(s: &str) -> (r: Vec<char>)
    ensures
        r@ == normalized_uuid(s@),
{
    let n = s.unicode_len();
    let mut r: Vec<char> = Vec::new();
    let mut i: usize = 0;
    while i < n
        invariant
            n == s@.len(),
            i <= n,
            r@ == normalized_uuid(s@.take(i as int)),
        decreases n - i,
    {
        let c = s.get_char(i);
        assert(s@.take(i + 1).drop_last() =~= s@.take(i as int));
        if c != '-' {
            r.push(lower(c));
        }
        i = i + 1;
    }
    assert(s@.take(n as int) =~= s@);
    r
}

fn chars_eq(a: &Vec<char>, b: &Vec<char>) -> (r: bool)
    ensures
        r == (a@ == b@),
{
    if a.len() != b.len() {
        return false;
    }
    let mut i: usize = 0;
    while i < a.len()
        invariant
            a@.len() == b@.len(),
            i <= a@.len(),
            forall|j: int| 0 <= j < i ==> a@[j] == b@[j],
        decreases a@.len() - i,
    {
        if a[i] != b[i] {
            return false;
        }
        i = i + 1;
    }
    assert(a@ =~= b@);
    true
}

fn lists(service_uuids: &[&str], service: &str) -> (r: bool)
    ensures
        r == lists_service(service_uuids@, service@),
{
    let target = normalize(service);
    let mut i: usize = 0;
    while i < service_uuids.len()
        invariant
            target@ == normalized_uuid(service@),
            i <= service_uuids@.len(),
            forall|j: int| 0 <= j < i ==> normalized_uuid(service_uuids@[j]@) != normalized_uuid(service@),
        decreases service_uuids@.len() - i,
    {
        let candidate = normalize(service_uuids[i]);
        if chars_eq(&candidate, &target) {
            return true;
        }
        i = i + 1;
    }
    false
}

/// The result of parsing a BLE advertisement that comes from a known hub.
#[derive(Debug, Clone, Copy, PartialEq, Eq, Structural)]
pub struct AdvertisedHub {
    /// Hub model detected from the advertisement.
    pub hub_type: HubType,
}

impl AdvertisedHub {
    /// Parse a BLE advertisement: `service_uuids` are its 128-bit service UUIDs
    /// (with or without dashes), `manufacturer_data` its manufacturer-specific
    /// bytes, whose byte 3 carries the LPF2 hub model. `None` when the
    /// advertisement matches no known hub.
    pub fn from_advertisement(service_uuids: &[&str], manufacturer_data: &[u8]) -> (r: Option<AdvertisedHub>)
        ensures
            r == match advertised_hub_type(service_uuids@, manufacturer_data@) {
                Some(t) => Some(AdvertisedHub { hub_type: t }),
                None => None::<AdvertisedHub>,
            },
    {
        if lists(service_uuids, ble_uuid::WEDO2_SERVICE) {
            return Some(AdvertisedHub { hub_type: HubType::WeDo2SmartHub });
        }
        if !lists(service_uuids, ble_uuid::LPF2_SERVICE) || manufacturer_data.len() <= 3 {
            return None;
        }
        let hub_type = match BleManufacturerData::try_from(manufacturer_data[3]) {
            Ok(BleManufacturerData::DuploTrainBaseId) => HubType::DuploTrainBase,
            Ok(BleManufacturerData::MoveHubId) => HubType::MoveHub,
            Ok(BleManufacturerData::HubId) => HubType::Hub,
            Ok(BleManufacturerData::RemoteControlId) => HubType::RemoteControl,
            Ok(BleManufacturerData::MarioId) => HubType::Mario,
            Ok(BleManufacturerData::LuigiId) => HubType::Luigi,
            Ok(BleManufacturerData::PeachId) => HubType::Peach,
            Ok(BleManufacturerData::TechnicMediumHubId) => HubType::TechnicMediumHub,
            Ok(BleManufacturerData::TechnicSmallHubId) => HubType::TechnicSmallHub,
            Err(_) => {
                return None;
            },
        };
        Some(AdvertisedHub { hub_type })
    }
}

} // verus!
