//! Hub logic: port maps, the properties a hub reports, and the bookkeeping of
//! initialization and attached devices. The connection itself, with its BLE
//! transport and its message loop, belongs to the application, which hands
//! each parsed message to the functions here.
//!
//! Connection lifecycle:
//! ```text
//! Disconnected --connect()--> Connected --initialize()--> Ready
//! ```
//! Initialization sends [`initialization_requests`] and feeds every parsed
//! frame to [`Initialization::on_frame`] until [`Initialization::is_complete`];
//! a ready hub feeds every message to [`DeviceRegistry::handle_message`].

pub mod port_maps;

use std::collections::{HashMap, HashSet};

use crate::buffer::{bytes_as_slice, bytes_new, bytes_view};
use crate::device::{AnyDevice, Device, DeviceFactory};
use crate::error::Error;
use crate::protocol::consts::{HubPropertyOperation, HubPropertyReference, IoEvent};
use crate::protocol::message::{
    i32_from_le, le_u32, version_of, HubPropertyMessage, LpfMessage, LpfMessageView, Version,
};
use crate::device::sensor::signed_byte;
use crate::text::{hex2, push_hex2};
use vstd::prelude::*;

verus! {

broadcast use vstd::std_specs::hash::group_hash_axioms;

/// The hub has not yet established a BLE connection.
pub struct Disconnected;

/// Properties a hub reports: filled in during initialization and kept up to date afterwards.
#[derive(Debug, Clone)]
pub struct HubProperties {
    pub firmware_version: Option<Version>,
    pub hardware_version: Option<Version>,
    pub battery_level: Option<u8>,
    pub rssi: Option<i8>,
    pub primary_mac: Option<String>,
    pub button_pressed: bool,
}

/// Hub properties with the MAC address taken by its characters.
pub struct HubPropertiesView {
    pub firmware_version: Option<Version>,
    pub hardware_version: Option<Version>,
    pub battery_level: Option<u8>,
    pub rssi: Option<i8>,
    pub primary_mac: Option<Seq<char>>,
    pub button_pressed: bool,
}

impl View for HubProperties {
    type V = HubPropertiesView;

    open spec fn view(&self) -> HubPropertiesView {
        HubPropertiesView {
            firmware_version: self.firmware_version,
            hardware_version: self.hardware_version,
            battery_level: self.battery_level,
            rssi: self.rssi,
            primary_mac: match self.primary_mac {
                Some(s) => Some(s@),
                None => None,
            },
            button_pressed: self.button_pressed,
        }
    }
}

/// The first byte of a property payload, or 0 when it is empty.
pub open spec fn first_or_zero(p: Seq<u8>) -> u8 {
    if p.len() > 0 {
        p[0]
    } else {
        0
    }
}

/// A MAC address as six colon-separated pairs of lower-case hex digits.
pub open spec fn mac_text(p: Seq<u8>) -> Seq<char> {
    hex2(p[0]) + ":"@ + hex2(p[1]) + ":"@ + hex2(p[2]) + ":"@ + hex2(p[3]) + ":"@ + hex2(p[4]) + ":"@
        + hex2(p[5])
}

/// The properties after a property report arriving during initialization: the
/// button state, RSSI and battery level from the first byte; the firmware and
/// hardware versions from four bytes and the MAC address from six, when the
/// payload has them; anything else leaves the properties as they are.
pub open spec fn applied_at_init(v: HubPropertiesView, property: HubPropertyReference, p: Seq<u8>) -> HubPropertiesView {
    match property {
        HubPropertyReference::Button => HubPropertiesView { button_pressed: first_or_zero(p) != 0, ..v },
        HubPropertyReference::FwVersion => if p.len() >= 4 {
            HubPropertiesView { firmware_version: Some(version_of(le_u32(p[0], p[1], p[2], p[3]))), ..v }
        } else {
            v
        },
        HubPropertyReference::HwVersion => if p.len() >= 4 {
            HubPropertiesView { hardware_version: Some(version_of(le_u32(p[0], p[1], p[2], p[3]))), ..v }
        } else {
            v
        },
        HubPropertyReference::Rssi => HubPropertiesView { rssi: Some(signed_byte(first_or_zero(p))), ..v },
        HubPropertyReference::BatteryVoltage => HubPropertiesView {
            battery_level: if p.len() > 0 {
                Some(p[0])
            } else {
                None
            },
            ..v
        },
        HubPropertyReference::PrimaryMacAddress => if p.len() >= 6 {
            HubPropertiesView { primary_mac: Some(mac_text(p)), ..v }
        } else {
            v
        },
        _ => v,
    }
}

/// The properties after a property report arriving once the hub is ready:
/// only the battery level, RSSI and button state are updated.
pub open spec fn applied_when_ready(v: HubPropertiesView, property: HubPropertyReference, p: Seq<u8>) -> HubPropertiesView {
    match property {
        HubPropertyReference::BatteryVoltage => applied_at_init(v, property, p),
        HubPropertyReference::Rssi => applied_at_init(v, property, p),
        HubPropertyReference::Button => applied_at_init(v, property, p),
        _ => v,
    }
}

fn mac_string(p: &[u8]) -> (s: String)
    requires
        p@.len() >= 6,
    ensures
        s@ == mac_text(p@),
{
    let mut s = String::new();
    push_hex2(&mut s, p[0]);
    s.append(":");
    push_hex2(&mut s, p[1]);
    s.append(":");
    push_hex2(&mut s, p[2]);
    s.append(":");
    push_hex2(&mut s, p[3]);
    s.append(":");
    push_hex2(&mut s, p[4]);
    s.append(":");
    push_hex2(&mut s, p[5]);
    s
}

fn first_byte_or_zero(p: &[u8]) -> (b: u8)
    ensures
        b == first_or_zero(p@),
{
    if p.len() > 0 {
        p[0]
    } else {
        0
    }
}

fn as_signed(b: u8) -> (r: i8)
    ensures
        r == signed_byte(b),
{
    if b < 128 {
        b as i8
    } else {
        (b as i16 - 256) as i8
    }
}

impl HubProperties {
    /// Nothing known yet and the button released.
    pub fn new() -> (p: HubProperties)
        ensures
            p@ == (HubPropertiesView {
                firmware_version: None,
                hardware_version: None,
                battery_level: None,
                rssi: None,
                primary_mac: None,
                button_pressed: false,
            }),
    {
        HubProperties {
            firmware_version: None,
            hardware_version: None,
            battery_level: None,
            rssi: None,
            primary_mac: None,
            button_pressed: false,
        }
    }

    /// Record a property report received during initialization.
    pub fn apply_hub_property(&mut self, m: &HubPropertyMessage)
        ensures
            final(self)@ == applied_at_init(old(self)@, m.property, bytes_view(m.payload)),
    {
        let p = bytes_as_slice(&m.payload);
        match m.property {
            HubPropertyReference::Button => {
                self.button_pressed = first_byte_or_zero(p) != 0;
            },
            HubPropertyReference::FwVersion => {
                if p.len() >= 4 {
                    let raw = i32_from_le(p[0], p[1], p[2], p[3]);
                    self.firmware_version = Some(Version::from_le_i32(raw));
                }
            },
            HubPropertyReference::HwVersion => {
                if p.len() >= 4 {
                    let raw = i32_from_le(p[0], p[1], p[2], p[3]);
                    self.hardware_version = Some(Version::from_le_i32(raw));
                }
            },
            HubPropertyReference::Rssi => {
                self.rssi = Some(as_signed(first_byte_or_zero(p)));
            },
            HubPropertyReference::BatteryVoltage => {
                self.battery_level = if p.len() > 0 {
                    Some(p[0])
                } else {
                    None
                };
            },
            HubPropertyReference::PrimaryMacAddress => {
                if p.len() >= 6 {
                    self.primary_mac = Some(mac_string(p));
                }
            },
            _ => {},
        }
    }

    /// Record a property report received once the hub is ready.
    pub fn connected_apply_hub_property(&mut self, m: &HubPropertyMessage)
        ensures
            final(self)@ == applied_when_ready(old(self)@, m.property, bytes_view(m.payload)),
    {
        match m.property {
            HubPropertyReference::BatteryVoltage => self.apply_hub_property(m),
            HubPropertyReference::Rssi => self.apply_hub_property(m),
            HubPropertyReference::Button => self.apply_hub_property(m),
            _ => {},
        }
    }
}

impl Default for HubProperties {
    fn default() -> (p: HubProperties)
        ensures
            p@ == (HubPropertiesView {
                firmware_version: None,
                hardware_version: None,
                battery_level: None,
                rssi: None,
                primary_mac: None,
                button_pressed: false,
            }),
    {
        HubProperties::new()
    }
}

// ── Initialization ───────────────────────────────────────────────────────────

/// The request for a hub property: a `HUB_PROPERTIES` message with an empty payload.
pub fn hub_property_request(reference: HubPropertyReference, operation: HubPropertyOperation) -> (m: LpfMessage)
    ensures
        m@ == (LpfMessageView::HubProperty { property: reference, operation, payload: Seq::empty() }),
{
    LpfMessage::HubProperty(HubPropertyMessage { property: reference, operation, payload: bytes_new() })
}

/// The property request with an empty payload.
pub open spec fn request(property: HubPropertyReference, operation: HubPropertyOperation) -> LpfMessageView {
    LpfMessageView::HubProperty { property, operation, payload: Seq::empty() }
}

/// The requests initialization sends, in order: continuous reports of the
/// button, RSSI and battery voltage, then one report each of the firmware
/// version, hardware version and primary MAC address.
pub open spec fn initialization_request_views() -> Seq<LpfMessageView> {
    seq![
        request(HubPropertyReference::Button, HubPropertyOperation::EnableUpdatesDownstream),
        request(HubPropertyReference::Rssi, HubPropertyOperation::EnableUpdatesDownstream),
        request(HubPropertyReference::BatteryVoltage, HubPropertyOperation::EnableUpdatesDownstream),
        request(HubPropertyReference::FwVersion, HubPropertyOperation::RequestUpdateDownstream),
        request(HubPropertyReference::HwVersion, HubPropertyOperation::RequestUpdateDownstream),
        request(HubPropertyReference::PrimaryMacAddress, HubPropertyOperation::RequestUpdateDownstream),
    ]
}

/// The messages to send when initializing a connected hub, in order.
pub fn initialization_requests() -> (r: Vec<LpfMessage>)
    ensures
        r@.map_values(|m: LpfMessage| m@) == initialization_request_views(),
{
    let mut r: Vec<LpfMessage> = Vec::new();
    r.push(hub_property_request(HubPropertyReference::Button, HubPropertyOperation::EnableUpdatesDownstream));
    r.push(hub_property_request(HubPropertyReference::Rssi, HubPropertyOperation::EnableUpdatesDownstream));
    r.push(
        hub_property_request(HubPropertyReference::BatteryVoltage, HubPropertyOperation::EnableUpdatesDownstream),
    );
    r.push(hub_property_request(HubPropertyReference::FwVersion, HubPropertyOperation::RequestUpdateDownstream));
    r.push(hub_property_request(HubPropertyReference::HwVersion, HubPropertyOperation::RequestUpdateDownstream));
    r.push(
        hub_property_request(
            HubPropertyReference::PrimaryMacAddress,
            HubPropertyOperation::RequestUpdateDownstream,
        ),
    );
    assert(r@.map_values(|m: LpfMessage| m@) =~= initialization_request_views());
    r
}

/// The properties a hub must have reported before it is ready: its button
/// state, RSSI, battery level, firmware and hardware versions and primary MAC
/// address.
pub open spec fn mandatory_properties() -> Set<HubPropertyReference> {
    set![
        HubPropertyReference::Button,
        HubPropertyReference::Rssi,
        HubPropertyReference::BatteryVoltage,
        HubPropertyReference::FwVersion,
        HubPropertyReference::HwVersion,
        HubPropertyReference::PrimaryMacAddress,
    ]
}

/// Whether the properties hold a value for `property`: the button state is
/// always known, the other mandatory properties once their field is set.
pub open spec fn known(v: HubPropertiesView, property: HubPropertyReference) -> bool {
    match property {
        HubPropertyReference::Rssi => v.rssi is Some,
        HubPropertyReference::BatteryVoltage => v.battery_level is Some,
        HubPropertyReference::FwVersion => v.firmware_version is Some,
        HubPropertyReference::HwVersion => v.hardware_version is Some,
        HubPropertyReference::PrimaryMacAddress => v.primary_mac is Some,
        _ => true,
    }
}

/// Progress of initialization: the mandatory properties whose value is not
/// known yet, by their wire values.
pub struct Initialization {
    awaiting: HashSet<u8>,
}

impl Initialization {
    /// Every value awaited is the wire value of a hub property.
    #[verifier::type_invariant]
    spec fn awaits_properties(&self) -> bool {
        forall|v: u8| #[trigger] self.awaiting@.contains(v) ==> HubPropertyReference::spec_from_value(v) is Some
    }

    /// The mandatory properties whose value is not known yet.
    pub closed spec fn pending(&self) -> Set<HubPropertyReference> {
        Set::new(|r: HubPropertyReference| self.awaiting@.contains(r.spec_value()))
    }

    /// Every mandatory property that is no longer pending is known in `props`.
    pub open spec fn tracks(&self, props: HubPropertiesView) -> bool {
        forall|r: HubPropertyReference|
            #[trigger] mandatory_properties().contains(r) && !self.pending().contains(r) ==> known(props, r)
    }

    /// All mandatory properties pending.
    pub fn new() -> (s: Initialization)
        ensures
            s.pending() == mandatory_properties(),
            forall|props: HubPropertiesView| s.tracks(props),
    {
        let mut awaiting: HashSet<u8> = HashSet::new();
        awaiting.insert(HubPropertyReference::Button.value());
        awaiting.insert(HubPropertyReference::Rssi.value());
        awaiting.insert(HubPropertyReference::BatteryVoltage.value());
        awaiting.insert(HubPropertyReference::FwVersion.value());
        awaiting.insert(HubPropertyReference::HwVersion.value());
        awaiting.insert(HubPropertyReference::PrimaryMacAddress.value());
        let s = Initialization { awaiting };
        assert(s.pending() =~= mandatory_properties()) by {
            assert forall|r: HubPropertyReference| #[trigger] s.pending().contains(r) <==> mandatory_properties().contains(r) by {
                match r {
                    HubPropertyReference::AdvertisingName => {},
                    _ => {},
                }
            }
        }
        s
    }

    /// Whether the value of every mandatory property is known.
    pub fn is_complete(&self) -> (done: bool)
        ensures
            done == self.pending().is_empty(),
    {
        proof {
            use_type_invariant(self);
        }
        let done = self.awaiting.is_empty();
        proof {
            if !done {
                let v = self.awaiting@.choose();
                assert(self.awaiting@.contains(v));
                let r = HubPropertyReference::spec_from_value(v)->0;
                HubPropertyReference::lemma_decoded_value(v);
                assert(self.pending().contains(r));
            } else {
                assert(self.pending() =~= Set::<HubPropertyReference>::empty());
            }
        }
        done
    }

    /// Handle one parsed frame during initialization: a property report is
    /// recorded, and its property is pending afterwards exactly when its value
    /// is still not known (a report too short to fill the field leaves it
    /// pending); any other message and any parse error is ignored.
    pub fn on_frame(&mut self, props: &mut HubProperties, parsed: &Result<LpfMessage, Error>)
        ensures
            match parsed {
                Ok(LpfMessage::HubProperty(m)) => {
                    &&& final(props)@ == applied_at_init(old(props)@, m.property, bytes_view(m.payload))
                    &&& final(self).pending() == if known(final(props)@, m.property) {
                        old(self).pending().remove(m.property)
                    } else {
                        old(self).pending().insert(m.property)
                    }
                },
                _ => final(props)@ == old(props)@ && final(self).pending() == old(self).pending(),
            },
            old(self).tracks(old(props)@) ==> final(self).tracks(final(props)@),
    {
        proof {
            use_type_invariant(&*self);
        }
        if let Ok(LpfMessage::HubProperty(m)) = parsed {
            props.apply_hub_property(m);
            let is_known = match m.property {
                HubPropertyReference::Rssi => props.rssi.is_some(),
                HubPropertyReference::BatteryVoltage => props.battery_level.is_some(),
                HubPropertyReference::FwVersion => props.firmware_version.is_some(),
                HubPropertyReference::HwVersion => props.hardware_version.is_some(),
                HubPropertyReference::PrimaryMacAddress => props.primary_mac.is_some(),
                _ => true,
            };
            let v = m.property.value();
            let mut awaiting: HashSet<u8> = HashSet::new();
            std::mem::swap(&mut awaiting, &mut self.awaiting);
            let ghost before = awaiting@;
            if is_known {
                awaiting.remove(&v);
                assert(awaiting@ =~= before.remove(v));
            } else {
                awaiting.insert(v);
                assert(awaiting@ =~= before.insert(v));
                proof {
                    HubPropertyReference::lemma_value_decodes(m.property);
                }
            }
            self.awaiting = awaiting;
            proof {
                let expected = if is_known {
                    old(self).pending().remove(m.property)
                } else {
                    old(self).pending().insert(m.property)
                };
                assert forall|r: HubPropertyReference| #[trigger] self.pending().contains(r) <==> expected.contains(r) by {
                    HubPropertyReference::lemma_value_decodes(r);
                    HubPropertyReference::lemma_value_decodes(m.property);
                }
                assert(self.pending() =~= expected);
                if old(self).tracks(old(props)@) {
                    assert forall|r: HubPropertyReference|
                        #[trigger] mandatory_properties().contains(r) && !self.pending().contains(r) implies known(
                        props@,
                        r,
                    ) by {
                        if r != m.property {
                            assert(!old(self).pending().contains(r));
                            assert(known(old(props)@, r));
                        }
                    }
                }
            }
        }
    }
}

/// Once initialization is complete, while its progress has tracked the
/// properties, the RSSI, battery level, firmware and hardware versions and
/// primary MAC address are all known.
pub proof fn lemma_complete_initialization_knows_properties(s: Initialization, props: HubPropertiesView)
    requires
        s.tracks(props),
        s.pending().is_empty(),
    ensures
        props.rssi is Some,
        props.battery_level is Some,
        props.firmware_version is Some,
        props.hardware_version is Some,
        props.primary_mac is Some,
{
    assert(mandatory_properties().contains(HubPropertyReference::Rssi));
    assert(mandatory_properties().contains(HubPropertyReference::BatteryVoltage));
    assert(mandatory_properties().contains(HubPropertyReference::FwVersion));
    assert(mandatory_properties().contains(HubPropertyReference::HwVersion));
    assert(mandatory_properties().contains(HubPropertyReference::PrimaryMacAddress));
}

// ── Attached devices ─────────────────────────────────────────────────────────

/// `new` is `old` with a freshly made device for type `device_type_id` on `port`.
pub open spec fn attached(old: Map<u8, AnyDevice>, new: Map<u8, AnyDevice>, port: u8, device_type_id: u16) -> bool {
    &&& new.dom() == old.dom().insert(port)
    &&& forall|k: u8| k != port && #[trigger] old.contains_key(k) ==> new[k] == old[k]
    &&& new[port].port() == port
    &&& new[port].type_id() == device_type_id
    &&& new[port].is_fresh()
}

/// How a ready hub's devices and properties change for one message: attach
/// records add (or replace) a fresh device on the port when they carry the
/// device record, detach records remove the port, mode notifications set the
/// mode of the device on the port, property reports update the properties;
/// nothing else changes anything.
pub open spec fn handles(
    old_devices: Map<u8, AnyDevice>,
    old_props: HubPropertiesView,
    msg: LpfMessageView,
    new_devices: Map<u8, AnyDevice>,
    new_props: HubPropertiesView,
) -> bool {
    match msg {
        LpfMessageView::HubAttachedIo(m) => new_props == old_props && match m.event {
            IoEvent::AttachedIo => match m.attached {
                Some(info) => attached(old_devices, new_devices, m.port_id, info.device_type_id),
                None => new_devices == old_devices,
            },
            IoEvent::AttachedVirtualIo => match m.virtual_attached {
                Some(info) => attached(old_devices, new_devices, m.port_id, info.device_type_id),
                None => new_devices == old_devices,
            },
            IoEvent::DetachedIo => new_devices == old_devices.remove(m.port_id),
        },
        LpfMessageView::HubProperty { property, payload, .. } => new_devices == old_devices && new_props
            == applied_when_ready(old_props, property, payload),
        LpfMessageView::PortInputFormatSingle(m) => new_props == old_props && new_devices == if old_devices.contains_key(
            m.port_id,
        ) {
            old_devices.insert(m.port_id, old_devices[m.port_id].with_mode(m.mode))
        } else {
            old_devices
        },
        _ => new_devices == old_devices && new_props == old_props,
    }
}

/// What a ready hub does with a property report: a button report sets the
/// button state to whether the first payload byte is nonzero (released when the
/// payload is empty), a battery report sets the level to the first byte (unknown
/// when empty), an RSSI report sets the RSSI to the first byte read as a signed
/// byte (0 when empty); every other field, every other report and the attached
/// devices stay as they were.
pub proof fn lemma_ready_hub_live_properties(
    d0: Map<u8, AnyDevice>,
    p0: HubPropertiesView,
    msg: LpfMessageView,
    d1: Map<u8, AnyDevice>,
    p1: HubPropertiesView,
)
    requires
        msg is HubProperty,
        handles(d0, p0, msg, d1, p1),
    ensures
        d1 == d0,
        msg->HubProperty_property == HubPropertyReference::Button ==> p1 == (HubPropertiesView {
            button_pressed: msg->HubProperty_payload.len() > 0 && msg->HubProperty_payload[0] != 0,
            ..p0
        }),
        msg->HubProperty_property == HubPropertyReference::BatteryVoltage ==> p1 == (HubPropertiesView {
            battery_level: if msg->HubProperty_payload.len() > 0 {
                Some(msg->HubProperty_payload[0])
            } else {
                None
            },
            ..p0
        }),
        msg->HubProperty_property == HubPropertyReference::Rssi ==> {
            let b: int = if msg->HubProperty_payload.len() > 0 { msg->HubProperty_payload[0] as int } else { 0 };
            &&& p1.rssi matches Some(r) && r as int == (if b < 128 { b } else { b - 256 })
            &&& p1 == (HubPropertiesView { rssi: p1.rssi, ..p0 })
        },
        msg->HubProperty_property != HubPropertyReference::Button && msg->HubProperty_property
            != HubPropertyReference::BatteryVoltage && msg->HubProperty_property != HubPropertyReference::Rssi
            ==> p1 == p0,
{
    let payload = msg->HubProperty_payload;
    if msg->HubProperty_property == HubPropertyReference::Rssi {
        let b: u8 = first_or_zero(payload);
        assert(signed_byte(b) as int == (if b < 128 { b as int } else { b - 256 })) by (bit_vector);
    }
}

/// The devices attached to a ready hub, by port.
pub struct DeviceRegistry {
    devices: HashMap<u8, AnyDevice>,
}

impl DeviceRegistry {
    /// The attached devices, by port.
    pub closed spec fn view(&self) -> Map<u8, AnyDevice> {
        self.devices@
    }

    /// No device attached.
    pub fn new() -> (r: DeviceRegistry)
        ensures
            r.view() == Map::<u8, AnyDevice>::empty(),
    {
        DeviceRegistry { devices: HashMap::new() }
    }

    /// Devices currently attached, keyed by port ID.
    pub fn devices(&self) -> (d: &HashMap<u8, AnyDevice>)
        ensures
            d@ == self.view(),
    {
        &self.devices
    }

    fn attach(&mut self, port_id: u8, device_type_id: u16)
        ensures
            attached(old(self).view(), final(self).view(), port_id, device_type_id),
    {
        let d = DeviceFactory::create(device_type_id, port_id);
        self.devices.insert(port_id, d);
    }

    /// Update the devices and properties of a ready hub for one received message.
    pub fn handle_message(&mut self, props: &mut HubProperties, msg: &LpfMessage)
        ensures
            handles(old(self).view(), old(props)@, msg@, final(self).view(), final(props)@),
    {
        match msg {
            LpfMessage::HubAttachedIo(m) => match m.event {
                IoEvent::AttachedIo => {
                    if let Some(info) = &m.attached {
                        self.attach(m.port_id, info.device_type_id);
                    }
                },
                IoEvent::AttachedVirtualIo => {
                    if let Some(info) = &m.virtual_attached {
                        self.attach(m.port_id, info.device_type_id);
                    }
                },
                IoEvent::DetachedIo => {
                    self.devices.remove(&m.port_id);
                    assert(self.devices@ =~= old(self).devices@.remove(m.port_id));
                },
            },
            LpfMessage::HubProperty(m) => props.connected_apply_hub_property(m),
            LpfMessage::PortInputFormatSingle(m) => {
                let ghost before = self.devices@;
                if let Some(mut dev) = self.devices.remove(&m.port_id) {
                    dev.set_mode(m.mode);
                    self.devices.insert(m.port_id, dev);
                    assert(self.devices@ =~= before.insert(m.port_id, before[m.port_id].with_mode(m.mode)));
                } else {
                    assert(self.devices@ =~= before);
                }
            },
            LpfMessage::PortValueSingle(v) => {
                let ghost before = self.devices@;
                if let Some(mut dev) = self.devices.remove(&v.port_id) {
                    let _event = dev.receive(bytes_as_slice(&v.data));
                    self.devices.insert(v.port_id, dev);
                    assert(self.devices@ =~= before);
                } else {
                    assert(self.devices@ =~= before);
                }
            },
            _ => {},
        }
    }
}

/// Attaching a device to a port and then detaching that port leaves the
/// registry as it was without the port, and the properties as they were.
pub proof fn lemma_attach_then_detach(
    d0: Map<u8, AnyDevice>,
    p0: HubPropertiesView,
    attach: LpfMessageView,
    d1: Map<u8, AnyDevice>,
    p1: HubPropertiesView,
    detach: LpfMessageView,
    d2: Map<u8, AnyDevice>,
    p2: HubPropertiesView,
)
    requires
        attach matches LpfMessageView::HubAttachedIo(a) && a.event == IoEvent::AttachedIo,
        detach matches LpfMessageView::HubAttachedIo(b) && b.event == IoEvent::DetachedIo,
        attach->HubAttachedIo_0.port_id == detach->HubAttachedIo_0.port_id,
        handles(d0, p0, attach, d1, p1),
        handles(d1, p1, detach, d2, p2),
    ensures
        d2 == d0.remove(detach->HubAttachedIo_0.port_id),
        p2 == p0,
{
    let port = detach->HubAttachedIo_0.port_id;
    assert(d2 =~= d0.remove(port));
}

} // verus!
