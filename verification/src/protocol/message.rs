//! LPF2 message codec: the boundary where raw notification bytes become typed
//! messages and commands become bytes.
//!
//! Wire format (little-endian):
//! ```text
//! [0]        length   – total message length including this byte
//! [1]        0x00     – reserved / hub ID (always 0x00 for Powered UP)
//! [2]        type     – MessageType discriminant
//! [3..]      payload  – type-specific bytes
//! ```
//!
//! Reference: <https://lego.github.io/lego-ble-wireless-protocol-docs/>

use bytes::{Bytes, BytesMut};

use super::consts::{
    unknown_discriminant_text, ActionType, AlertPayload, AlertType, CommandFeedback,
    HubPropertyOperation, HubPropertyReference, IoEvent, MessageType,
};
use crate::buffer::{
    bytes_as_slice, bytes_copy_from_slice, bytes_from_vec, bytes_mut_as_slice,
    bytes_mut_extend_from_slice, bytes_mut_freeze, bytes_mut_new, bytes_mut_split_to,
    bytes_mut_view, bytes_new, bytes_view,
};
use crate::error::Error;
use crate::text::{decimal, hex, hex2, push_decimal, push_hex, push_hex2};
use vstd::prelude::*;

verus! {

// ── Little-endian integers ───────────────────────────────────────────────────

/// The unsigned 16-bit value of two little-endian bytes.
pub open spec fn le_u16(b0: u8, b1: u8) -> u16 {
    (b0 + 256 * b1) as u16
}

/// The unsigned 32-bit value of four little-endian bytes.
pub open spec fn le_u32(b0: u8, b1: u8, b2: u8, b3: u8) -> u32 {
    (b0 + 256 * b1 + 65536 * b2 + 16777216 * b3) as u32
}

/// Reads a little-endian `u16`.
pub fn u16_from_le(b0: u8, b1: u8) -> (r: u16)
    ensures
        r == le_u16(b0, b1),
{
    b0 as u16 + (b1 as u16) * 256
}

/// Reads a little-endian `u32`.
pub fn u32_from_le(b0: u8, b1: u8, b2: u8, b3: u8) -> (r: u32)
    ensures
        r == le_u32(b0, b1, b2, b3),
{
    b0 as u32 + (b1 as u32) * 256 + (b2 as u32) * 65536 + (b3 as u32) * 16777216
}

/// Reads a little-endian `i32` (the two's-complement reading of the same bits).
pub fn i32_from_le(b0: u8, b1: u8, b2: u8, b3: u8) -> (r: i32)
    ensures
        r as u32 == le_u32(b0, b1, b2, b3),
        r == le_u32(b0, b1, b2, b3) as i32,
{
    let u = u32_from_le(b0, b1, b2, b3);
    let r = u as i32;
    assert(r as u32 == u) by (bit_vector)
        requires
            r == u as i32,
    ;
    r
}

// ── Version ──────────────────────────────────────────────────────────────────

/// Firmware / hardware version as the hub reports it.
#[derive(Debug, Clone, PartialEq, Eq)]
pub struct Version {
    pub major: u8,
    pub minor: u8,
    pub patch: u8,
    pub build: u16,
}

/// The version encoded by the 32 bits `u`: written as eight hex digits, the
/// first is the major, the second the minor, the next two the patch and the
/// last four the build number.
pub open spec fn version_of(u: u32) -> Version {
    Version {
        major: (u / 0x1000_0000) as u8,
        minor: ((u / 0x100_0000) % 16) as u8,
        patch: ((u / 0x1_0000) % 256) as u8,
        build: (u % 0x1_0000) as u16,
    }
}

/// The text of a version, as the hubs' version decoding writes it: the eight
/// hex digits grouped as `major.minor.patch.build`, the patch as two digits and
/// the build as four.
pub open spec fn version_text(v: Version) -> Seq<char> {
    hex(v.major as nat) + "."@ + hex(v.minor as nat) + "."@ + hex2(v.patch) + "."@ + hex2((v.build / 256) as u8)
        + hex2((v.build % 256) as u8)
}

impl Version {
    /// Decode from the little-endian `i32` on the wire.
    pub fn from_le_i32(raw: i32) -> (v: Version)
        ensures
            v == version_of(raw as u32),
    {
        let u = raw as u32;
        Version {
            major: (u / 0x1000_0000) as u8,
            minor: ((u / 0x100_0000) % 16) as u8,
            patch: ((u / 0x1_0000) % 256) as u8,
            build: (u % 0x1_0000) as u16,
        }
    }

    /// The version as text, e.g. `1.0.02.0016`.
    pub fn to_string(&self) -> (s: String)
        ensures
            s@ == version_text(*self),
    {
        let mut s = String::new();
        push_hex(&mut s, self.major as u64);
        s.append(".");
        push_hex(&mut s, self.minor as u64);
        s.append(".");
        push_hex2(&mut s, self.patch);
        s.append(".");
        push_hex2(&mut s, (self.build / 256) as u8);
        push_hex2(&mut s, (self.build % 256) as u8);
        s
    }
}

// ── Messages ─────────────────────────────────────────────────────────────────

/// A fully-parsed LPF2 upstream or downstream message.
#[derive(Debug, Clone, PartialEq)]
pub enum LpfMessage {
    /// Hub property report or request (0x01).
    HubProperty(HubPropertyMessage),
    /// Hub action command or notification (0x02).
    HubAction(ActionType),
    /// Hub alert notification (0x03).
    HubAlert(HubAlertMessage),
    /// Port attach / detach event (0x04).
    HubAttachedIo(HubAttachedIoMessage),
    /// Hub-to-host error response (0x05).
    GenericError { command: u8, code: u8 },
    /// Subscribe / unsubscribe a port to a sensor mode (0x41).
    PortInputFormatSetupSingle(PortInputFormatSetupSingle),
    /// Sensor value notification (0x45).
    PortValueSingle(PortValueSingle),
    /// Active mode notification (0x47).
    PortInputFormatSingle(PortInputFormatSingle),
    /// Motor / actuator command (0x81).
    PortOutputCommand(PortOutputCommand),
    /// Command completion feedback (0x82).
    PortOutputCommandFeedback(PortOutputCommandFeedback),
    /// A message type received but not decoded — not an error.
    Unknown { message_type: u8, payload: Bytes },
}

/// Parsed `HUB_PROPERTIES` message.
#[derive(Debug, Clone, PartialEq)]
pub struct HubPropertyMessage {
    pub property: HubPropertyReference,
    pub operation: HubPropertyOperation,
    /// Raw payload bytes after the operation byte (type-dependent).
    pub payload: Bytes,
}

/// Parsed `HUB_ALERTS` message.
#[derive(Debug, Clone, PartialEq)]
pub struct HubAlertMessage {
    pub alert_type: AlertType,
    pub payload: AlertPayload,
}

/// Parsed `HUB_ATTACHED_IO` message.
#[derive(Debug, Clone, PartialEq)]
pub struct HubAttachedIoMessage {
    pub port_id: u8,
    pub event: IoEvent,
    /// Present for an `AttachedIo` event that carries the full record.
    pub attached: Option<AttachedIoInfo>,
    /// Present for an `AttachedVirtualIo` event that carries the full record.
    pub virtual_attached: Option<VirtualIoInfo>,
}

/// Details of a physically attached device.
#[derive(Debug, Clone, PartialEq)]
pub struct AttachedIoInfo {
    /// Raw device type ID from the wire (maps to `DeviceType`).
    pub device_type_id: u16,
    pub hw_version: Version,
    pub sw_version: Version,
}

/// Details of a virtual device combining two ports.
#[derive(Debug, Clone, PartialEq)]
pub struct VirtualIoInfo {
    pub device_type_id: u16,
    pub first_port_id: u8,
    pub second_port_id: u8,
}

/// Parsed `PORT_INPUT_FORMAT_SETUP_SINGLE` (0x41).
#[derive(Debug, Clone, PartialEq, Eq)]
pub struct PortInputFormatSetupSingle {
    pub port_id: u8,
    pub mode: u8,
    /// Delta interval (little-endian u32).
    pub delta: u32,
    /// `true` = subscribe, `false` = unsubscribe.
    pub enable_notifications: bool,
}

/// Parsed `PORT_VALUE_SINGLE` sensor notification (0x45).
#[derive(Debug, Clone, PartialEq)]
pub struct PortValueSingle {
    pub port_id: u8,
    /// Raw sensor bytes — decoded by the device layer.
    pub data: Bytes,
}

/// Parsed `PORT_INPUT_FORMAT_SINGLE` active-mode notification (0x47).
#[derive(Debug, Clone, PartialEq, Eq)]
pub struct PortInputFormatSingle {
    pub port_id: u8,
    pub mode: u8,
}

/// Parsed `PORT_OUTPUT_COMMAND` (0x81).
#[derive(Debug, Clone, PartialEq)]
pub struct PortOutputCommand {
    pub port_id: u8,
    pub startup_and_completion: u8,
    /// Subcommand and parameters — interpreted by the device layer.
    pub payload: Bytes,
}

/// Parsed `PORT_OUTPUT_COMMAND_FEEDBACK` (0x82); one frame may carry feedback
/// for several ports.
#[derive(Debug, Clone, PartialEq)]
pub struct PortOutputCommandFeedback {
    /// `(port_id, feedback)` pairs.
    pub entries: Vec<(u8, CommandFeedback)>,
}

/// A message with every byte buffer taken by its contents.
pub enum LpfMessageView {
    HubProperty { property: HubPropertyReference, operation: HubPropertyOperation, payload: Seq<u8> },
    HubAction(ActionType),
    HubAlert(HubAlertMessage),
    HubAttachedIo(HubAttachedIoMessage),
    GenericError { command: u8, code: u8 },
    PortInputFormatSetupSingle(PortInputFormatSetupSingle),
    PortValueSingle { port_id: u8, data: Seq<u8> },
    PortInputFormatSingle(PortInputFormatSingle),
    PortOutputCommand { port_id: u8, startup_and_completion: u8, payload: Seq<u8> },
    PortOutputCommandFeedback(Seq<(u8, CommandFeedback)>),
    Unknown { message_type: u8, payload: Seq<u8> },
}

impl View for LpfMessage {
    type V = LpfMessageView;

    open spec fn view(&self) -> LpfMessageView {
        match self {
            LpfMessage::HubProperty(m) => LpfMessageView::HubProperty {
                property: m.property,
                operation: m.operation,
                payload: bytes_view(m.payload),
            },
            LpfMessage::HubAction(a) => LpfMessageView::HubAction(*a),
            LpfMessage::HubAlert(m) => LpfMessageView::HubAlert(*m),
            LpfMessage::HubAttachedIo(m) => LpfMessageView::HubAttachedIo(*m),
            LpfMessage::GenericError { command, code } => LpfMessageView::GenericError {
                command: *command,
                code: *code,
            },
            LpfMessage::PortInputFormatSetupSingle(m) => LpfMessageView::PortInputFormatSetupSingle(*m),
            LpfMessage::PortValueSingle(v) => LpfMessageView::PortValueSingle {
                port_id: v.port_id,
                data: bytes_view(v.data),
            },
            LpfMessage::PortInputFormatSingle(m) => LpfMessageView::PortInputFormatSingle(*m),
            LpfMessage::PortOutputCommand(m) => LpfMessageView::PortOutputCommand {
                port_id: m.port_id,
                startup_and_completion: m.startup_and_completion,
                payload: bytes_view(m.payload),
            },
            LpfMessage::PortOutputCommandFeedback(f) => LpfMessageView::PortOutputCommandFeedback(
                f.entries@,
            ),
            LpfMessage::Unknown { message_type, payload } => LpfMessageView::Unknown {
                message_type: *message_type,
                payload: bytes_view(*payload),
            },
        }
    }
}

// ── Parsing, as a specification ──────────────────────────────────────────────

/// The outcome a parse must have: the message, or the detail of the parse error.
pub type ParseOutcome = Result<LpfMessageView, Seq<char>>;

/// An executable parse result agrees with the specified outcome.
pub open spec fn agrees(r: Result<LpfMessage, Error>, s: ParseOutcome) -> bool {
    match s {
        Ok(v) => r matches Ok(m) && m@ == v,
        Err(detail) => r matches Err(e) && e.is_parse_with(detail),
    }
}

pub open spec fn spec_parse_hub_property(p: Seq<u8>) -> ParseOutcome {
    if p.len() < 2 {
        Err("HubProperty payload too short"@)
    } else {
        match HubPropertyReference::spec_from_value(p[0]) {
            None => Err(unknown_discriminant_text("HubPropertyReference"@, p[0] as nat)),
            Some(property) => match HubPropertyOperation::spec_from_value(p[1]) {
                None => Err(unknown_discriminant_text("HubPropertyOperation"@, p[1] as nat)),
                Some(operation) => Ok(
                    LpfMessageView::HubProperty { property, operation, payload: p.skip(2) },
                ),
            },
        }
    }
}

pub open spec fn spec_parse_hub_action(p: Seq<u8>) -> ParseOutcome {
    if p.len() == 0 {
        Err("HubAction payload empty"@)
    } else {
        match ActionType::spec_from_value(p[0]) {
            None => Err(unknown_discriminant_text("ActionType"@, p[0] as nat)),
            Some(a) => Ok(LpfMessageView::HubAction(a)),
        }
    }
}

pub open spec fn spec_parse_hub_alert(p: Seq<u8>) -> ParseOutcome {
    if p.len() < 2 {
        Err("HubAlert payload too short"@)
    } else {
        match AlertType::spec_from_value(p[0]) {
            None => Err(unknown_discriminant_text("AlertType"@, p[0] as nat)),
            Some(alert_type) => match AlertPayload::spec_from_value(p[1]) {
                None => Err(unknown_discriminant_text("AlertPayload"@, p[1] as nat)),
                Some(payload) => Ok(LpfMessageView::HubAlert(HubAlertMessage { alert_type, payload })),
            },
        }
    }
}

/// The attach record of a `HUB_ATTACHED_IO` payload (valid when it has at least twelve bytes).
pub open spec fn spec_attached_info(p: Seq<u8>) -> AttachedIoInfo {
    AttachedIoInfo {
        device_type_id: le_u16(p[2], p[3]),
        hw_version: version_of(le_u32(p[4], p[5], p[6], p[7])),
        sw_version: version_of(le_u32(p[8], p[9], p[10], p[11])),
    }
}

/// The virtual attach record of a `HUB_ATTACHED_IO` payload (valid when it has at least six bytes).
pub open spec fn spec_virtual_info(p: Seq<u8>) -> VirtualIoInfo {
    VirtualIoInfo { device_type_id: le_u16(p[2], p[3]), first_port_id: p[4], second_port_id: p[5] }
}

/// An attach record comes with every attach event: twelve bytes for a device,
/// six for a virtual one; a payload too short to hold its record is an error.
pub open spec fn spec_parse_hub_attached_io(p: Seq<u8>) -> ParseOutcome {
    if p.len() == 0 {
        Err("HubAttachedIo payload empty"@)
    } else if p.len() < 2 {
        Err("HubAttachedIo payload too short"@)
    } else {
        match IoEvent::spec_from_value(p[1]) {
            None => Err(unknown_discriminant_text("IoEvent"@, p[1] as nat)),
            Some(IoEvent::AttachedIo) => if p.len() < 12 {
                Err("HubAttachedIo attach record too short"@)
            } else {
                Ok(
                    LpfMessageView::HubAttachedIo(
                        HubAttachedIoMessage {
                            port_id: p[0],
                            event: IoEvent::AttachedIo,
                            attached: Some(spec_attached_info(p)),
                            virtual_attached: None,
                        },
                    ),
                )
            },
            Some(IoEvent::AttachedVirtualIo) => if p.len() < 6 {
                Err("HubAttachedIo virtual attach record too short"@)
            } else {
                Ok(
                    LpfMessageView::HubAttachedIo(
                        HubAttachedIoMessage {
                            port_id: p[0],
                            event: IoEvent::AttachedVirtualIo,
                            attached: None,
                            virtual_attached: Some(spec_virtual_info(p)),
                        },
                    ),
                )
            },
            Some(IoEvent::DetachedIo) => Ok(
                LpfMessageView::HubAttachedIo(
                    HubAttachedIoMessage {
                        port_id: p[0],
                        event: IoEvent::DetachedIo,
                        attached: None,
                        virtual_attached: None,
                    },
                ),
            ),
        }
    }
}

/// A `PORT_INPUT_FORMAT_SINGLE` frame (type byte 0x47) whose declared payload
/// holds at least two bytes parses to the port in the first payload byte and
/// the mode in the second; a shorter one is an error.
pub proof fn lemma_port_mode_notification(buf: Seq<u8>)
    requires
        buf.len() >= buf[0] >= 3,
        buf[2] == 0x47,
    ensures
        buf[0] >= 5 ==> spec_parse(buf) == Ok::<LpfMessageView, Seq<char>>(
            LpfMessageView::PortInputFormatSingle(PortInputFormatSingle { port_id: buf[3], mode: buf[4] }),
        ),
        buf[0] < 5 ==> spec_parse(buf) is Err,
{
    let p = buf.subrange(3, buf[0] as int);
    assert(spec_parse(buf) == spec_parse_payload(0x47, p));
    if buf[0] >= 5 {
        assert(p[0] == buf[3] && p[1] == buf[4]);
    }
}

/// An attach event parsed from any frame carries its record: the device record
/// exactly for an attach, the virtual record exactly for a virtual attach.
pub proof fn lemma_attach_events_carry_records(buf: Seq<u8>)
    ensures
        spec_parse(buf) matches Ok(LpfMessageView::HubAttachedIo(m)) ==> {
            &&& (m.attached is Some <==> m.event == IoEvent::AttachedIo)
            &&& (m.virtual_attached is Some <==> m.event == IoEvent::AttachedVirtualIo)
        },
{
}

pub open spec fn spec_parse_generic_error(p: Seq<u8>) -> ParseOutcome {
    if p.len() < 2 {
        Err("GenericError payload too short"@)
    } else {
        Ok(LpfMessageView::GenericError { command: p[0], code: p[1] })
    }
}

pub open spec fn spec_parse_port_input_format_setup(p: Seq<u8>) -> ParseOutcome {
    if p.len() < 7 {
        Err("PortInputFormatSetup payload too short"@)
    } else {
        Ok(
            LpfMessageView::PortInputFormatSetupSingle(
                PortInputFormatSetupSingle {
                    port_id: p[0],
                    mode: p[1],
                    delta: le_u32(p[2], p[3], p[4], p[5]),
                    enable_notifications: p[6] != 0,
                },
            ),
        )
    }
}

pub open spec fn spec_parse_port_value_single(p: Seq<u8>) -> ParseOutcome {
    if p.len() == 0 {
        Err("PortValueSingle payload empty"@)
    } else {
        Ok(LpfMessageView::PortValueSingle { port_id: p[0], data: p.skip(1) })
    }
}

pub open spec fn spec_parse_port_input_format_single(p: Seq<u8>) -> ParseOutcome {
    if p.len() < 2 {
        Err("PortInputFormatSingle payload too short"@)
    } else {
        Ok(LpfMessageView::PortInputFormatSingle(PortInputFormatSingle { port_id: p[0], mode: p[1] }))
    }
}

pub open spec fn spec_parse_port_output_command(p: Seq<u8>) -> ParseOutcome {
    if p.len() < 2 {
        Err("PortOutputCommand payload too short"@)
    } else {
        Ok(
            LpfMessageView::PortOutputCommand {
                port_id: p[0],
                startup_and_completion: p[1],
                payload: p.skip(2),
            },
        )
    }
}

/// The `(port, feedback)` pairs of `p` from pair index `i` on; the first pair
/// whose feedback byte is unknown is the error.
pub open spec fn spec_feedback_entries_from(p: Seq<u8>, i: nat) -> Result<Seq<(u8, CommandFeedback)>, Seq<char>>
    decreases p.len() - 2 * i,
{
    if 2 * i + 2 > p.len() {
        Ok(Seq::empty())
    } else {
        match CommandFeedback::spec_from_value(p[2 * i + 1 as int]) {
            None => Err(unknown_discriminant_text("CommandFeedback"@, p[2 * i + 1 as int] as nat)),
            Some(fb) => match spec_feedback_entries_from(p, i + 1) {
                Ok(rest) => Ok(seq![(p[2 * i as int], fb)] + rest),
                Err(e) => Err(e),
            },
        }
    }
}

pub open spec fn spec_parse_port_output_feedback(p: Seq<u8>) -> ParseOutcome {
    if p.len() < 2 || p.len() % 2 != 0 {
        Err("PortOutputCommandFeedback unexpected payload length "@ + decimal(p.len()))
    } else {
        match spec_feedback_entries_from(p, 0) {
            Ok(entries) => Ok(LpfMessageView::PortOutputCommandFeedback(entries)),
            Err(e) => Err(e),
        }
    }
}

/// What the payload `p` of a frame of message type `t` parses to.
pub open spec fn spec_parse_payload(t: u8, p: Seq<u8>) -> ParseOutcome {
    match MessageType::spec_from_value(t) {
        Some(MessageType::HubProperties) => spec_parse_hub_property(p),
        Some(MessageType::HubActions) => spec_parse_hub_action(p),
        Some(MessageType::HubAlerts) => spec_parse_hub_alert(p),
        Some(MessageType::HubAttachedIo) => spec_parse_hub_attached_io(p),
        Some(MessageType::GenericErrorMessages) => spec_parse_generic_error(p),
        Some(MessageType::PortInputFormatSetupSingle) => spec_parse_port_input_format_setup(p),
        Some(MessageType::PortValueSingle) => spec_parse_port_value_single(p),
        Some(MessageType::PortInputFormatSingle) => spec_parse_port_input_format_single(p),
        Some(MessageType::PortOutputCommand) => spec_parse_port_output_command(p),
        Some(MessageType::PortOutputCommandFeedback) => spec_parse_port_output_feedback(p),
        _ => Ok(LpfMessageView::Unknown { message_type: t, payload: p }),
    }
}

/// What parsing one frame gives.
pub open spec fn spec_parse(buf: Seq<u8>) -> ParseOutcome {
    if buf.len() < 3 {
        Err("frame too short: "@ + decimal(buf.len()) + " bytes"@)
    } else if buf.len() < buf[0] {
        Err("frame truncated: declared "@ + decimal(buf[0] as nat) + ", got "@ + decimal(buf.len()))
    } else if buf[0] < 3 {
        Err("frame too short: declared "@ + decimal(buf[0] as nat) + " bytes"@)
    } else {
        spec_parse_payload(buf[2], buf.subrange(3, buf[0] as int))
    }
}

// ── Parsing ──────────────────────────────────────────────────────────────────

fn parse_hub_property(payload: &[u8]) -> (r: Result<LpfMessage, Error>)
    ensures
        agrees(r, spec_parse_hub_property(payload@)),
{
    if payload.len() < 2 {
        return Err(Error::Parse(String::from_str("HubProperty payload too short")));
    }
    let property = match HubPropertyReference::try_from(payload[0]) {
        Ok(p) => p,
        Err(e) => return Err(e),
    };
    let operation = match HubPropertyOperation::try_from(payload[1]) {
        Ok(o) => o,
        Err(e) => return Err(e),
    };
    Ok(
        LpfMessage::HubProperty(
            HubPropertyMessage {
                property,
                operation,
                payload: bytes_copy_from_slice(&payload[2..payload.len()]),
            },
        ),
    )
}

fn parse_hub_action(payload: &[u8]) -> (r: Result<LpfMessage, Error>)
    ensures
        agrees(r, spec_parse_hub_action(payload@)),
{
    if payload.len() == 0 {
        return Err(Error::Parse(String::from_str("HubAction payload empty")));
    }
    match ActionType::try_from(payload[0]) {
        Ok(a) => Ok(LpfMessage::HubAction(a)),
        Err(e) => Err(e),
    }
}

fn parse_hub_alert(payload: &[u8]) -> (r: Result<LpfMessage, Error>)
    ensures
        agrees(r, spec_parse_hub_alert(payload@)),
{
    if payload.len() < 2 {
        return Err(Error::Parse(String::from_str("HubAlert payload too short")));
    }
    let alert_type = match AlertType::try_from(payload[0]) {
        Ok(a) => a,
        Err(e) => return Err(e),
    };
    let alert_payload = match AlertPayload::try_from(payload[1]) {
        Ok(a) => a,
        Err(e) => return Err(e),
    };
    Ok(LpfMessage::HubAlert(HubAlertMessage { alert_type, payload: alert_payload }))
}

fn parse_hub_attached_io(payload: &[u8]) -> (r: Result<LpfMessage, Error>)
    ensures
        agrees(r, spec_parse_hub_attached_io(payload@)),
{
    if payload.len() == 0 {
        return Err(Error::Parse(String::from_str("HubAttachedIo payload empty")));
    }
    if payload.len() < 2 {
        return Err(Error::Parse(String::from_str("HubAttachedIo payload too short")));
    }
    let port_id = payload[0];
    let event = match IoEvent::try_from(payload[1]) {
        Ok(e) => e,
        Err(e) => return Err(e),
    };
    match event {
        IoEvent::AttachedIo => {
            if payload.len() < 12 {
                return Err(Error::Parse(String::from_str("HubAttachedIo attach record too short")));
            }
            let device_type_id = u16_from_le(payload[2], payload[3]);
            let hw_raw = i32_from_le(payload[4], payload[5], payload[6], payload[7]);
            let sw_raw = i32_from_le(payload[8], payload[9], payload[10], payload[11]);
            let info = AttachedIoInfo {
                device_type_id,
                hw_version: Version::from_le_i32(hw_raw),
                sw_version: Version::from_le_i32(sw_raw),
            };
            Ok(
                LpfMessage::HubAttachedIo(
                    HubAttachedIoMessage { port_id, event, attached: Some(info), virtual_attached: None },
                ),
            )
        },
        IoEvent::AttachedVirtualIo => {
            if payload.len() < 6 {
                return Err(Error::Parse(String::from_str("HubAttachedIo virtual attach record too short")));
            }
            let info = VirtualIoInfo {
                device_type_id: u16_from_le(payload[2], payload[3]),
                first_port_id: payload[4],
                second_port_id: payload[5],
            };
            Ok(
                LpfMessage::HubAttachedIo(
                    HubAttachedIoMessage { port_id, event, attached: None, virtual_attached: Some(info) },
                ),
            )
        },
        IoEvent::DetachedIo => Ok(
            LpfMessage::HubAttachedIo(
                HubAttachedIoMessage { port_id, event, attached: None, virtual_attached: None },
            ),
        ),
    }
}

fn parse_generic_error(payload: &[u8]) -> (r: Result<LpfMessage, Error>)
    ensures
        agrees(r, spec_parse_generic_error(payload@)),
{
    if payload.len() < 2 {
        return Err(Error::Parse(String::from_str("GenericError payload too short")));
    }
    Ok(LpfMessage::GenericError { command: payload[0], code: payload[1] })
}

fn parse_port_input_format_setup(payload: &[u8]) -> (r: Result<LpfMessage, Error>)
    ensures
        agrees(r, spec_parse_port_input_format_setup(payload@)),
{
    if payload.len() < 7 {
        return Err(Error::Parse(String::from_str("PortInputFormatSetup payload too short")));
    }
    Ok(
        LpfMessage::PortInputFormatSetupSingle(
            PortInputFormatSetupSingle {
                port_id: payload[0],
                mode: payload[1],
                delta: u32_from_le(payload[2], payload[3], payload[4], payload[5]),
                enable_notifications: payload[6] != 0,
            },
        ),
    )
}

fn parse_port_value_single(payload: &[u8]) -> (r: Result<LpfMessage, Error>)
    ensures
        agrees(r, spec_parse_port_value_single(payload@)),
{
    if payload.len() == 0 {
        return Err(Error::Parse(String::from_str("PortValueSingle payload empty")));
    }
    Ok(
        LpfMessage::PortValueSingle(
            PortValueSingle {
                port_id: payload[0],
                data: bytes_copy_from_slice(&payload[1..payload.len()]),
            },
        ),
    )
}

fn parse_port_input_format_single(payload: &[u8]) -> (r: Result<LpfMessage, Error>)
    ensures
        agrees(r, spec_parse_port_input_format_single(payload@)),
{
    if payload.len() < 2 {
        return Err(Error::Parse(String::from_str("PortInputFormatSingle payload too short")));
    }
    Ok(LpfMessage::PortInputFormatSingle(PortInputFormatSingle { port_id: payload[0], mode: payload[1] }))
}

fn parse_port_output_command(payload: &[u8]) -> (r: Result<LpfMessage, Error>)
    ensures
        agrees(r, spec_parse_port_output_command(payload@)),
{
    if payload.len() < 2 {
        return Err(Error::Parse(String::from_str("PortOutputCommand payload too short")));
    }
    Ok(
        LpfMessage::PortOutputCommand(
            PortOutputCommand {
                port_id: payload[0],
                startup_and_completion: payload[1],
                payload: bytes_copy_from_slice(&payload[2..payload.len()]),
            },
        ),
    )
}

fn parse_port_output_feedback(payload: &[u8]) -> (r: Result<LpfMessage, Error>)
    ensures
        agrees(r, spec_parse_port_output_feedback(payload@)),
{
    if payload.len() < 2 || payload.len() % 2 != 0 {
        let mut s = String::from_str("PortOutputCommandFeedback unexpected payload length ");
        push_decimal(&mut s, payload.len() as u64);
        return Err(Error::Parse(s));
    }
    let n = payload.len() / 2;
    let mut entries: Vec<(u8, CommandFeedback)> = Vec::new();
    let mut i: usize = 0;
    while i < n
        invariant
            n == payload@.len() / 2,
            payload@.len() % 2 == 0,
            payload@.len() <= usize::MAX,
            i <= n,
            spec_feedback_entries_from(payload@, 0) == match spec_feedback_entries_from(payload@, i as nat) {
                Ok(rest) => Ok(entries@ + rest),
                Err(e) => Err::<Seq<(u8, CommandFeedback)>, Seq<char>>(e),
            },
        decreases n - i,
    {
        let ghost before = entries@;
        assert(2 * i + 1 < payload@.len());
        match CommandFeedback::try_from(payload[2 * i + 1]) {
            Ok(fb) => {
                entries.push((payload[2 * i], fb));
                proof {
                    let tail = spec_feedback_entries_from(payload@, (i + 1) as nat);
                    if let Ok(rest) = tail {
                        assert(before + (seq![(payload@[2 * i as int], fb)] + rest) =~= entries@ + rest);
                    }
                }
            },
            Err(e) => {
                return Err(e);
            },
        }
        i = i + 1;
    }
    assert(spec_feedback_entries_from(payload@, n as nat) == Ok::<Seq<(u8, CommandFeedback)>, Seq<char>>(Seq::empty()));
    assert(entries@ + Seq::<(u8, CommandFeedback)>::empty() =~= entries@);
    Ok(LpfMessage::PortOutputCommandFeedback(PortOutputCommandFeedback { entries }))
}

/// Parse one complete LPF2 frame.
///
/// `buf` must be exactly one frame (`buf.len() == buf[0]`); use [`FrameBuffer`]
/// to accumulate chunks first. A frame shorter than its header, a frame
/// shorter than its declared length, a payload too short for its message type
/// and an unknown code are parse errors; a message type that is not decoded
/// gives [`LpfMessage::Unknown`].
pub fn parse(buf: &[u8]) -> (r: Result<LpfMessage, Error>)
    ensures
        agrees(r, spec_parse(buf@)),
{
    if buf.len() < 3 {
        let mut s = String::from_str("frame too short: ");
        push_decimal(&mut s, buf.len() as u64);
        s.append(" bytes");
        return Err(Error::Parse(s));
    }
    let declared_len = buf[0] as usize;
    if buf.len() < declared_len {
        let mut s = String::from_str("frame truncated: declared ");
        push_decimal(&mut s, declared_len as u64);
        s.append(", got ");
        push_decimal(&mut s, buf.len() as u64);
        return Err(Error::Parse(s));
    }
    if declared_len < 3 {
        let mut s = String::from_str("frame too short: declared ");
        push_decimal(&mut s, declared_len as u64);
        s.append(" bytes");
        return Err(Error::Parse(s));
    }
    let msg_type_byte = buf[2];
    let payload = &buf[3..declared_len];
    match MessageType::try_from(msg_type_byte) {
        Ok(MessageType::HubProperties) => parse_hub_property(payload),
        Ok(MessageType::HubActions) => parse_hub_action(payload),
        Ok(MessageType::HubAlerts) => parse_hub_alert(payload),
        Ok(MessageType::HubAttachedIo) => parse_hub_attached_io(payload),
        Ok(MessageType::GenericErrorMessages) => parse_generic_error(payload),
        Ok(MessageType::PortInputFormatSetupSingle) => parse_port_input_format_setup(payload),
        Ok(MessageType::PortValueSingle) => parse_port_value_single(payload),
        Ok(MessageType::PortInputFormatSingle) => parse_port_input_format_single(payload),
        Ok(MessageType::PortOutputCommand) => parse_port_output_command(payload),
        Ok(MessageType::PortOutputCommandFeedback) => parse_port_output_feedback(payload),
        _ => Ok(LpfMessage::Unknown { message_type: msg_type_byte, payload: bytes_copy_from_slice(payload) }),
    }
}


// ── Encoding ─────────────────────────────────────────────────────────────────

/// The four little-endian bytes of `v`.
pub open spec fn le_bytes_u32(v: u32) -> Seq<u8> {
    seq![(v % 256) as u8, ((v / 256) % 256) as u8, ((v / 65536) % 256) as u8, (v / 16777216) as u8]
}

/// The message body (type byte and payload) the host sends for `m`; upstream-only
/// messages have an empty body.
pub open spec fn spec_encode_body(m: LpfMessageView) -> Seq<u8> {
    match m {
        LpfMessageView::HubProperty { property, operation, payload } => seq![
            MessageType::HubProperties.spec_value(),
            property.spec_value(),
            operation.spec_value(),
        ] + payload,
        LpfMessageView::HubAction(a) => seq![MessageType::HubActions.spec_value(), a.spec_value()],
        LpfMessageView::PortInputFormatSetupSingle(m) => seq![
            MessageType::PortInputFormatSetupSingle.spec_value(),
            m.port_id,
            m.mode,
        ] + le_bytes_u32(m.delta) + seq![if m.enable_notifications { 1u8 } else { 0u8 }],
        LpfMessageView::PortOutputCommand { port_id, startup_and_completion, payload } => seq![
            MessageType::PortOutputCommand.spec_value(),
            port_id,
            startup_and_completion,
        ] + payload,
        LpfMessageView::Unknown { message_type, payload } => seq![message_type] + payload,
        _ => Seq::empty(),
    }
}

/// The full frame for `m`: the length byte (the total length, modulo 256), the
/// reserved zero byte, then the body.
pub open spec fn spec_encode(m: LpfMessageView) -> Seq<u8> {
    let body = spec_encode_body(m);
    seq![((body.len() + 2) % 256) as u8, 0u8] + body
}

fn push_all(v: &mut Vec<u8>, s: &[u8])
    ensures
        final(v)@ == old(v)@ + s@,
{
    let mut i: usize = 0;
    let ghost start = v@;
    while i < s.len()
        invariant
            i <= s@.len(),
            v@ == start + s@.take(i as int),
        decreases s@.len() - i,
    {
        v.push(s[i]);
        i = i + 1;
        assert(v@ =~= start + s@.take(i as int));
    }
    assert(s@.take(s@.len() as int) =~= s@);
}

fn encode_inner(msg: &LpfMessage) -> (b: Bytes)
    ensures
        bytes_view(b) == spec_encode_body(msg@),
{
    match msg {
        LpfMessage::HubProperty(m) => {
            let mut v: Vec<u8> = Vec::new();
            v.push(MessageType::HubProperties.value());
            v.push(m.property.value());
            v.push(m.operation.value());
            push_all(&mut v, bytes_as_slice(&m.payload));
            bytes_from_vec(v)
        },
        LpfMessage::HubAction(a) => {
            let mut v: Vec<u8> = Vec::new();
            v.push(MessageType::HubActions.value());
            v.push(a.value());
            assert(v@ =~= spec_encode_body(msg@));
            bytes_from_vec(v)
        },
        LpfMessage::PortInputFormatSetupSingle(m) => {
            let mut v: Vec<u8> = Vec::new();
            v.push(MessageType::PortInputFormatSetupSingle.value());
            v.push(m.port_id);
            v.push(m.mode);
            v.push((m.delta % 256) as u8);
            v.push(((m.delta / 256) % 256) as u8);
            v.push(((m.delta / 65536) % 256) as u8);
            v.push((m.delta / 16777216) as u8);
            v.push(if m.enable_notifications { 1u8 } else { 0u8 });
            assert(v@ =~= spec_encode_body(msg@));
            bytes_from_vec(v)
        },
        LpfMessage::PortOutputCommand(m) => {
            let mut v: Vec<u8> = Vec::new();
            v.push(MessageType::PortOutputCommand.value());
            v.push(m.port_id);
            v.push(m.startup_and_completion);
            push_all(&mut v, bytes_as_slice(&m.payload));
            bytes_from_vec(v)
        },
        LpfMessage::Unknown { message_type, payload } => {
            let mut v: Vec<u8> = Vec::new();
            v.push(*message_type);
            push_all(&mut v, bytes_as_slice(payload));
            bytes_from_vec(v)
        },
        _ => bytes_new(),
    }
}

/// Encode a message for transmission to the hub, prefixing the two-byte
/// header `[total_len, 0x00]`. Upstream-only messages encode to the bare header.
pub fn encode(msg: &LpfMessage) -> (b: Bytes)
    ensures
        bytes_view(b) == spec_encode(msg@),
{
    let inner = encode_inner(msg);
    let body = bytes_as_slice(&inner);
    let total = ((body.len() % 256 + 2) % 256) as u8;
    let mut v: Vec<u8> = Vec::new();
    v.push(total);
    v.push(0u8);
    push_all(&mut v, body);
    bytes_from_vec(v)
}

// ── The codec laws ───────────────────────────────────────────────────────────

/// The messages the host encodes with a body (every other message encodes to
/// the bare header and is not meant to be sent).
pub open spec fn is_encodable(m: LpfMessageView) -> bool {
    match m {
        LpfMessageView::HubProperty { .. } => true,
        LpfMessageView::HubAction(_) => true,
        LpfMessageView::PortInputFormatSetupSingle(_) => true,
        LpfMessageView::PortOutputCommand { .. } => true,
        LpfMessageView::Unknown { message_type, .. } => match MessageType::spec_from_value(message_type) {
            Some(MessageType::HubProperties) => false,
            Some(MessageType::HubActions) => false,
            Some(MessageType::HubAlerts) => false,
            Some(MessageType::HubAttachedIo) => false,
            Some(MessageType::GenericErrorMessages) => false,
            Some(MessageType::PortInputFormatSetupSingle) => false,
            Some(MessageType::PortValueSingle) => false,
            Some(MessageType::PortInputFormatSingle) => false,
            Some(MessageType::PortOutputCommand) => false,
            Some(MessageType::PortOutputCommandFeedback) => false,
            _ => true,
        },
        _ => false,
    }
}

/// The body of an encodable message parses back to it.
proof fn lemma_payload_round_trip(m: LpfMessageView)
    requires
        is_encodable(m),
    ensures
        spec_encode_body(m).len() >= 1,
        spec_parse_payload(spec_encode_body(m)[0], spec_encode_body(m).skip(1)) == Ok::<LpfMessageView, Seq<char>>(m),
{
    let body = spec_encode_body(m);
    match m {
        LpfMessageView::HubProperty { property, operation, payload } => {
            HubPropertyReference::lemma_value_decodes(property);
            HubPropertyOperation::lemma_value_decodes(operation);
            assert(body[0] == 0x01);
            assert(body.skip(1).skip(2) =~= payload);
        },
        LpfMessageView::HubAction(a) => {
            ActionType::lemma_value_decodes(a);
            assert(body[0] == 0x02);
        },
        LpfMessageView::PortInputFormatSetupSingle(s) => {
            let p = body.skip(1);
            assert(body[0] == 0x41);
            assert(le_u32(p[2], p[3], p[4], p[5]) == s.delta);
        },
        LpfMessageView::PortOutputCommand { payload, .. } => {
            assert(body[0] == 0x81);
            assert(body.skip(1).skip(2) =~= payload);
        },
        LpfMessageView::Unknown { message_type, payload } => {
            assert(body.skip(1) =~= payload);
        },
        _ => {},
    }
}

/// Round trip: every message the host sends, when its frame fits the one-byte
/// length field, parses back to the same message.
pub proof fn lemma_parse_encode_round_trip(m: LpfMessageView)
    requires
        is_encodable(m),
        spec_encode_body(m).len() + 2 <= 255,
    ensures
        spec_parse(spec_encode(m)) == Ok::<LpfMessageView, Seq<char>>(m),
{
    let body = spec_encode_body(m);
    let f = spec_encode(m);
    lemma_payload_round_trip(m);
    assert(f[0] == body.len() + 2);
    assert(f.subrange(3, f[0] as int) =~= body.skip(1));
    assert(f[2] == body[0]);
}


// ── Framing ──────────────────────────────────────────────────────────────────

/// Splits buffered bytes into the complete frames at their front (each frame
/// is as long as its first byte says, and that byte is not zero) and the bytes
/// left waiting for more input.
pub open spec fn spec_split_frames(s: Seq<u8>) -> (Seq<Seq<u8>>, Seq<u8>)
    decreases s.len(),
{
    if s.len() > 0 && s[0] != 0 && s[0] <= s.len() {
        let (frames, rest) = spec_split_frames(s.skip(s[0] as int));
        (seq![s.take(s[0] as int)] + frames, rest)
    } else {
        (Seq::empty(), s)
    }
}

/// Holds when no complete frame stands at the front of `s`.
pub open spec fn awaits_more(s: Seq<u8>) -> bool {
    s.len() == 0 || s[0] == 0 || s[0] > s.len()
}

/// Framing loses and invents no byte: the frames, one after another, followed
/// by the bytes left waiting, are exactly the bytes buffered; every frame is as
/// long as its first byte, which is not zero; and what is left holds no complete
/// frame at its front.
pub proof fn lemma_split_frames(s: Seq<u8>)
    ensures
        spec_split_frames(s).0.flatten() + spec_split_frames(s).1 == s,
        forall|i: int|
            0 <= i < spec_split_frames(s).0.len() ==> {
                let f = #[trigger] spec_split_frames(s).0[i];
                f.len() >= 1 && f.len() == f[0]
            },
        awaits_more(spec_split_frames(s).1),
    decreases s.len(),
{
    if s.len() > 0 && s[0] != 0 && s[0] <= s.len() {
        let n = s[0] as int;
        lemma_split_frames(s.skip(n));
        let (frames, rest) = spec_split_frames(s.skip(n));
        let all = seq![s.take(n)] + frames;
        assert(all.first() == s.take(n));
        assert(all.drop_first() =~= frames);
        assert(all.flatten() == s.take(n) + frames.flatten());
        assert(s.take(n) + frames.flatten() + rest =~= s.take(n) + (frames.flatten() + rest));
        assert(s.take(n) + s.skip(n) =~= s);
        assert forall|i: int| 0 <= i < all.len() implies {
            let f = #[trigger] all[i];
            f.len() >= 1 && f.len() == f[0]
        } by {
            if i > 0 {
                assert(all[i] == frames[i - 1]);
            }
        }
    } else {
        assert(Seq::<Seq<u8>>::empty().flatten() =~= Seq::<u8>::empty());
        assert(Seq::<u8>::empty() + s =~= s);
    }
}

/// Splitting bytes that arrive in two parts: the frames of `s + t` are the
/// frames of `s`, then the frames of what `s` left waiting followed by `t`.
pub proof fn lemma_split_frames_append(s: Seq<u8>, t: Seq<u8>)
    ensures
        spec_split_frames(s + t) == (
            spec_split_frames(s).0 + spec_split_frames(spec_split_frames(s).1 + t).0,
            spec_split_frames(spec_split_frames(s).1 + t).1,
        ),
    decreases s.len(),
{
    if s.len() > 0 && s[0] != 0 && s[0] <= s.len() {
        let n = s[0] as int;
        assert((s + t)[0] == s[0]);
        assert((s + t).skip(n) =~= s.skip(n) + t);
        assert((s + t).take(n) =~= s.take(n));
        lemma_split_frames_append(s.skip(n), t);
        let (fs, rest) = spec_split_frames(s.skip(n));
        let (gs, rest2) = spec_split_frames(rest + t);
        assert(seq![s.take(n)] + (fs + gs) =~= (seq![s.take(n)] + fs) + gs);
    } else {
        assert(Seq::<Seq<u8>>::empty() + spec_split_frames(s + t).0 =~= spec_split_frames(s + t).0);
    }
}

/// The frames handed out, in order, and the bytes left waiting, when the chunks
/// are pushed one after another into a buffer holding `pending`.
pub open spec fn spec_push_all(pending: Seq<u8>, chunks: Seq<Seq<u8>>) -> (Seq<Seq<u8>>, Seq<u8>)
    decreases chunks.len(),
{
    if chunks.len() == 0 {
        (Seq::empty(), pending)
    } else {
        let (first, rest) = spec_split_frames(pending + chunks[0]);
        let (more, left) = spec_push_all(rest, chunks.drop_first());
        (first + more, left)
    }
}

/// However the bytes are cut into chunks, pushing the chunks one by one into a
/// buffer with no complete frame waiting (as a new buffer, and every buffer
/// after a push) yields the same frames, in the same order, and leaves the same
/// bytes waiting, as splitting all the bytes at once.
pub proof fn lemma_chunking_does_not_matter(pending: Seq<u8>, chunks: Seq<Seq<u8>>)
    requires
        awaits_more(pending),
    ensures
        spec_push_all(pending, chunks) == spec_split_frames(pending + chunks.flatten()),
    decreases chunks.len(),
{
    if chunks.len() == 0 {
        assert(pending + chunks.flatten() =~= pending);
    } else {
        let c0 = chunks[0];
        let tail = chunks.drop_first();
        assert(chunks.flatten() == c0 + tail.flatten());
        assert(pending + chunks.flatten() =~= (pending + c0) + tail.flatten());
        lemma_split_frames_append(pending + c0, tail.flatten());
        let (first, rest) = spec_split_frames(pending + c0);
        lemma_split_frames(pending + c0);
        lemma_chunking_does_not_matter(rest, tail);
    }
}

/// Accumulation buffer for fragmented BLE notifications: push incoming chunks
/// and take back the complete frames as they become available.
pub struct FrameBuffer {
    buf: BytesMut,
}

impl FrameBuffer {
    /// The bytes received and not yet handed out as a frame.
    pub closed spec fn pending(&self) -> Seq<u8> {
        bytes_mut_view(self.buf)
    }

    /// An empty buffer.
    pub fn new() -> (fb: FrameBuffer)
        ensures
            fb.pending() == Seq::<u8>::empty(),
    {
        FrameBuffer { buf: bytes_mut_new() }
    }

    /// How many bytes are buffered.
    pub fn pending_len(&self) -> (n: usize)
        ensures
            n == self.pending().len(),
    {
        bytes_mut_as_slice(&self.buf).len()
    }

    /// Append `chunk` and drain the complete frames at the front, in order.
    pub fn push(&mut self, chunk: &[u8]) -> (frames: Vec<Bytes>)
        requires
            old(self).pending().len() + chunk@.len() <= isize::MAX,
        ensures
            frames@.map_values(|b: Bytes| bytes_view(b)) == spec_split_frames(old(self).pending() + chunk@).0,
            final(self).pending() == spec_split_frames(old(self).pending() + chunk@).1,
            frames@.map_values(|b: Bytes| bytes_view(b)).flatten() + final(self).pending()
                == old(self).pending() + chunk@,
            awaits_more(final(self).pending()),
    {
        bytes_mut_extend_from_slice(&mut self.buf, chunk);
        let ghost all = bytes_mut_view(self.buf);
        let mut out: Vec<Bytes> = Vec::new();
        loop
            invariant
                spec_split_frames(all) == (
                    out@.map_values(|b: Bytes| bytes_view(b)) + spec_split_frames(bytes_mut_view(self.buf)).0,
                    spec_split_frames(bytes_mut_view(self.buf)).1,
                ),
            ensures
                spec_split_frames(all) == (
                    out@.map_values(|b: Bytes| bytes_view(b)) + spec_split_frames(bytes_mut_view(self.buf)).0,
                    spec_split_frames(bytes_mut_view(self.buf)).1,
                ),
                awaits_more(bytes_mut_view(self.buf)),
            decreases bytes_mut_view(self.buf).len(),
        {
            let ghost cur = bytes_mut_view(self.buf);
            let s = bytes_mut_as_slice(&self.buf);
            if s.len() == 0 {
                break;
            }
            let len = s[0] as usize;
            if len == 0 || s.len() < len {
                break;
            }
            let frame = bytes_mut_split_to(&mut self.buf, len);
            let ghost old_out = out@.map_values(|b: Bytes| bytes_view(b));
            out.push(bytes_mut_freeze(frame));
            proof {
                assert(out@.map_values(|b: Bytes| bytes_view(b)) =~= old_out.push(cur.take(len as int)));
                let (fs, rest) = spec_split_frames(cur.skip(len as int));
                assert(old_out + (seq![cur.take(len as int)] + fs) =~= old_out.push(cur.take(len as int)) + fs);
            }
        }
        proof {
            assert(spec_split_frames(bytes_mut_view(self.buf)).0 =~= Seq::<Seq<u8>>::empty());
            assert(out@.map_values(|b: Bytes| bytes_view(b)) + Seq::<Seq<u8>>::empty() =~= out@.map_values(
                |b: Bytes| bytes_view(b),
            ));
            lemma_split_frames(all);
        }
        out
    }
}

impl Default for FrameBuffer {
    fn default() -> (fb: FrameBuffer)
        ensures
            fb.pending() == Seq::<u8>::empty(),
    {
        FrameBuffer::new()
    }
}

} // verus!
