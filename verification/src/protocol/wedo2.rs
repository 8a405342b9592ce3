//! `WeDo 2.0` Smart Hub protocol codec.
//!
//! The `WeDo 2.0` Smart Hub uses a different BLE protocol from LPF2: instead of
//! one multiplexed characteristic it exposes dedicated characteristics for
//! port attach / detach (`WEDO2_PORT_TYPE`), sensor readings
//! (`WEDO2_SENSOR_VALUE`), the hub button (`WEDO2_BUTTON`), subscriptions
//! (`WEDO2_PORT_TYPE_WRITE`), motor power (`WEDO2_MOTOR_WRITE`), disconnection
//! (`WEDO2_DISCONNECT`) and the hub name (`WEDO2_NAME_ID`). This module parses
//! and encodes the payloads of these characteristics; the BLE reads and writes
//! happen in the hub layer.

use bytes::Bytes;

use crate::buffer::{bytes_copy_from_slice, bytes_from_static, bytes_from_vec, bytes_view};
use crate::error::Error;
use crate::text::{decimal, hex, push_decimal, push_hex};
use vstd::prelude::*;
use vstd::string::StrSliceExecFns;
use vstd::utf8::encode_utf8;

verus! {

/// Device events reported on `WEDO2_PORT_TYPE`.
#[derive(Debug, Clone, Copy, PartialEq, Eq, Structural)]
pub enum Wedo2IoEvent {
    /// A device was plugged into the port.
    Attached,
    /// A device was unplugged from the port.
    Detached,
}

/// Parsed message from the `WEDO2_PORT_TYPE` characteristic.
#[derive(Debug, Clone, PartialEq, Eq, Structural)]
pub struct Wedo2PortMessage {
    /// Port identifier (1 = port A, 2 = port B on the Smart Hub).
    pub port_id: u8,
    /// Whether a device was attached or detached.
    pub event: Wedo2IoEvent,
    /// Device type ID when `event == Attached`; `0` otherwise.
    pub device_type_id: u8,
}

/// Parse a notification from `WEDO2_PORT_TYPE`: `[port_id, event, ?, device_type_id, ...]`
/// where `event` is `0x01` for attach and `0x00` for detach. A payload shorter
/// than two bytes and any other event byte are parse errors; an attach record
/// without the device byte reports device type 0.
pub fn parse_port_message(data: &[u8]) -> (r: Result<Wedo2PortMessage, Error>)
    ensures
        data@.len() < 2 ==> (r matches Err(e) && e.is_parse_with(
            "wedo2 port message too short: "@ + decimal(data@.len()) + " bytes"@,
        )),
        data@.len() >= 2 && data@[1] != 0 && data@[1] != 1 ==> (r matches Err(e) && e.is_parse_with(
            "unknown wedo2 port event: 0x"@ + hex(data@[1] as nat),
        )),
        data@.len() >= 2 && data@[1] == 1 ==> r == Ok::<Wedo2PortMessage, Error>(
            Wedo2PortMessage {
                port_id: data@[0],
                event: Wedo2IoEvent::Attached,
                device_type_id: if data@.len() > 3 { data@[3] } else { 0 },
            },
        ),
        data@.len() >= 2 && data@[1] == 0 ==> r == Ok::<Wedo2PortMessage, Error>(
            Wedo2PortMessage { port_id: data@[0], event: Wedo2IoEvent::Detached, device_type_id: 0 },
        ),
{
    if data.len() < 2 {
        let mut s = String::from_str("wedo2 port message too short: ");
        push_decimal(&mut s, data.len() as u64);
        s.append(" bytes");
        return Err(Error::Parse(s));
    }
    let port_id = data[0];
    let event = match data[1] {
        0x01 => Wedo2IoEvent::Attached,
        0x00 => Wedo2IoEvent::Detached,
        other => {
            let mut s = String::from_str("unknown wedo2 port event: 0x");
            push_hex(&mut s, other as u64);
            return Err(Error::Parse(s));
        },
    };
    let device_type_id = if event == Wedo2IoEvent::Attached {
        if data.len() > 3 {
            data[3]
        } else {
            0
        }
    } else {
        0
    };
    Ok(Wedo2PortMessage { port_id, event, device_type_id })
}

/// Parsed message from the `WEDO2_SENSOR_VALUE` or `WEDO2_BUTTON` characteristics.
#[derive(Debug, Clone, PartialEq, Eq)]
pub enum Wedo2SensorMessage {
    /// Hub button state.
    Button {
        /// `true` when the button is pressed.
        pressed: bool,
    },
    /// Raw sensor payload for the given port.
    PortData {
        /// Port identifier (1 = A, 2 = B).
        port_id: u8,
        /// Raw sensor bytes (everything after the `port_id` byte).
        data: Bytes,
    },
}

/// Parse a notification from `WEDO2_SENSOR_VALUE` or `WEDO2_BUTTON`: a single
/// byte is the button state (pressed unless it is zero); two or more bytes are
/// `[?, port_id, data…]`; an empty payload is a parse error.
pub fn parse_sensor_message(data: &[u8]) -> (r: Result<Wedo2SensorMessage, Error>)
    ensures
        data@.len() == 0 ==> (r matches Err(e) && e.is_parse_with("empty wedo2 sensor message"@)),
        data@.len() == 1 ==> r == Ok::<Wedo2SensorMessage, Error>(
            Wedo2SensorMessage::Button { pressed: data@[0] != 0 },
        ),
        data@.len() >= 2 ==> (r matches Ok(Wedo2SensorMessage::PortData { port_id, data: d })
            && port_id == data@[1] && bytes_view(d) == data@.skip(2)),
{
    if data.len() == 0 {
        Err(Error::Parse(String::from_str("empty wedo2 sensor message")))
    } else if data.len() == 1 {
        if data[0] == 0x01 {
            Ok(Wedo2SensorMessage::Button { pressed: true })
        } else if data[0] == 0x00 {
            Ok(Wedo2SensorMessage::Button { pressed: false })
        } else {
            Ok(Wedo2SensorMessage::Button { pressed: data[0] != 0 })
        }
    } else {
        Ok(
            Wedo2SensorMessage::PortData {
                port_id: data[1],
                data: bytes_copy_from_slice(&data[2..data.len()]),
            },
        )
    }
}

/// The eleven bytes of a subscription change for `WEDO2_PORT_TYPE_WRITE`; the
/// last byte is 1 to subscribe and 0 to unsubscribe.
pub open spec fn spec_subscription(port_id: u8, device_type: u8, mode: u8, on: u8) -> Seq<u8> {
    seq![0x01u8, 0x02, port_id, device_type, mode, 0x01, 0x00, 0x00, 0x00, 0x00, on]
}

/// Encode a subscribe command for `WEDO2_PORT_TYPE_WRITE`: the hub starts sending
/// sensor notifications for the port in the given mode.
pub fn encode_subscribe(port_id: u8, device_type: u8, mode: u8) -> (b: Bytes)
    ensures
        bytes_view(b) == spec_subscription(port_id, device_type, mode, 1),
{
    let v: [u8; 11] = [0x01, 0x02, port_id, device_type, mode, 0x01, 0x00, 0x00, 0x00, 0x00, 0x01];
    let b = bytes_copy_from_slice(v.as_slice());
    assert(v@ =~= spec_subscription(port_id, device_type, mode, 1));
    b
}

/// Encode an unsubscribe command for `WEDO2_PORT_TYPE_WRITE`: the hub stops
/// sending sensor notifications for the port.
pub fn encode_unsubscribe(port_id: u8, device_type: u8, mode: u8) -> (b: Bytes)
    ensures
        bytes_view(b) == spec_subscription(port_id, device_type, mode, 0),
{
    let v: [u8; 11] = [0x01, 0x02, port_id, device_type, mode, 0x01, 0x00, 0x00, 0x00, 0x00, 0x00];
    let b = bytes_copy_from_slice(v.as_slice());
    assert(v@ =~= spec_subscription(port_id, device_type, mode, 0));
    b
}

/// Encode a disconnect command for `WEDO2_DISCONNECT`: writing it makes the hub
/// close the BLE connection.
pub fn encode_disconnect() -> (b: Bytes)
    ensures
        bytes_view(b) == seq![0x00u8],
{
    let command: &'static [u8] = &[0x00];
    bytes_from_static(command)
}

/// The first `n` characters of `s`, or all of `s` when it is shorter.
pub open spec fn first_chars(s: Seq<char>, n: nat) -> Seq<char> {
    if s.len() <= n {
        s
    } else {
        s.take(n as int)
    }
}

/// Encode a set-name command for `WEDO2_NAME_ID`: the UTF-8 bytes of at most
/// the first 14 characters of `name`; longer names are cut.
pub fn encode_set_name(name: &str) -> (b: Bytes)
    ensures
        bytes_view(b) == encode_utf8(first_chars(name@, 14)),
{
    let len = name.unicode_len();
    let n = if len < 14 {
        len
    } else {
        14
    };
    let truncated = name.substring_char(0, n);
    let v = truncated.as_bytes_vec();
    assert(name@.subrange(0, n as int) =~= first_chars(name@, 14));
    bytes_from_vec(v)
}

} // verus!
