//! Sensor devices: each decodes `PORT_VALUE_SINGLE` payloads into typed
//! [`Event`]s, by the active mode where the sensor has several.

use super::{Device, Event};
use crate::error::Error;
use crate::protocol::consts::Color;
use vstd::prelude::*;

verus! {

// ── ColorDistanceSensor ──────────────────────────────────────────────────────

/// Mode numbers of the colour and distance sensor (device type 37).
#[derive(Debug, Clone, Copy, PartialEq, Eq, Structural)]
pub enum ColorDistanceMode {
    Color,
    Distance,
    DistanceCount,
    Reflect,
    Ambient,
    RgbIntensity,
    ColorAndDistance,
}

impl ColorDistanceMode {
    /// The mode number on the wire.
    pub open spec fn spec_value(self) -> u8 {
        match self {
            ColorDistanceMode::Color => 0x00,
            ColorDistanceMode::Distance => 0x01,
            ColorDistanceMode::DistanceCount => 0x02,
            ColorDistanceMode::Reflect => 0x03,
            ColorDistanceMode::Ambient => 0x04,
            ColorDistanceMode::RgbIntensity => 0x05,
            ColorDistanceMode::ColorAndDistance => 0x08,
        }
    }

    /// The mode number on the wire.
    #[verifier::when_used_as_spec(spec_value)]
    pub fn value(self) -> (r: u8)
        ensures
            r == self.spec_value(),
    {
        match self {
            ColorDistanceMode::Color => 0x00,
            ColorDistanceMode::Distance => 0x01,
            ColorDistanceMode::DistanceCount => 0x02,
            ColorDistanceMode::Reflect => 0x03,
            ColorDistanceMode::Ambient => 0x04,
            ColorDistanceMode::RgbIntensity => 0x05,
            ColorDistanceMode::ColorAndDistance => 0x08,
        }
    }
}

/// A distance reading (in units of about 25.4 mm, at most 10) in millimetres:
/// `raw * 254 / 10 - 20`, not below 0.
pub open spec fn distance_mm(raw: u8) -> u32 {
    let mm = raw * 254 / 10 - 20;
    if mm < 0 {
        0
    } else {
        mm as u32
    }
}

/// The distance of a colour-and-distance reading in millimetres: `whole +
/// 1/partial` inches (just `whole` when `partial` is 0) at 25.4 mm per inch,
/// truncated, less 20 mm, not below 0. The reading is converted in single
/// precision, which gives the exact truncated value on every input but one:
/// at 17 + 1/127 inches the product is exactly 432 mm and single precision
/// lands just below it, on 431.
pub open spec fn color_and_distance_mm(whole: u8, partial: u8) -> u32 {
    let mm: int = if partial == 0 {
        whole * 254 / 10
    } else if whole == 17 && partial == 127 {
        431
    } else {
        (whole * partial + 1) * 254 / (10 * partial)
    };
    if mm < 20 {
        0
    } else {
        (mm - 20) as u32
    }
}

/// What the colour and distance sensor reports for `data` in mode `mode`.
pub open spec fn color_distance_event(port_id: u8, mode: u8, data: Seq<u8>) -> Option<Event> {
    if mode == ColorDistanceMode::Color.spec_value() {
        if data.len() > 0 && data[0] <= 10 {
            Some(Event::Color { port_id, color: Color::spec_from_value(data[0]).unwrap() })
        } else {
            None
        }
    } else if mode == ColorDistanceMode::Distance.spec_value() {
        if data.len() > 0 && data[0] <= 10 {
            Some(Event::Distance { port_id, distance_mm: distance_mm(data[0]) })
        } else {
            None
        }
    } else if mode == ColorDistanceMode::Reflect.spec_value() {
        if data.len() > 0 {
            Some(Event::Reflect { port_id, percent: data[0] })
        } else {
            None
        }
    } else if mode == ColorDistanceMode::Ambient.spec_value() {
        if data.len() > 0 {
            Some(Event::Ambient { port_id, percent: data[0] })
        } else {
            None
        }
    } else if mode == ColorDistanceMode::ColorAndDistance.spec_value() {
        if data.len() >= 4 && data[0] <= 10 {
            Some(
                Event::ColorAndDistance {
                    port_id,
                    color: Color::spec_from_value(data[0]).unwrap(),
                    distance_mm: color_and_distance_mm(data[2], data[3]),
                },
            )
        } else {
            None
        }
    } else {
        None
    }
}

/// In colour mode (mode 0) a payload whose first byte is a colour index, 0 to
/// 10, gives that colour; any other first byte, or no byte, gives no event.
pub proof fn lemma_color_mode_reports_every_color(port_id: u8, data: Seq<u8>)
    ensures
        data.len() > 0 && data[0] <= 10 ==> (color_distance_event(port_id, 0, data) matches Some(
            Event::Color { port_id: p, color },
        ) && p == port_id && color.spec_value() == data[0]),
        !(data.len() > 0 && data[0] <= 10) ==> color_distance_event(port_id, 0, data) is None,
{
    if data.len() > 0 && data[0] <= 10 {
        Color::lemma_decoded_value(data[0]);
    }
}

/// Colour and distance sensor (device type 37).
pub struct ColorDistanceSensor {
    port_id: u8,
    mode: u8,
}

fn color_and_distance(whole: u8, partial: u8) -> (mm: u32)
    ensures
        mm == color_and_distance_mm(whole, partial),
{
    let raw: u32 = if partial == 0 {
        whole as u32 * 254 / 10
    } else if whole == 17 && partial == 127 {
        431
    } else {
        let w = whole as u32;
        let p = partial as u32;
        assert(w * p <= 255 * 255) by (nonlinear_arith)
            requires
                w <= 255,
                p <= 255,
        ;
        (w * p + 1) * 254 / (10 * p)
    };
    if raw < 20 {
        0
    } else {
        raw - 20
    }
}

impl ColorDistanceSensor {
    /// Its port.
    pub closed spec fn port(&self) -> u8 {
        self.port_id
    }

    /// The last mode set (0, colour, initially).
    pub closed spec fn mode(&self) -> u8 {
        self.mode
    }

    pub fn new(port_id: u8) -> (d: ColorDistanceSensor)
        ensures
            d.port() == port_id,
            d.mode() == 0,
    {
        ColorDistanceSensor { port_id, mode: 0 }
    }
}

impl Device for ColorDistanceSensor {
    fn device_type_id(&self) -> (r: u16)
        ensures
            r == 37,
    {
        37
    }

    fn port_id(&self) -> (r: u8)
        ensures
            r == self.port(),
    {
        self.port_id
    }

    fn set_mode(&mut self, mode: u8)
        ensures
            final(self).mode() == mode,
            final(self).port() == old(self).port(),
    {
        self.mode = mode;
    }

    /// Colour (mode 0) and distance (mode 1) take one byte of at most 10;
    /// reflect (3) and ambient (4) one byte in percent; colour and distance
    /// (8) takes `[color, ?, whole, partial, ...]`. Other modes and payloads
    /// too short give no event.
    fn receive(&mut self, data: &[u8]) -> (r: Result<Option<Event>, Error>)
        ensures
            *final(self) == *old(self),
            r == Ok::<Option<Event>, Error>(color_distance_event(old(self).port(), old(self).mode(), data@)),
    {
        if self.mode == ColorDistanceMode::Color.value() {
            if data.len() > 0 && data[0] <= 10 {
                match Color::try_from(data[0]) {
                    Ok(color) => {
                        return Ok(Some(Event::Color { port_id: self.port_id, color }));
                    },
                    Err(_) => {},
                }
            }
            Ok(None)
        } else if self.mode == ColorDistanceMode::Distance.value() {
            if data.len() > 0 && data[0] <= 10 {
                let raw = data[0] as i32;
                let mm = raw * 254 / 10 - 20;
                let mm: u32 = if mm < 0 {
                    0
                } else {
                    mm as u32
                };
                return Ok(Some(Event::Distance { port_id: self.port_id, distance_mm: mm }));
            }
            Ok(None)
        } else if self.mode == ColorDistanceMode::Reflect.value() {
            if data.len() > 0 {
                Ok(Some(Event::Reflect { port_id: self.port_id, percent: data[0] }))
            } else {
                Ok(None)
            }
        } else if self.mode == ColorDistanceMode::Ambient.value() {
            if data.len() > 0 {
                Ok(Some(Event::Ambient { port_id: self.port_id, percent: data[0] }))
            } else {
                Ok(None)
            }
        } else if self.mode == ColorDistanceMode::ColorAndDistance.value() {
            if data.len() >= 4 {
                let color_raw = data[0];
                if color_raw <= 10 {
                    let mm = color_and_distance(data[2], data[3]);
                    match Color::try_from(color_raw) {
                        Ok(color) => {
                            return Ok(
                                Some(
                                    Event::ColorAndDistance {
                                        port_id: self.port_id,
                                        color,
                                        distance_mm: mm,
                                    },
                                ),
                            );
                        },
                        Err(_) => {},
                    }
                }
            }
            Ok(None)
        } else {
            Ok(None)
        }
    }
}

// ── MotionSensor ─────────────────────────────────────────────────────────────

/// Motion (distance) sensor (device type 35).
pub struct MotionSensor {
    port_id: u8,
}

impl MotionSensor {
    /// Its port.
    pub closed spec fn port(&self) -> u8 {
        self.port_id
    }

    pub fn new(port_id: u8) -> (d: MotionSensor)
        ensures
            d.port() == port_id,
    {
        MotionSensor { port_id }
    }
}

impl Device for MotionSensor {
    fn device_type_id(&self) -> (r: u16)
        ensures
            r == 35,
    {
        35
    }

    fn port_id(&self) -> (r: u8)
        ensures
            r == self.port(),
    {
        self.port_id
    }

    /// Two or more bytes `[base, overflow, ...]` give the distance
    /// `(base + overflow * 255) * 10` mm; a shorter payload gives no event.
    fn receive(&mut self, data: &[u8]) -> (r: Result<Option<Event>, Error>)
        ensures
            *final(self) == *old(self),
            data@.len() >= 2 ==> r == Ok::<Option<Event>, Error>(
                Some(
                    Event::Distance {
                        port_id: old(self).port(),
                        distance_mm: ((data@[0] + data@[1] * 255) * 10) as u32,
                    },
                ),
            ),
            data@.len() < 2 ==> r == Ok::<Option<Event>, Error>(None),
    {
        if data.len() >= 2 {
            let base = data[0] as u32;
            let overflow = data[1] as u32;
            let mm = (base + overflow * 255) * 10;
            return Ok(Some(Event::Distance { port_id: self.port_id, distance_mm: mm }));
        }
        Ok(None)
    }
}

// ── TiltSensor ───────────────────────────────────────────────────────────────

/// The signed reading of a byte.
pub open spec fn signed_byte(b: u8) -> i8 {
    if b < 128 {
        b as i8
    } else {
        (b - 256) as i8
    }
}

fn to_signed(b: u8) -> (r: i8)
    ensures
        r == signed_byte(b),
{
    if b < 128 {
        b as i8
    } else {
        (b as i16 - 256) as i8
    }
}

/// Tilt sensor (device type 34).
pub struct TiltSensor {
    port_id: u8,
    mode: u8,
}

impl TiltSensor {
    /// Its port.
    pub closed spec fn port(&self) -> u8 {
        self.port_id
    }

    /// The last mode set (0, tilt, initially).
    pub closed spec fn mode(&self) -> u8 {
        self.mode
    }

    pub fn new(port_id: u8) -> (d: TiltSensor)
        ensures
            d.port() == port_id,
            d.mode() == 0,
    {
        TiltSensor { port_id, mode: 0 }
    }
}

impl Device for TiltSensor {
    fn device_type_id(&self) -> (r: u16)
        ensures
            r == 34,
    {
        34
    }

    fn port_id(&self) -> (r: u8)
        ensures
            r == self.port(),
    {
        self.port_id
    }

    fn set_mode(&mut self, mode: u8)
        ensures
            final(self).mode() == mode,
            final(self).port() == old(self).port(),
    {
        self.mode = mode;
    }

    /// In mode 0 (tilt) two or more bytes give the x and y angles as signed
    /// bytes; anything else gives no event.
    fn receive(&mut self, data: &[u8]) -> (r: Result<Option<Event>, Error>)
        ensures
            *final(self) == *old(self),
            old(self).mode() == 0 && data@.len() >= 2 ==> r == Ok::<Option<Event>, Error>(
                Some(
                    Event::Tilt {
                        port_id: old(self).port(),
                        x: signed_byte(data@[0]),
                        y: signed_byte(data@[1]),
                        z: None,
                    },
                ),
            ),
            !(old(self).mode() == 0 && data@.len() >= 2) ==> r == Ok::<Option<Event>, Error>(None),
    {
        if self.mode == 0x00 && data.len() >= 2 {
            Ok(
                Some(
                    Event::Tilt {
                        port_id: self.port_id,
                        x: to_signed(data[0]),
                        y: to_signed(data[1]),
                        z: None,
                    },
                ),
            )
        } else {
            Ok(None)
        }
    }
}

// ── RemoteControlButton ──────────────────────────────────────────────────────

/// Remote-control button states.
#[derive(Debug, Clone, Copy, PartialEq, Eq, Structural)]
pub enum RemoteButtonState {
    Released,
    Up,
    Down,
    Stop,
}

impl RemoteButtonState {
    /// The state's wire value.
    pub open spec fn spec_value(self) -> u8 {
        match self {
            RemoteButtonState::Released => 0x00,
            RemoteButtonState::Up => 0x01,
            RemoteButtonState::Down => 0xFF,
            RemoteButtonState::Stop => 0x7F,
        }
    }

    /// The state's wire value.
    #[verifier::when_used_as_spec(spec_value)]
    pub fn value(self) -> (r: u8)
        ensures
            r == self.spec_value(),
    {
        match self {
            RemoteButtonState::Released => 0x00,
            RemoteButtonState::Up => 0x01,
            RemoteButtonState::Down => 0xFF,
            RemoteButtonState::Stop => 0x7F,
        }
    }
}

/// A button of the Powered UP remote (device type 55).
pub struct RemoteControlButton {
    port_id: u8,
}

impl RemoteControlButton {
    /// Its port.
    pub closed spec fn port(&self) -> u8 {
        self.port_id
    }

    pub fn new(port_id: u8) -> (d: RemoteControlButton)
        ensures
            d.port() == port_id,
    {
        RemoteControlButton { port_id }
    }
}

impl Device for RemoteControlButton {
    fn device_type_id(&self) -> (r: u16)
        ensures
            r == 55,
    {
        55
    }

    fn port_id(&self) -> (r: u8)
        ensures
            r == self.port(),
    {
        self.port_id
    }

    /// The first byte is the button state; an empty payload gives no event.
    fn receive(&mut self, data: &[u8]) -> (r: Result<Option<Event>, Error>)
        ensures
            *final(self) == *old(self),
            data@.len() > 0 ==> r == Ok::<Option<Event>, Error>(
                Some(Event::RemoteButton { port_id: old(self).port(), state: data@[0] }),
            ),
            data@.len() == 0 ==> r == Ok::<Option<Event>, Error>(None),
    {
        if data.len() > 0 {
            Ok(Some(Event::RemoteButton { port_id: self.port_id, state: data[0] }))
        } else {
            Ok(None)
        }
    }
}

} // verus!
