//! Light and sound actuators: the hub LED, external lights, the piezo buzzer
//! and the 3×3 colour light matrix.
//!
//! These are actuators only — `receive` always gives `Ok(None)`. The command
//! encoders return [`Bytes`] for the hub layer to send with `writeDirect`
//! (LPF2 sub-command 0x51).

use bytes::Bytes;

use super::{Device, Event};
use crate::buffer::{bytes_from_vec, bytes_view};
use crate::error::Error;
use crate::protocol::consts::Color;
use crate::device::motor::le_bytes_u16;
use vstd::prelude::*;

verus! {

// ── HubLed ───────────────────────────────────────────────────────────────────

/// The status LED on the hub (device type 23).
pub struct HubLed {
    port_id: u8,
}

impl HubLed {
    /// Its port.
    pub closed spec fn port(&self) -> u8 {
        self.port_id
    }

    pub fn new(port_id: u8) -> (d: HubLed)
        ensures
            d.port() == port_id,
    {
        HubLed { port_id }
    }

    /// Set the LED to a named colour: `[0x51, mode=0x00, color_index]`.
    pub fn encode_set_color(&self, color: Color) -> (b: Bytes)
        ensures
            bytes_view(b) == seq![0x51u8, 0x00, color.spec_value()],
    {
        let v = vec![0x51u8, 0x00, color.value()];
        assert(v@ =~= seq![0x51u8, 0x00, color.spec_value()]);
        bytes_from_vec(v)
    }

    /// Set the LED to an RGB value: `[0x51, mode=0x01, r, g, b]`.
    pub fn encode_set_rgb(&self, red: u8, green: u8, blue: u8) -> (b: Bytes)
        ensures
            bytes_view(b) == seq![0x51u8, 0x01, red, green, blue],
    {
        let v = vec![0x51u8, 0x01, red, green, blue];
        assert(v@ =~= seq![0x51u8, 0x01, red, green, blue]);
        bytes_from_vec(v)
    }
}

impl Device for HubLed {
    fn device_type_id(&self) -> (r: u16)
        ensures
            r == 23,
    {
        23
    }

    fn port_id(&self) -> (r: u8)
        ensures
            r == self.port(),
    {
        self.port_id
    }

    fn receive(&mut self, _data: &[u8]) -> (r: Result<Option<Event>, Error>)
        ensures
            *final(self) == *old(self),
            r matches Ok(None),
    {
        Ok(None)
    }
}

// ── Light ────────────────────────────────────────────────────────────────────

/// External light / LED strip (device type 8).
pub struct Light {
    port_id: u8,
}

impl Light {
    /// Its port.
    pub closed spec fn port(&self) -> u8 {
        self.port_id
    }

    pub fn new(port_id: u8) -> (d: Light)
        ensures
            d.port() == port_id,
    {
        Light { port_id }
    }

    /// Set the brightness, clamped to 0–100: `[0x51, mode=0x00, brightness]`.
    pub fn encode_set_brightness(&self, brightness: u8) -> (b: Bytes)
        ensures
            bytes_view(b) == seq![0x51u8, 0x00, if brightness < 100 { brightness } else { 100u8 }],
    {
        let level = if brightness < 100 {
            brightness
        } else {
            100u8
        };
        let v = vec![0x51u8, 0x00, level];
        assert(v@ =~= seq![0x51u8, 0x00, level]);
        bytes_from_vec(v)
    }
}

impl Device for Light {
    fn device_type_id(&self) -> (r: u16)
        ensures
            r == 8,
    {
        8
    }

    fn port_id(&self) -> (r: u8)
        ensures
            r == self.port(),
    {
        self.port_id
    }

    fn receive(&mut self, _data: &[u8]) -> (r: Result<Option<Event>, Error>)
        ensures
            *final(self) == *old(self),
            r matches Ok(None),
    {
        Ok(None)
    }
}

// ── PiezoBuzzer ──────────────────────────────────────────────────────────────

/// `WeDo 2.0` piezo buzzer (device type 22). Its payload goes directly to the
/// `WeDo 2.0` motor-value characteristic:
/// `[0x05, 0x02, 0x04, freq_lo, freq_hi, time_lo, time_hi]`.
pub struct PiezoBuzzer {
    port_id: u8,
}

impl PiezoBuzzer {
    /// Its port.
    pub closed spec fn port(&self) -> u8 {
        self.port_id
    }

    pub fn new(port_id: u8) -> (d: PiezoBuzzer)
        ensures
            d.port() == port_id,
    {
        PiezoBuzzer { port_id }
    }

    /// A tone: frequency in Hz, duration in milliseconds.
    pub fn encode_play_tone(&self, frequency: u16, time_ms: u16) -> (b: Bytes)
        ensures
            bytes_view(b) == seq![0x05u8, 0x02, 0x04] + le_bytes_u16(frequency) + le_bytes_u16(time_ms),
    {
        let v = vec![
            0x05u8,
            0x02,
            0x04,
            (frequency % 256) as u8,
            (frequency / 256) as u8,
            (time_ms % 256) as u8,
            (time_ms / 256) as u8,
        ];
        assert(v@ =~= seq![0x05u8, 0x02, 0x04] + le_bytes_u16(frequency) + le_bytes_u16(time_ms));
        bytes_from_vec(v)
    }
}

impl Device for PiezoBuzzer {
    fn device_type_id(&self) -> (r: u16)
        ensures
            r == 22,
    {
        22
    }

    fn port_id(&self) -> (r: u8)
        ensures
            r == self.port(),
    {
        self.port_id
    }

    fn receive(&mut self, _data: &[u8]) -> (r: Result<Option<Event>, Error>)
        ensures
            *final(self) == *old(self),
            r matches Ok(None),
    {
        Ok(None)
    }
}

// ── ColorLightMatrix ─────────────────────────────────────────────────────────

/// The byte for one matrix pixel at maximum brightness (10):
/// `color_index | (10 << 4)`.
pub open spec fn pixel_byte(color: Color) -> u8 {
    color.spec_value() | 160u8
}

/// 3×3 colour light matrix (device type 64). Each of the nine pixels is
/// `color_index | (brightness << 4)`, brightness always at its maximum 10.
pub struct ColorLightMatrix {
    port_id: u8,
}

impl ColorLightMatrix {
    /// Its port.
    pub closed spec fn port(&self) -> u8 {
        self.port_id
    }

    pub fn new(port_id: u8) -> (d: ColorLightMatrix)
        ensures
            d.port() == port_id,
    {
        ColorLightMatrix { port_id }
    }

    /// All nine pixels in one colour: `[0x51, mode=0x02, pixel×9]`.
    pub fn encode_set_color(&self, color: Color) -> (b: Bytes)
        ensures
            bytes_view(b) == seq![0x51u8, 0x02] + Seq::new(9, |i: int| pixel_byte(color)),
    {
        let pixel = color.value() | 160u8;
        let mut v = vec![0x51u8, 0x02];
        let mut i: usize = 0;
        while i < 9
            invariant
                i <= 9,
                pixel == pixel_byte(color),
                v@ == seq![0x51u8, 0x02] + Seq::new(i as nat, |j: int| pixel_byte(color)),
            decreases 9 - i,
        {
            v.push(pixel);
            i = i + 1;
            assert(v@ =~= seq![0x51u8, 0x02] + Seq::new(i as nat, |j: int| pixel_byte(color)));
        }
        bytes_from_vec(v)
    }

    /// Each pixel individually, from the first nine colours (any excess is
    /// ignored): `[0x51, mode=0x02, pixel...]`.
    pub fn encode_set_matrix(&self, colors: &[Color]) -> (b: Bytes)
        ensures
            bytes_view(b) == seq![0x51u8, 0x02] + Seq::new(
                if colors@.len() < 9 { colors@.len() } else { 9 },
                |i: int| pixel_byte(colors@[i]),
            ),
    {
        let n = if colors.len() < 9 {
            colors.len()
        } else {
            9
        };
        let mut v = vec![0x51u8, 0x02];
        let mut i: usize = 0;
        while i < n
            invariant
                i <= n,
                n <= colors@.len(),
                v@ == seq![0x51u8, 0x02] + Seq::new(i as nat, |j: int| pixel_byte(colors@[j])),
            decreases n - i,
        {
            v.push(colors[i].value() | 160u8);
            i = i + 1;
            assert(v@ =~= seq![0x51u8, 0x02] + Seq::new(i as nat, |j: int| pixel_byte(colors@[j])));
        }
        bytes_from_vec(v)
    }
}

impl Device for ColorLightMatrix {
    fn device_type_id(&self) -> (r: u16)
        ensures
            r == 64,
    {
        64
    }

    fn port_id(&self) -> (r: u8)
        ensures
            r == self.port(),
    {
        self.port_id
    }

    fn receive(&mut self, _data: &[u8]) -> (r: Result<Option<Event>, Error>)
        ensures
            *final(self) == *old(self),
            r matches Ok(None),
    {
        Ok(None)
    }
}

} // verus!
