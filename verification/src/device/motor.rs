//! Motors, in three levels of capability:
//!
//! ```text
//! BasicMotorDevice   — set_power, stop, brake
//!   └─ TachoMotorDevice — set_speed, rotate_by_degrees, set_acceleration_time,
//!                         set_deceleration_time  (+rotation encoder events)
//!        └─ AbsoluteMotorDevice — goto_angle, reset_zero  (+absolute-position events)
//! ```
//!
//! Commands are encoded as `PORT_OUTPUT_COMMAND` payloads and returned as
//! [`Bytes`] for the hub layer to transmit.

use bytes::Bytes;

use super::{Device, Event};
use crate::buffer::{bytes_from_vec, bytes_view};
use crate::error::Error;
use crate::protocol::consts::BrakingStyle;
use crate::protocol::message::{i32_from_le, le_bytes_u32, le_u16, le_u32, u16_from_le};
use vstd::prelude::*;

verus! {

/// The wire byte for a speed or power: 127 (brake) stays 127; anything else is
/// clamped to -100..=100 and sent as its two's-complement byte.
pub open spec fn mapped_speed(speed: i8) -> u8 {
    if speed == 127 {
        127
    } else if speed > 100 {
        100
    } else if speed < -100 {
        156
    } else if speed < 0 {
        (256 + speed) as u8
    } else {
        speed as u8
    }
}

/// The profile flags byte: bit 0 for the acceleration profile, bit 1 for the
/// deceleration profile.
pub open spec fn profile_bits(accel: bool, decel: bool) -> u8 {
    ((if accel { 1u8 } else { 0u8 }) + (if decel { 2u8 } else { 0u8 })) as u8
}

/// The two little-endian bytes of `v`.
pub open spec fn le_bytes_u16(v: u16) -> Seq<u8> {
    seq![(v % 256) as u8, (v / 256) as u8]
}

fn map_speed(speed: i8) -> (r: u8)
    ensures
        r == mapped_speed(speed),
{
    if speed == 127 {
        return 127;
    }
    let clamped: i8 = if speed > 100 {
        100
    } else if speed < -100 {
        -100
    } else {
        speed
    };
    if clamped < 0 {
        (clamped as i16 + 256) as u8
    } else {
        clamped as u8
    }
}

fn use_profile(accel: bool, decel: bool) -> (r: u8)
    ensures
        r == profile_bits(accel, decel),
{
    (if accel {
        1u8
    } else {
        0u8
    }) + (if decel {
        2u8
    } else {
        0u8
    })
}

// ── BasicMotorDevice ─────────────────────────────────────────────────────────

/// Motor with power control only (`set_power`, `stop`, `brake`).
pub struct BasicMotorDevice {
    port_id: u8,
    device_type_id: u16,
}

impl BasicMotorDevice {
    /// The same device: a basic motor has no modes.
    pub open spec fn with_mode(self, mode: u8) -> BasicMotorDevice {
        self
    }

    /// Its port.
    pub closed spec fn port(&self) -> u8 {
        self.port_id
    }

    /// The device type ID it was created for.
    pub closed spec fn type_id(&self) -> u16 {
        self.device_type_id
    }

    pub fn new(port_id: u8, device_type_id: u16) -> (d: BasicMotorDevice)
        ensures
            d.port() == port_id,
            d.type_id() == device_type_id,
    {
        BasicMotorDevice { port_id, device_type_id }
    }

    /// `WRITE_DIRECT_MODE_DATA` (0x51) payload for power control:
    /// `[0x51, mode=0x00, mapped_power]`.
    pub fn encode_set_power(&self, power: i8) -> (b: Bytes)
        ensures
            bytes_view(b) == seq![0x51u8, 0x00, mapped_speed(power)],
    {
        let v = vec![0x51u8, 0x00, map_speed(power)];
        assert(v@ =~= seq![0x51u8, 0x00, mapped_speed(power)]);
        bytes_from_vec(v)
    }

    /// Stop: power 0, interrupting any queued command.
    pub fn encode_stop(&self) -> (b: Bytes)
        ensures
            bytes_view(b) == seq![0x51u8, 0x00, 0x00],
    {
        self.encode_set_power(0)
    }

    /// Brake: power `BrakingStyle::Brake` (127).
    pub fn encode_brake(&self) -> (b: Bytes)
        ensures
            bytes_view(b) == seq![0x51u8, 0x00, 127],
    {
        self.encode_set_power(BrakingStyle::Brake.value() as i8)
    }
}

impl Device for BasicMotorDevice {
    fn device_type_id(&self) -> (r: u16)
        ensures
            r == self.type_id(),
    {
        self.device_type_id
    }

    fn port_id(&self) -> (r: u8)
        ensures
            r == self.port(),
    {
        self.port_id
    }

    fn set_mode(&mut self, _mode: u8)
        ensures
            *final(self) == *old(self),
    {
    }

    fn receive(&mut self, _data: &[u8]) -> (r: Result<Option<Event>, Error>)
        ensures
            *final(self) == *old(self),
            r matches Ok(None),
    {
        Ok(None)
    }
}

// ── TachoMotorDevice ─────────────────────────────────────────────────────────

/// Motor with speed control and rotation-encoder feedback.
pub struct TachoMotorDevice {
    port_id: u8,
    device_type_id: u16,
    mode: u8,
    brake_style: BrakingStyle,
    max_power: u8,
    pub use_acceleration_profile: bool,
    pub use_deceleration_profile: bool,
}

impl TachoMotorDevice {
    /// The same device with its mode set to `mode`.
    pub closed spec fn with_mode(self, mode: u8) -> TachoMotorDevice {
        TachoMotorDevice { mode, ..self }
    }


    /// Setting the mode changes the mode and nothing else.
    pub proof fn lemma_with_mode(self, mode: u8)
        ensures
            self.with_mode(mode).mode() == mode,
            self.with_mode(mode).port() == self.port(),
            self.with_mode(mode).type_id() == self.type_id(),
            self.with_mode(mode).brake_style() == self.brake_style(),
            self.with_mode(mode).max_power() == self.max_power(),
            self.with_mode(mode).accel_profile() == self.accel_profile(),
            self.with_mode(mode).decel_profile() == self.decel_profile(),
    {
    }

    /// Its port.
    pub closed spec fn port(&self) -> u8 {
        self.port_id
    }

    /// The device type ID it was created for.
    pub closed spec fn type_id(&self) -> u16 {
        self.device_type_id
    }

    /// The last mode set.
    pub closed spec fn mode(&self) -> u8 {
        self.mode
    }

    /// How the motor ends a timed or positioned command.
    pub closed spec fn brake_style(&self) -> BrakingStyle {
        self.brake_style
    }

    /// The power limit sent with speed commands.
    pub closed spec fn max_power(&self) -> u8 {
        self.max_power
    }

    /// Whether the acceleration profile is used.
    pub closed spec fn accel_profile(&self) -> bool {
        self.use_acceleration_profile
    }

    /// Whether the deceleration profile is used.
    pub closed spec fn decel_profile(&self) -> bool {
        self.use_deceleration_profile
    }

    /// The profile flags byte for the current settings.
    pub open spec fn profile(&self) -> u8 {
        profile_bits(self.accel_profile(), self.decel_profile())
    }

    /// As created: mode 0, braking, full power, both profiles on.
    pub open spec fn is_fresh(&self) -> bool {
        &&& self.mode() == 0
        &&& self.brake_style() == BrakingStyle::Brake
        &&& self.max_power() == 100
        &&& self.accel_profile()
        &&& self.decel_profile()
    }

    pub fn new(port_id: u8, device_type_id: u16) -> (d: TachoMotorDevice)
        ensures
            d.port() == port_id,
            d.type_id() == device_type_id,
            d.is_fresh(),
    {
        TachoMotorDevice {
            port_id,
            device_type_id,
            mode: 0,
            brake_style: BrakingStyle::Brake,
            max_power: 100,
            use_acceleration_profile: true,
            use_deceleration_profile: true,
        }
    }

    pub fn set_braking_style(&mut self, style: BrakingStyle)
        ensures
            final(self).brake_style() == style,
            final(self).port() == old(self).port(),
            final(self).type_id() == old(self).type_id(),
            final(self).mode() == old(self).mode(),
            final(self).max_power() == old(self).max_power(),
            final(self).accel_profile() == old(self).accel_profile(),
            final(self).decel_profile() == old(self).decel_profile(),
    {
        self.brake_style = style;
    }

    /// Sets whether commands use the acceleration profile (the public field
    /// `use_acceleration_profile`).
    pub fn set_acceleration_profile(&mut self, on: bool)
        ensures
            final(self).accel_profile() == on,
            final(self).decel_profile() == old(self).decel_profile(),
            final(self).port() == old(self).port(),
            final(self).type_id() == old(self).type_id(),
            final(self).mode() == old(self).mode(),
            final(self).brake_style() == old(self).brake_style(),
            final(self).max_power() == old(self).max_power(),
    {
        self.use_acceleration_profile = on;
    }

    /// Sets whether commands use the deceleration profile (the public field
    /// `use_deceleration_profile`).
    pub fn set_deceleration_profile(&mut self, on: bool)
        ensures
            final(self).decel_profile() == on,
            final(self).accel_profile() == old(self).accel_profile(),
            final(self).port() == old(self).port(),
            final(self).type_id() == old(self).type_id(),
            final(self).mode() == old(self).mode(),
            final(self).brake_style() == old(self).brake_style(),
            final(self).max_power() == old(self).max_power(),
    {
        self.use_deceleration_profile = on;
    }

    pub fn set_max_power(&mut self, max_power: u8)
        ensures
            final(self).max_power() == max_power,
            final(self).port() == old(self).port(),
            final(self).type_id() == old(self).type_id(),
            final(self).mode() == old(self).mode(),
            final(self).brake_style() == old(self).brake_style(),
            final(self).accel_profile() == old(self).accel_profile(),
            final(self).decel_profile() == old(self).decel_profile(),
    {
        self.max_power = max_power;
    }

    /// `SET_ACC_TIME` (subcommand 0x05): `[0x05, time_lo, time_hi, profile]`.
    pub fn encode_set_acceleration_time(&self, time_ms: u16, profile: u8) -> (b: Bytes)
        ensures
            bytes_view(b) == seq![0x05u8] + le_bytes_u16(time_ms) + seq![profile],
    {
        let v = vec![0x05u8, (time_ms % 256) as u8, (time_ms / 256) as u8, profile];
        assert(v@ =~= seq![0x05u8] + le_bytes_u16(time_ms) + seq![profile]);
        bytes_from_vec(v)
    }

    /// `SET_DEC_TIME` (subcommand 0x06): `[0x06, time_lo, time_hi, profile]`.
    pub fn encode_set_deceleration_time(&self, time_ms: u16, profile: u8) -> (b: Bytes)
        ensures
            bytes_view(b) == seq![0x06u8] + le_bytes_u16(time_ms) + seq![profile],
    {
        let v = vec![0x06u8, (time_ms % 256) as u8, (time_ms / 256) as u8, profile];
        assert(v@ =~= seq![0x06u8] + le_bytes_u16(time_ms) + seq![profile]);
        bytes_from_vec(v)
    }

    /// `START_SPEED` (subcommand 0x07, no time limit): `[0x07, speed, max_power, profile]`.
    pub fn encode_set_speed(&self, speed: i8) -> (b: Bytes)
        ensures
            bytes_view(b) == seq![0x07u8, mapped_speed(speed), self.max_power(), self.profile()],
    {
        let v = vec![
            0x07u8,
            map_speed(speed),
            self.max_power,
            use_profile(self.use_acceleration_profile, self.use_deceleration_profile),
        ];
        assert(v@ =~= seq![0x07u8, mapped_speed(speed), self.max_power(), self.profile()]);
        bytes_from_vec(v)
    }

    /// `START_SPEED_FOR_TIME` (subcommand 0x09):
    /// `[0x09, time_lo, time_hi, speed, max_power, end_state, profile]`.
    pub fn encode_set_speed_for_time(&self, speed: i8, time_ms: u16) -> (b: Bytes)
        ensures
            bytes_view(b) == seq![0x09u8] + le_bytes_u16(time_ms) + seq![
                mapped_speed(speed),
                self.max_power(),
                self.brake_style().spec_value(),
                self.profile(),
            ],
    {
        let v = vec![
            0x09u8,
            (time_ms % 256) as u8,
            (time_ms / 256) as u8,
            map_speed(speed),
            self.max_power,
            self.brake_style.value(),
            use_profile(self.use_acceleration_profile, self.use_deceleration_profile),
        ];
        assert(v@ =~= seq![0x09u8] + le_bytes_u16(time_ms) + seq![
            mapped_speed(speed),
            self.max_power(),
            self.brake_style().spec_value(),
            self.profile(),
        ]);
        bytes_from_vec(v)
    }

    /// `START_SPEED_FOR_DEGREES` (subcommand 0x0b):
    /// `[0x0b, degrees (4 bytes LE), speed, max_power, end_state, profile]`.
    pub fn encode_rotate_by_degrees(&self, degrees: u32, speed: i8) -> (b: Bytes)
        ensures
            bytes_view(b) == seq![0x0bu8] + le_bytes_u32(degrees) + seq![
                mapped_speed(speed),
                self.max_power(),
                self.brake_style().spec_value(),
                self.profile(),
            ],
    {
        let v = vec![
            0x0bu8,
            (degrees % 256) as u8,
            ((degrees / 256) % 256) as u8,
            ((degrees / 65536) % 256) as u8,
            (degrees / 16777216) as u8,
            map_speed(speed),
            self.max_power,
            self.brake_style.value(),
            use_profile(self.use_acceleration_profile, self.use_deceleration_profile),
        ];
        assert(v@ =~= seq![0x0bu8] + le_bytes_u32(degrees) + seq![
            mapped_speed(speed),
            self.max_power(),
            self.brake_style().spec_value(),
            self.profile(),
        ]);
        bytes_from_vec(v)
    }
}

impl Device for TachoMotorDevice {
    fn device_type_id(&self) -> (r: u16)
        ensures
            r == self.type_id(),
    {
        self.device_type_id
    }

    fn port_id(&self) -> (r: u8)
        ensures
            r == self.port(),
    {
        self.port_id
    }

    fn set_mode(&mut self, mode: u8)
        ensures
            *final(self) == old(self).with_mode(mode),
            final(self).mode() == mode,
            final(self).port() == old(self).port(),
            final(self).type_id() == old(self).type_id(),
            final(self).brake_style() == old(self).brake_style(),
            final(self).max_power() == old(self).max_power(),
            final(self).accel_profile() == old(self).accel_profile(),
            final(self).decel_profile() == old(self).decel_profile(),
    {
        self.mode = mode;
    }

    /// In mode 0x02 (rotation) four or more bytes give the encoder value, a
    /// little-endian `i32` at offset 0; anything else gives no event.
    fn receive(&mut self, data: &[u8]) -> (r: Result<Option<Event>, Error>)
        ensures
            *final(self) == *old(self),
            old(self).mode() == 2 && data@.len() >= 4 ==> (r matches Ok(Some(Event::MotorRotate { port_id, degrees }))
                && port_id == old(self).port() && degrees == le_u32(data@[0], data@[1], data@[2], data@[3]) as i32),
            !(old(self).mode() == 2 && data@.len() >= 4) ==> r matches Ok(None),
    {
        if self.mode == 0x02 && data.len() >= 4 {
            let degrees = i32_from_le(data[0], data[1], data[2], data[3]);
            return Ok(Some(Event::MotorRotate { port_id: self.port_id, degrees }));
        }
        Ok(None)
    }
}

// ── AbsoluteMotorDevice ──────────────────────────────────────────────────────

/// Motor with absolute-position control.
pub struct AbsoluteMotorDevice {
    port_id: u8,
    device_type_id: u16,
    mode: u8,
    brake_style: BrakingStyle,
    max_power: u8,
    pub use_acceleration_profile: bool,
    pub use_deceleration_profile: bool,
}

impl AbsoluteMotorDevice {
    /// The same device with its mode set to `mode`.
    pub closed spec fn with_mode(self, mode: u8) -> AbsoluteMotorDevice {
        AbsoluteMotorDevice { mode, ..self }
    }


    /// Setting the mode changes the mode and nothing else.
    pub proof fn lemma_with_mode(self, mode: u8)
        ensures
            self.with_mode(mode).mode() == mode,
            self.with_mode(mode).port() == self.port(),
            self.with_mode(mode).type_id() == self.type_id(),
            self.with_mode(mode).brake_style() == self.brake_style(),
            self.with_mode(mode).max_power() == self.max_power(),
            self.with_mode(mode).accel_profile() == self.accel_profile(),
            self.with_mode(mode).decel_profile() == self.decel_profile(),
    {
    }

    /// Its port.
    pub closed spec fn port(&self) -> u8 {
        self.port_id
    }

    /// The device type ID it was created for.
    pub closed spec fn type_id(&self) -> u16 {
        self.device_type_id
    }

    /// The last mode set.
    pub closed spec fn mode(&self) -> u8 {
        self.mode
    }

    /// How the motor ends a timed or positioned command.
    pub closed spec fn brake_style(&self) -> BrakingStyle {
        self.brake_style
    }

    /// The power limit sent with speed commands.
    pub closed spec fn max_power(&self) -> u8 {
        self.max_power
    }

    /// Whether the acceleration profile is used.
    pub closed spec fn accel_profile(&self) -> bool {
        self.use_acceleration_profile
    }

    /// Whether the deceleration profile is used.
    pub closed spec fn decel_profile(&self) -> bool {
        self.use_deceleration_profile
    }

    /// The profile flags byte for the current settings.
    pub open spec fn profile(&self) -> u8 {
        profile_bits(self.accel_profile(), self.decel_profile())
    }

    /// As created: mode 0, braking, full power, both profiles on.
    pub open spec fn is_fresh(&self) -> bool {
        &&& self.mode() == 0
        &&& self.brake_style() == BrakingStyle::Brake
        &&& self.max_power() == 100
        &&& self.accel_profile()
        &&& self.decel_profile()
    }

    pub fn new(port_id: u8, device_type_id: u16) -> (d: AbsoluteMotorDevice)
        ensures
            d.port() == port_id,
            d.type_id() == device_type_id,
            d.is_fresh(),
    {
        AbsoluteMotorDevice {
            port_id,
            device_type_id,
            mode: 0,
            brake_style: BrakingStyle::Brake,
            max_power: 100,
            use_acceleration_profile: true,
            use_deceleration_profile: true,
        }
    }

    pub fn set_braking_style(&mut self, style: BrakingStyle)
        ensures
            final(self).brake_style() == style,
            final(self).port() == old(self).port(),
            final(self).type_id() == old(self).type_id(),
            final(self).mode() == old(self).mode(),
            final(self).max_power() == old(self).max_power(),
            final(self).accel_profile() == old(self).accel_profile(),
            final(self).decel_profile() == old(self).decel_profile(),
    {
        self.brake_style = style;
    }

    /// Sets whether commands use the acceleration profile (the public field
    /// `use_acceleration_profile`).
    pub fn set_acceleration_profile(&mut self, on: bool)
        ensures
            final(self).accel_profile() == on,
            final(self).decel_profile() == old(self).decel_profile(),
            final(self).port() == old(self).port(),
            final(self).type_id() == old(self).type_id(),
            final(self).mode() == old(self).mode(),
            final(self).brake_style() == old(self).brake_style(),
            final(self).max_power() == old(self).max_power(),
    {
        self.use_acceleration_profile = on;
    }

    /// Sets whether commands use the deceleration profile (the public field
    /// `use_deceleration_profile`).
    pub fn set_deceleration_profile(&mut self, on: bool)
        ensures
            final(self).decel_profile() == on,
            final(self).accel_profile() == old(self).accel_profile(),
            final(self).port() == old(self).port(),
            final(self).type_id() == old(self).type_id(),
            final(self).mode() == old(self).mode(),
            final(self).brake_style() == old(self).brake_style(),
            final(self).max_power() == old(self).max_power(),
    {
        self.use_deceleration_profile = on;
    }

    pub fn set_max_power(&mut self, max_power: u8)
        ensures
            final(self).max_power() == max_power,
            final(self).port() == old(self).port(),
            final(self).type_id() == old(self).type_id(),
            final(self).mode() == old(self).mode(),
            final(self).brake_style() == old(self).brake_style(),
            final(self).accel_profile() == old(self).accel_profile(),
            final(self).decel_profile() == old(self).decel_profile(),
    {
        self.max_power = max_power;
    }

    /// `GOTO_ABSOLUTE_POSITION` (subcommand 0x0d):
    /// `[0x0d, angle (4 bytes LE), speed, max_power, end_state, profile]`.
    pub fn encode_goto_angle(&self, angle: i32, speed: i8) -> (b: Bytes)
        ensures
            bytes_view(b) == seq![0x0du8] + le_bytes_u32(angle as u32) + seq![
                mapped_speed(speed),
                self.max_power(),
                self.brake_style().spec_value(),
                self.profile(),
            ],
    {
        let a = angle as u32;
        let v = vec![
            0x0du8,
            (a % 256) as u8,
            ((a / 256) % 256) as u8,
            ((a / 65536) % 256) as u8,
            (a / 16777216) as u8,
            map_speed(speed),
            self.max_power,
            self.brake_style.value(),
            use_profile(self.use_acceleration_profile, self.use_deceleration_profile),
        ];
        assert(v@ =~= seq![0x0du8] + le_bytes_u32(angle as u32) + seq![
            mapped_speed(speed),
            self.max_power(),
            self.brake_style().spec_value(),
            self.profile(),
        ]);
        bytes_from_vec(v)
    }

    /// `PRESET_ENCODER` (subcommand 0x51, mode 0x02): reset the zero position.
    pub fn encode_reset_zero(&self) -> (b: Bytes)
        ensures
            bytes_view(b) == seq![0x51u8, 0x02, 0x00, 0x00, 0x00, 0x00],
    {
        let v = vec![0x51u8, 0x02, 0x00, 0x00, 0x00, 0x00];
        assert(v@ =~= seq![0x51u8, 0x02, 0x00, 0x00, 0x00, 0x00]);
        bytes_from_vec(v)
    }

    /// `START_SPEED_FOR_DEGREES` (subcommand 0x0b), as for a tacho motor.
    pub fn encode_rotate_by_degrees(&self, degrees: u32, speed: i8) -> (b: Bytes)
        ensures
            bytes_view(b) == seq![0x0bu8] + le_bytes_u32(degrees) + seq![
                mapped_speed(speed),
                self.max_power(),
                self.brake_style().spec_value(),
                self.profile(),
            ],
    {
        let v = vec![
            0x0bu8,
            (degrees % 256) as u8,
            ((degrees / 256) % 256) as u8,
            ((degrees / 65536) % 256) as u8,
            (degrees / 16777216) as u8,
            map_speed(speed),
            self.max_power,
            self.brake_style.value(),
            use_profile(self.use_acceleration_profile, self.use_deceleration_profile),
        ];
        assert(v@ =~= seq![0x0bu8] + le_bytes_u32(degrees) + seq![
            mapped_speed(speed),
            self.max_power(),
            self.brake_style().spec_value(),
            self.profile(),
        ]);
        bytes_from_vec(v)
    }
}

impl Device for AbsoluteMotorDevice {
    fn device_type_id(&self) -> (r: u16)
        ensures
            r == self.type_id(),
    {
        self.device_type_id
    }

    fn port_id(&self) -> (r: u8)
        ensures
            r == self.port(),
    {
        self.port_id
    }

    fn set_mode(&mut self, mode: u8)
        ensures
            *final(self) == old(self).with_mode(mode),
            final(self).mode() == mode,
            final(self).port() == old(self).port(),
            final(self).type_id() == old(self).type_id(),
            final(self).brake_style() == old(self).brake_style(),
            final(self).max_power() == old(self).max_power(),
            final(self).accel_profile() == old(self).accel_profile(),
            final(self).decel_profile() == old(self).decel_profile(),
    {
        self.mode = mode;
    }

    /// Mode 0x02 (rotation) with four or more bytes gives the encoder value
    /// (`i32` LE); mode 0x03 (absolute) with two or more bytes gives the
    /// position (`i16` LE); anything else gives no event.
    fn receive(&mut self, data: &[u8]) -> (r: Result<Option<Event>, Error>)
        ensures
            *final(self) == *old(self),
            old(self).mode() == 2 && data@.len() >= 4 ==> (r matches Ok(Some(Event::MotorRotate { port_id, degrees }))
                && port_id == old(self).port() && degrees == le_u32(data@[0], data@[1], data@[2], data@[3]) as i32),
            old(self).mode() == 3 && data@.len() >= 2 ==> (r matches Ok(Some(Event::MotorAngle { port_id, angle }))
                && port_id == old(self).port() && angle == le_u16(data@[0], data@[1]) as i16),
            !(old(self).mode() == 2 && data@.len() >= 4) && !(old(self).mode() == 3 && data@.len() >= 2)
                ==> r matches Ok(None),
    {
        if self.mode == 0x02 && data.len() >= 4 {
            let degrees = i32_from_le(data[0], data[1], data[2], data[3]);
            Ok(Some(Event::MotorRotate { port_id: self.port_id, degrees }))
        } else if self.mode == 0x03 && data.len() >= 2 {
            let angle = u16_from_le(data[0], data[1]) as i16;
            Ok(Some(Event::MotorAngle { port_id: self.port_id, angle }))
        } else {
            Ok(None)
        }
    }
}

} // verus!
