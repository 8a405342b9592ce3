//! Devices attached to hub ports: the sensors and actuators, the events they
//! produce, and the factory that picks a device for a reported type.
//!
//! Raw `PORT_VALUE_SINGLE` notifications go to the owning [`Device`] through
//! [`Device::receive`]; `PORT_INPUT_FORMAT_SINGLE` mode updates arrive through
//! [`Device::set_mode`]. Typed [`Event`]s come back.

use bytes::Bytes;

use crate::buffer::{bytes_copy_from_slice, bytes_view};
use crate::error::Error;
use crate::protocol::consts::{Color, DeviceType};
use crate::protocol::message::{le_u16, le_u32};
use vstd::prelude::*;

pub mod light;
pub mod motor;
pub mod sensor;

use motor::{AbsoluteMotorDevice, BasicMotorDevice, TachoMotorDevice};

verus! {

/// A typed event produced by a device from a raw port-value notification.
#[derive(Debug, Clone)]
pub enum Event {
    /// Tacho/absolute motor rotation encoder value.
    MotorRotate { port_id: u8, degrees: i32 },
    /// Absolute motor position in degrees.
    MotorAngle { port_id: u8, angle: i16 },
    /// A colour read by a colour sensor.
    Color { port_id: u8, color: Color },
    /// A distance in millimetres.
    Distance { port_id: u8, distance_mm: u32 },
    /// A colour together with a distance in millimetres.
    ColorAndDistance { port_id: u8, color: Color, distance_mm: u32 },
    /// Reflected light, in percent.
    Reflect { port_id: u8, percent: u8 },
    /// Ambient light, in percent.
    Ambient { port_id: u8, percent: u8 },
    /// Tilt angles.
    Tilt { port_id: u8, x: i8, y: i8, z: Option<i8> },
    /// A voltage in millivolts.
    Voltage { port_id: u8, millivolts: u32 },
    /// A current in milliamps.
    Current { port_id: u8, milliamps: u32 },
    /// A remote-control button state (wire value).
    RemoteButton { port_id: u8, state: u8 },
    /// Raw passthrough for not-yet-decoded device types.
    Raw { port_id: u8, mode: u8, data: Bytes },
}

/// A sensor or actuator attached to a hub port.
pub trait Device: Send + 'static {
    /// Raw device type ID from the wire (`HUB_ATTACHED_IO` message).
    fn device_type_id(&self) -> u16;

    /// Port the device is attached to.
    fn port_id(&self) -> u8;

    /// Update the active sensor mode (from `PORT_INPUT_FORMAT_SINGLE`); devices
    /// whose decoding depends on the mode record it.
    fn set_mode(&mut self, _mode: u8) {
    }

    /// Process an incoming `PORT_VALUE_SINGLE` notification: `Some(event)` when
    /// the payload yields a typed event, `None` when it is silently consumed.
    fn receive(&mut self, data: &[u8]) -> Result<Option<Event>, Error>;
}

/// A device of a type that is not decoded yet: it reports its payloads raw,
/// tagged with the last mode set.
pub struct GenericDevice {
    device_type_id: u16,
    port_id: u8,
    mode: u8,
}

impl GenericDevice {
    /// The same device with its mode set to `mode`.
    pub closed spec fn with_mode(self, mode: u8) -> GenericDevice {
        GenericDevice { mode, ..self }
    }

    /// The device type ID it was created for.
    pub closed spec fn type_id(&self) -> u16 {
        self.device_type_id
    }

    /// Its port.
    pub closed spec fn port(&self) -> u8 {
        self.port_id
    }

    /// The last mode set (0 initially).
    pub closed spec fn mode(&self) -> u8 {
        self.mode
    }

    /// Setting the mode changes the mode and nothing else.
    pub proof fn lemma_with_mode(self, mode: u8)
        ensures
            self.with_mode(mode).mode() == mode,
            self.with_mode(mode).port() == self.port(),
            self.with_mode(mode).type_id() == self.type_id(),
    {
    }

    /// A generic device in mode 0.
    pub fn new(port_id: u8, device_type_id: u16) -> (d: GenericDevice)
        ensures
            d.port() == port_id,
            d.type_id() == device_type_id,
            d.mode() == 0,
    {
        GenericDevice { device_type_id, port_id, mode: 0 }
    }
}

impl Device for GenericDevice {
    fn device_type_id(&self) -> (r: u16)
        ensures
            r == self.type_id(),
    {
        self.device_type_id
    }

    fn port_id(&self) -> (r: u8)
        ensures
            r == self.port(),
    {
        self.port_id
    }

    fn set_mode(&mut self, mode: u8)
        ensures
            *final(self) == old(self).with_mode(mode),
            final(self).mode() == mode,
            final(self).port() == old(self).port(),
            final(self).type_id() == old(self).type_id(),
    {
        self.mode = mode;
    }

    fn receive(&mut self, data: &[u8]) -> (r: Result<Option<Event>, Error>)
        ensures
            *final(self) == *old(self),
            r matches Ok(Some(Event::Raw { port_id, mode, data: d })) && port_id == old(self).port()
                && mode == old(self).mode() && bytes_view(d) == data@,
    {
        Ok(Some(Event::Raw { port_id: self.port_id, mode: self.mode, data: bytes_copy_from_slice(data) }))
    }
}

/// The kind of device the factory makes for a device type.
#[derive(Debug, Clone, Copy, PartialEq, Eq, Structural)]
pub enum DeviceKind {
    BasicMotor,
    TachoMotor,
    AbsoluteMotor,
    Generic,
}

/// The kind of device for a device type ID; an ID that is no known device type
/// (every ID above 255 among them) gets a generic device.
pub open spec fn device_kind_for(device_type_id: u16) -> DeviceKind {
    if device_type_id > 255 {
        DeviceKind::Generic
    } else {
        device_kind_for_type(DeviceType::spec_from_value(device_type_id as u8))
    }
}

/// The kind of device for a decoded device type.
pub open spec fn device_kind_for_type(t: Option<DeviceType>) -> DeviceKind {
    match t {
        Some(DeviceType::SimpleMediumLinearMotor) => DeviceKind::BasicMotor,
        Some(DeviceType::TrainMotor) => DeviceKind::BasicMotor,
        Some(DeviceType::DuploTrainBaseMotor) => DeviceKind::BasicMotor,
        Some(DeviceType::MediumLinearMotor) => DeviceKind::TachoMotor,
        Some(DeviceType::MoveHubMediumLinearMotor) => DeviceKind::TachoMotor,
        Some(DeviceType::TechnicLargeLinearMotor) => DeviceKind::TachoMotor,
        Some(DeviceType::TechnicXLargeLinearMotor) => DeviceKind::TachoMotor,
        Some(DeviceType::TechnicMediumAngularMotor) => DeviceKind::AbsoluteMotor,
        Some(DeviceType::TechnicLargeAngularMotor) => DeviceKind::AbsoluteMotor,
        Some(DeviceType::TechnicSmallAngularMotor) => DeviceKind::AbsoluteMotor,
        Some(DeviceType::TechnicMediumAngularMotorGrey) => DeviceKind::AbsoluteMotor,
        Some(DeviceType::TechnicLargeAngularMotorGrey) => DeviceKind::AbsoluteMotor,
        _ => DeviceKind::Generic,
    }
}

/// The kind of device made for each device type ID: types 1, 2 and 41 are
/// basic motors; 38, 39, 46 and 47 tacho motors; 48, 49, 65, 75 and 76
/// absolute motors; every other ID gets a generic device.
pub proof fn lemma_device_kinds(device_type_id: u16)
    ensures
        device_kind_for(device_type_id) == if device_type_id == 1 || device_type_id == 2 || device_type_id == 41 {
            DeviceKind::BasicMotor
        } else if device_type_id == 38 || device_type_id == 39 || device_type_id == 46 || device_type_id == 47 {
            DeviceKind::TachoMotor
        } else if device_type_id == 48 || device_type_id == 49 || device_type_id == 65 || device_type_id == 75
            || device_type_id == 76 {
            DeviceKind::AbsoluteMotor
        } else {
            DeviceKind::Generic
        },
{
}

/// A device the factory made: one of the motor kinds, or a generic device.
pub enum AnyDevice {
    BasicMotor(BasicMotorDevice),
    TachoMotor(TachoMotorDevice),
    AbsoluteMotor(AbsoluteMotorDevice),
    Generic(GenericDevice),
}

impl AnyDevice {
    /// The same device with its mode set to `mode` (a basic motor ignores modes).
    pub open spec fn with_mode(self, mode: u8) -> AnyDevice {
        match self {
            AnyDevice::BasicMotor(d) => AnyDevice::BasicMotor(d.with_mode(mode)),
            AnyDevice::TachoMotor(d) => AnyDevice::TachoMotor(d.with_mode(mode)),
            AnyDevice::AbsoluteMotor(d) => AnyDevice::AbsoluteMotor(d.with_mode(mode)),
            AnyDevice::Generic(d) => AnyDevice::Generic(d.with_mode(mode)),
        }
    }

    /// The device's mode; a basic motor has none.
    pub open spec fn mode(&self) -> Option<u8> {
        match self {
            AnyDevice::BasicMotor(_) => None,
            AnyDevice::TachoMotor(d) => Some(d.mode()),
            AnyDevice::AbsoluteMotor(d) => Some(d.mode()),
            AnyDevice::Generic(d) => Some(d.mode()),
        }
    }

    /// Setting the mode gives a device with that mode (none for a basic
    /// motor), of the same kind, type ID and port.
    pub proof fn lemma_with_mode(self, mode: u8)
        ensures
            self.with_mode(mode).mode() == (if self is BasicMotor { None } else { Some(mode) }),
            self.with_mode(mode).kind() == self.kind(),
            self.with_mode(mode).type_id() == self.type_id(),
            self.with_mode(mode).port() == self.port(),
    {
        match self {
            AnyDevice::BasicMotor(d) => {},
            AnyDevice::TachoMotor(d) => d.lemma_with_mode(mode),
            AnyDevice::AbsoluteMotor(d) => d.lemma_with_mode(mode),
            AnyDevice::Generic(d) => d.lemma_with_mode(mode),
        }
    }

    /// Which kind of device this is.
    pub open spec fn kind(&self) -> DeviceKind {
        match self {
            AnyDevice::BasicMotor(_) => DeviceKind::BasicMotor,
            AnyDevice::TachoMotor(_) => DeviceKind::TachoMotor,
            AnyDevice::AbsoluteMotor(_) => DeviceKind::AbsoluteMotor,
            AnyDevice::Generic(_) => DeviceKind::Generic,
        }
    }

    /// The device type ID it was created for.
    pub open spec fn type_id(&self) -> u16 {
        match self {
            AnyDevice::BasicMotor(d) => d.type_id(),
            AnyDevice::TachoMotor(d) => d.type_id(),
            AnyDevice::AbsoluteMotor(d) => d.type_id(),
            AnyDevice::Generic(d) => d.type_id(),
        }
    }

    /// Its port.
    pub open spec fn port(&self) -> u8 {
        match self {
            AnyDevice::BasicMotor(d) => d.port(),
            AnyDevice::TachoMotor(d) => d.port(),
            AnyDevice::AbsoluteMotor(d) => d.port(),
            AnyDevice::Generic(d) => d.port(),
        }
    }

    /// Holds when the device is as the factory makes it: of the kind for its
    /// type, in mode 0 and with the default motor settings.
    pub open spec fn is_fresh(&self) -> bool {
        &&& self.kind() == device_kind_for(self.type_id())
        &&& match self {
            AnyDevice::BasicMotor(_) => true,
            AnyDevice::TachoMotor(d) => d.is_fresh(),
            AnyDevice::AbsoluteMotor(d) => d.is_fresh(),
            AnyDevice::Generic(d) => d.mode() == 0,
        }
    }
}

impl Device for AnyDevice {
    fn device_type_id(&self) -> (r: u16)
        ensures
            r == self.type_id(),
    {
        match self {
            AnyDevice::BasicMotor(d) => d.device_type_id(),
            AnyDevice::TachoMotor(d) => d.device_type_id(),
            AnyDevice::AbsoluteMotor(d) => d.device_type_id(),
            AnyDevice::Generic(d) => d.device_type_id(),
        }
    }

    fn port_id(&self) -> (r: u8)
        ensures
            r == self.port(),
    {
        match self {
            AnyDevice::BasicMotor(d) => d.port_id(),
            AnyDevice::TachoMotor(d) => d.port_id(),
            AnyDevice::AbsoluteMotor(d) => d.port_id(),
            AnyDevice::Generic(d) => d.port_id(),
        }
    }

    fn set_mode(&mut self, mode: u8)
        ensures
            *final(self) == old(self).with_mode(mode),
            final(self).mode() == (if *old(self) is BasicMotor { None } else { Some(mode) }),
            final(self).kind() == old(self).kind(),
            final(self).type_id() == old(self).type_id(),
            final(self).port() == old(self).port(),
    {
        match self {
            AnyDevice::BasicMotor(d) => d.set_mode(mode),
            AnyDevice::TachoMotor(d) => d.set_mode(mode),
            AnyDevice::AbsoluteMotor(d) => d.set_mode(mode),
            AnyDevice::Generic(d) => d.set_mode(mode),
        }
    }

    /// Hands the payload to the device it holds: a basic motor consumes it, a
    /// tacho or absolute motor decodes it by its mode, a generic device passes it on raw.
    fn receive(&mut self, data: &[u8]) -> (r: Result<Option<Event>, Error>)
        ensures
            *final(self) == *old(self),
            r is Ok,
            match *old(self) {
                AnyDevice::BasicMotor(_) => r matches Ok(None),
                AnyDevice::TachoMotor(d) => if d.mode() == 2 && data@.len() >= 4 {
                    r matches Ok(Some(Event::MotorRotate { port_id, degrees })) && port_id == d.port()
                        && degrees == le_u32(data@[0], data@[1], data@[2], data@[3]) as i32
                } else {
                    r matches Ok(None)
                },
                AnyDevice::AbsoluteMotor(d) => if d.mode() == 2 && data@.len() >= 4 {
                    r matches Ok(Some(Event::MotorRotate { port_id, degrees })) && port_id == d.port()
                        && degrees == le_u32(data@[0], data@[1], data@[2], data@[3]) as i32
                } else if d.mode() == 3 && data@.len() >= 2 {
                    r matches Ok(Some(Event::MotorAngle { port_id, angle })) && port_id == d.port()
                        && angle == le_u16(data@[0], data@[1]) as i16
                } else {
                    r matches Ok(None)
                },
                AnyDevice::Generic(d) => r matches Ok(Some(Event::Raw { port_id, mode, data: b }))
                    && port_id == d.port() && mode == d.mode() && bytes_view(b) == data@,
            },
    {
        match self {
            AnyDevice::BasicMotor(d) => d.receive(data),
            AnyDevice::TachoMotor(d) => d.receive(data),
            AnyDevice::AbsoluteMotor(d) => d.receive(data),
            AnyDevice::Generic(d) => d.receive(data),
        }
    }
}

/// Constructs the device for a device type ID.
pub struct DeviceFactory;

impl DeviceFactory {
    /// The device for `device_type_id` on `port_id`: a basic, tacho or absolute
    /// motor for the motor types, a generic device for any other ID, known or
    /// unknown; the device keeps the ID.
    pub fn create(device_type_id: u16, port_id: u8) -> (d: AnyDevice)
        ensures
            d.kind() == device_kind_for(device_type_id),
            d.type_id() == device_type_id,
            d.port() == port_id,
            d.is_fresh(),
    {
        if device_type_id > 255 {
            return AnyDevice::Generic(GenericDevice::new(port_id, device_type_id));
        }
        match DeviceType::try_from(device_type_id as u8) {
            Ok(DeviceType::SimpleMediumLinearMotor)
            | Ok(DeviceType::TrainMotor)
            | Ok(DeviceType::DuploTrainBaseMotor) => AnyDevice::BasicMotor(
                BasicMotorDevice::new(port_id, device_type_id),
            ),
            Ok(DeviceType::MediumLinearMotor)
            | Ok(DeviceType::MoveHubMediumLinearMotor)
            | Ok(DeviceType::TechnicLargeLinearMotor)
            | Ok(DeviceType::TechnicXLargeLinearMotor) => AnyDevice::TachoMotor(
                TachoMotorDevice::new(port_id, device_type_id),
            ),
            Ok(DeviceType::TechnicMediumAngularMotor)
            | Ok(DeviceType::TechnicLargeAngularMotor)
            | Ok(DeviceType::TechnicSmallAngularMotor)
            | Ok(DeviceType::TechnicMediumAngularMotorGrey)
            | Ok(DeviceType::TechnicLargeAngularMotorGrey) => AnyDevice::AbsoluteMotor(
                AbsoluteMotorDevice::new(port_id, device_type_id),
            ),
            _ => AnyDevice::Generic(GenericDevice::new(port_id, device_type_id)),
        }
    }
}

} // verus!
