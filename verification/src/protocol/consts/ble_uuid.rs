//! BLE service and characteristic UUIDs used by the hubs.

use vstd::prelude::*;

verus! {

/// `WeDo 2.0` Smart Hub service.
pub const WEDO2_SERVICE: &'static str = "00001523-1212-efde-1523-785feabcd123";

/// Second `WeDo 2.0` Smart Hub service.
pub const WEDO2_SERVICE_2: &'static str = "00004f0e-1212-efde-1523-785feabcd123";

/// LPF2 service (Powered UP, Technic, BOOST, DUPLO).
pub const LPF2_SERVICE: &'static str = "00001623-1212-efde-1623-785feabcd123";

/// The single LPF2 characteristic that carries every message.
pub const LPF2_ALL: &'static str = "00001624-1212-efde-1623-785feabcd123";

/// `WeDo 2.0` hub button characteristic.
pub const WEDO2_BUTTON: &'static str = "00001526-1212-efde-1523-785feabcd123";

/// `WeDo 2.0` port attach / detach characteristic.
pub const WEDO2_PORT_TYPE: &'static str = "00001527-1212-efde-1523-785feabcd123";

/// `WeDo 2.0` sensor value characteristic.
pub const WEDO2_SENSOR_VALUE: &'static str = "00001560-1212-efde-1523-785feabcd123";

/// `WeDo 2.0` motor output characteristic.
pub const WEDO2_MOTOR_WRITE: &'static str = "00001565-1212-efde-1523-785feabcd123";

} // verus!
