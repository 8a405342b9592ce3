//! Protocol constants: every integer code of the LEGO wireless protocol as an
//! enum, with its wire value and a decoder that rejects unknown values.

use crate::error::Error;
use crate::text::{hex, push_hex};
use vstd::prelude::*;

pub mod ble_uuid;

verus! {

/// The detail of the parse error for an unknown wire value `v` of the enum named `enum_name`.
pub open spec fn unknown_discriminant_text(enum_name: Seq<char>, v: nat) -> Seq<char> {
    "unknown "@ + enum_name + " discriminant: 0x"@ + hex(v)
}

/// The parse error for an unknown wire value `v` of the enum named `enum_name`.
fn unknown_discriminant(enum_name: &str, v: u64) -> (e: Error)
    ensures
        e.is_parse_with(unknown_discriminant_text(enum_name@, v as nat)),
{
    let mut s = String::from_str("unknown ");
    s.append(enum_name);
    s.append(" discriminant: 0x");
    push_hex(&mut s, v);
    Error::Parse(s)
}

/// Which physical hub model is connected.
#[derive(Debug, Clone, Copy, PartialEq, Eq, Hash, Structural)]
pub enum HubType {
    Unknown,
    WeDo2SmartHub,
    MoveHub,
    Hub,
    RemoteControl,
    DuploTrainBase,
    TechnicMediumHub,
    Mario,
    TechnicSmallHub,
    Luigi,
    Peach,
}

impl HubType {
    /// The wire value of this variant.
    pub open spec fn spec_value(self) -> u8 {
        match self {
            HubType::Unknown => 0,
            HubType::WeDo2SmartHub => 1,
            HubType::MoveHub => 2,
            HubType::Hub => 3,
            HubType::RemoteControl => 4,
            HubType::DuploTrainBase => 5,
            HubType::TechnicMediumHub => 6,
            HubType::Mario => 7,
            HubType::TechnicSmallHub => 8,
            HubType::Luigi => 9,
            HubType::Peach => 10,
        }
    }

    /// The variant whose wire value is `v`, if there is one.
    pub open spec fn spec_from_value(v: u8) -> Option<HubType> {
        match v {
            0 => Some(HubType::Unknown),
            1 => Some(HubType::WeDo2SmartHub),
            2 => Some(HubType::MoveHub),
            3 => Some(HubType::Hub),
            4 => Some(HubType::RemoteControl),
            5 => Some(HubType::DuploTrainBase),
            6 => Some(HubType::TechnicMediumHub),
            7 => Some(HubType::Mario),
            8 => Some(HubType::TechnicSmallHub),
            9 => Some(HubType::Luigi),
            10 => Some(HubType::Peach),
            _ => None,
        }
    }

    /// The wire value of this variant.
    #[verifier::when_used_as_spec(spec_value)]
    pub fn value(self) -> (r: u8)
        ensures
            r == self.spec_value(),
    {
        match self {
            HubType::Unknown => 0,
            HubType::WeDo2SmartHub => 1,
            HubType::MoveHub => 2,
            HubType::Hub => 3,
            HubType::RemoteControl => 4,
            HubType::DuploTrainBase => 5,
            HubType::TechnicMediumHub => 6,
            HubType::Mario => 7,
            HubType::TechnicSmallHub => 8,
            HubType::Luigi => 9,
            HubType::Peach => 10,
        }
    }

    /// Decodes a wire value; an unknown value is a parse error naming the type and the value.
    pub fn try_from(v: u8) -> (r: Result<HubType, Error>)
        ensures
            match HubType::spec_from_value(v) {
                Some(t) => r == Ok::<HubType, Error>(t),
                None => r matches Err(e) && e.is_parse_with(unknown_discriminant_text("HubType"@, v as nat)),
            },
    {
        match v {
            0 => Ok(HubType::Unknown),
            1 => Ok(HubType::WeDo2SmartHub),
            2 => Ok(HubType::MoveHub),
            3 => Ok(HubType::Hub),
            4 => Ok(HubType::RemoteControl),
            5 => Ok(HubType::DuploTrainBase),
            6 => Ok(HubType::TechnicMediumHub),
            7 => Ok(HubType::Mario),
            8 => Ok(HubType::TechnicSmallHub),
            9 => Ok(HubType::Luigi),
            10 => Ok(HubType::Peach),
            _ => Err(unknown_discriminant("HubType", v as u64)),
        }
    }

    /// Every variant decodes from its own wire value.
    pub proof fn lemma_value_decodes(t: HubType)
        ensures
            HubType::spec_from_value(t.spec_value()) == Some(t),
    {
    }

    /// A wire value that decodes gives a variant with that very wire value.
    pub proof fn lemma_decoded_value(v: u8)
        ensures
            HubType::spec_from_value(v) matches Some(t) ==> t.spec_value() == v,
    {
    }
}

/// Peripheral device type reported in `HUB_ATTACHED_IO` messages.
#[derive(Debug, Clone, Copy, PartialEq, Eq, Hash, Structural)]
pub enum DeviceType {
    Unknown,
    SimpleMediumLinearMotor,
    TrainMotor,
    Light,
    VoltageSensor,
    CurrentSensor,
    PiezoBuzzer,
    HubLed,
    TiltSensor,
    MotionSensor,
    ColorDistanceSensor,
    MediumLinearMotor,
    MoveHubMediumLinearMotor,
    MoveHubTiltSensor,
    DuploTrainBaseMotor,
    DuploTrainBaseSpeaker,
    DuploTrainBaseColorSensor,
    DuploTrainBaseSpeedometer,
    /// Technic Control+
    TechnicLargeLinearMotor,
    /// Technic Control+
    TechnicXLargeLinearMotor,
    /// Spike Prime
    TechnicMediumAngularMotor,
    /// Spike Prime
    TechnicLargeAngularMotor,
    TechnicMediumHubGestSensor,
    RemoteControlButton,
    RemoteControlRssi,
    TechnicMediumHubAccelerometer,
    TechnicMediumHubGyroSensor,
    TechnicMediumHubTiltSensor,
    TechnicMediumHubTemperatureSensor,
    /// Spike Prime
    TechnicColorSensor,
    /// Spike Prime
    TechnicDistanceSensor,
    /// Spike Prime
    TechnicForceSensor,
    /// Spike Essential
    Technic3x3ColorLightMatrix,
    /// Spike Essential
    TechnicSmallAngularMotor,
    MarioAccelerometer,
    MarioBarcodeReader,
    MarioPantsSensor,
    /// Mindstorms
    TechnicMediumAngularMotorGrey,
    /// Technic Control+
    TechnicLargeAngularMotorGrey,
}

impl DeviceType {
    /// The wire value of this variant.
    pub open spec fn spec_value(self) -> u8 {
        match self {
            DeviceType::Unknown => 0,
            DeviceType::SimpleMediumLinearMotor => 1,
            DeviceType::TrainMotor => 2,
            DeviceType::Light => 8,
            DeviceType::VoltageSensor => 20,
            DeviceType::CurrentSensor => 21,
            DeviceType::PiezoBuzzer => 22,
            DeviceType::HubLed => 23,
            DeviceType::TiltSensor => 34,
            DeviceType::MotionSensor => 35,
            DeviceType::ColorDistanceSensor => 37,
            DeviceType::MediumLinearMotor => 38,
            DeviceType::MoveHubMediumLinearMotor => 39,
            DeviceType::MoveHubTiltSensor => 40,
            DeviceType::DuploTrainBaseMotor => 41,
            DeviceType::DuploTrainBaseSpeaker => 42,
            DeviceType::DuploTrainBaseColorSensor => 43,
            DeviceType::DuploTrainBaseSpeedometer => 44,
            DeviceType::TechnicLargeLinearMotor => 46,
            DeviceType::TechnicXLargeLinearMotor => 47,
            DeviceType::TechnicMediumAngularMotor => 48,
            DeviceType::TechnicLargeAngularMotor => 49,
            DeviceType::TechnicMediumHubGestSensor => 54,
            DeviceType::RemoteControlButton => 55,
            DeviceType::RemoteControlRssi => 56,
            DeviceType::TechnicMediumHubAccelerometer => 57,
            DeviceType::TechnicMediumHubGyroSensor => 58,
            DeviceType::TechnicMediumHubTiltSensor => 59,
            DeviceType::TechnicMediumHubTemperatureSensor => 60,
            DeviceType::TechnicColorSensor => 61,
            DeviceType::TechnicDistanceSensor => 62,
            DeviceType::TechnicForceSensor => 63,
            DeviceType::Technic3x3ColorLightMatrix => 64,
            DeviceType::TechnicSmallAngularMotor => 65,
            DeviceType::MarioAccelerometer => 71,
            DeviceType::MarioBarcodeReader => 73,
            DeviceType::MarioPantsSensor => 74,
            DeviceType::TechnicMediumAngularMotorGrey => 75,
            DeviceType::TechnicLargeAngularMotorGrey => 76,
        }
    }

    /// The variant whose wire value is `v`, if there is one.
    pub open spec fn spec_from_value(v: u8) -> Option<DeviceType> {
        match v {
            0 => Some(DeviceType::Unknown),
            1 => Some(DeviceType::SimpleMediumLinearMotor),
            2 => Some(DeviceType::TrainMotor),
            8 => Some(DeviceType::Light),
            20 => Some(DeviceType::VoltageSensor),
            21 => Some(DeviceType::CurrentSensor),
            22 => Some(DeviceType::PiezoBuzzer),
            23 => Some(DeviceType::HubLed),
            34 => Some(DeviceType::TiltSensor),
            35 => Some(DeviceType::MotionSensor),
            37 => Some(DeviceType::ColorDistanceSensor),
            38 => Some(DeviceType::MediumLinearMotor),
            39 => Some(DeviceType::MoveHubMediumLinearMotor),
            40 => Some(DeviceType::MoveHubTiltSensor),
            41 => Some(DeviceType::DuploTrainBaseMotor),
            42 => Some(DeviceType::DuploTrainBaseSpeaker),
            43 => Some(DeviceType::DuploTrainBaseColorSensor),
            44 => Some(DeviceType::DuploTrainBaseSpeedometer),
            46 => Some(DeviceType::TechnicLargeLinearMotor),
            47 => Some(DeviceType::TechnicXLargeLinearMotor),
            48 => Some(DeviceType::TechnicMediumAngularMotor),
            49 => Some(DeviceType::TechnicLargeAngularMotor),
            54 => Some(DeviceType::TechnicMediumHubGestSensor),
            55 => Some(DeviceType::RemoteControlButton),
            56 => Some(DeviceType::RemoteControlRssi),
            57 => Some(DeviceType::TechnicMediumHubAccelerometer),
            58 => Some(DeviceType::TechnicMediumHubGyroSensor),
            59 => Some(DeviceType::TechnicMediumHubTiltSensor),
            60 => Some(DeviceType::TechnicMediumHubTemperatureSensor),
            61 => Some(DeviceType::TechnicColorSensor),
            62 => Some(DeviceType::TechnicDistanceSensor),
            63 => Some(DeviceType::TechnicForceSensor),
            64 => Some(DeviceType::Technic3x3ColorLightMatrix),
            65 => Some(DeviceType::TechnicSmallAngularMotor),
            71 => Some(DeviceType::MarioAccelerometer),
            73 => Some(DeviceType::MarioBarcodeReader),
            74 => Some(DeviceType::MarioPantsSensor),
            75 => Some(DeviceType::TechnicMediumAngularMotorGrey),
            76 => Some(DeviceType::TechnicLargeAngularMotorGrey),
            _ => None,
        }
    }

    /// The wire value of this variant.
    #[verifier::when_used_as_spec(spec_value)]
    pub fn value(self) -> (r: u8)
        ensures
            r == self.spec_value(),
    {
        match self {
            DeviceType::Unknown => 0,
            DeviceType::SimpleMediumLinearMotor => 1,
            DeviceType::TrainMotor => 2,
            DeviceType::Light => 8,
            DeviceType::VoltageSensor => 20,
            DeviceType::CurrentSensor => 21,
            DeviceType::PiezoBuzzer => 22,
            DeviceType::HubLed => 23,
            DeviceType::TiltSensor => 34,
            DeviceType::MotionSensor => 35,
            DeviceType::ColorDistanceSensor => 37,
            DeviceType::MediumLinearMotor => 38,
            DeviceType::MoveHubMediumLinearMotor => 39,
            DeviceType::MoveHubTiltSensor => 40,
            DeviceType::DuploTrainBaseMotor => 41,
            DeviceType::DuploTrainBaseSpeaker => 42,
            DeviceType::DuploTrainBaseColorSensor => 43,
            DeviceType::DuploTrainBaseSpeedometer => 44,
            DeviceType::TechnicLargeLinearMotor => 46,
            DeviceType::TechnicXLargeLinearMotor => 47,
            DeviceType::TechnicMediumAngularMotor => 48,
            DeviceType::TechnicLargeAngularMotor => 49,
            DeviceType::TechnicMediumHubGestSensor => 54,
            DeviceType::RemoteControlButton => 55,
            DeviceType::RemoteControlRssi => 56,
            DeviceType::TechnicMediumHubAccelerometer => 57,
            DeviceType::TechnicMediumHubGyroSensor => 58,
            DeviceType::TechnicMediumHubTiltSensor => 59,
            DeviceType::TechnicMediumHubTemperatureSensor => 60,
            DeviceType::TechnicColorSensor => 61,
            DeviceType::TechnicDistanceSensor => 62,
            DeviceType::TechnicForceSensor => 63,
            DeviceType::Technic3x3ColorLightMatrix => 64,
            DeviceType::TechnicSmallAngularMotor => 65,
            DeviceType::MarioAccelerometer => 71,
            DeviceType::MarioBarcodeReader => 73,
            DeviceType::MarioPantsSensor => 74,
            DeviceType::TechnicMediumAngularMotorGrey => 75,
            DeviceType::TechnicLargeAngularMotorGrey => 76,
        }
    }

    /// Decodes a wire value; an unknown value is a parse error naming the type and the value.
    pub fn try_from(v: u8) -> (r: Result<DeviceType, Error>)
        ensures
            match DeviceType::spec_from_value(v) {
                Some(t) => r == Ok::<DeviceType, Error>(t),
                None => r matches Err(e) && e.is_parse_with(unknown_discriminant_text("DeviceType"@, v as nat)),
            },
    {
        match v {
            0 => Ok(DeviceType::Unknown),
            1 => Ok(DeviceType::SimpleMediumLinearMotor),
            2 => Ok(DeviceType::TrainMotor),
            8 => Ok(DeviceType::Light),
            20 => Ok(DeviceType::VoltageSensor),
            21 => Ok(DeviceType::CurrentSensor),
            22 => Ok(DeviceType::PiezoBuzzer),
            23 => Ok(DeviceType::HubLed),
            34 => Ok(DeviceType::TiltSensor),
            35 => Ok(DeviceType::MotionSensor),
            37 => Ok(DeviceType::ColorDistanceSensor),
            38 => Ok(DeviceType::MediumLinearMotor),
            39 => Ok(DeviceType::MoveHubMediumLinearMotor),
            40 => Ok(DeviceType::MoveHubTiltSensor),
            41 => Ok(DeviceType::DuploTrainBaseMotor),
            42 => Ok(DeviceType::DuploTrainBaseSpeaker),
            43 => Ok(DeviceType::DuploTrainBaseColorSensor),
            44 => Ok(DeviceType::DuploTrainBaseSpeedometer),
            46 => Ok(DeviceType::TechnicLargeLinearMotor),
            47 => Ok(DeviceType::TechnicXLargeLinearMotor),
            48 => Ok(DeviceType::TechnicMediumAngularMotor),
            49 => Ok(DeviceType::TechnicLargeAngularMotor),
            54 => Ok(DeviceType::TechnicMediumHubGestSensor),
            55 => Ok(DeviceType::RemoteControlButton),
            56 => Ok(DeviceType::RemoteControlRssi),
            57 => Ok(DeviceType::TechnicMediumHubAccelerometer),
            58 => Ok(DeviceType::TechnicMediumHubGyroSensor),
            59 => Ok(DeviceType::TechnicMediumHubTiltSensor),
            60 => Ok(DeviceType::TechnicMediumHubTemperatureSensor),
            61 => Ok(DeviceType::TechnicColorSensor),
            62 => Ok(DeviceType::TechnicDistanceSensor),
            63 => Ok(DeviceType::TechnicForceSensor),
            64 => Ok(DeviceType::Technic3x3ColorLightMatrix),
            65 => Ok(DeviceType::TechnicSmallAngularMotor),
            71 => Ok(DeviceType::MarioAccelerometer),
            73 => Ok(DeviceType::MarioBarcodeReader),
            74 => Ok(DeviceType::MarioPantsSensor),
            75 => Ok(DeviceType::TechnicMediumAngularMotorGrey),
            76 => Ok(DeviceType::TechnicLargeAngularMotorGrey),
            _ => Err(unknown_discriminant("DeviceType", v as u64)),
        }
    }

    /// Every variant decodes from its own wire value.
    pub proof fn lemma_value_decodes(t: DeviceType)
        ensures
            DeviceType::spec_from_value(t.spec_value()) == Some(t),
    {
    }

    /// A wire value that decodes gives a variant with that very wire value.
    pub proof fn lemma_decoded_value(v: u8)
        ensures
            DeviceType::spec_from_value(v) matches Some(t) ==> t.spec_value() == v,
    {
    }
}

/// Colour indices used by lights and colour sensors.
#[derive(Debug, Clone, Copy, PartialEq, Eq, Hash, Structural)]
pub enum Color {
    Black,
    Pink,
    Purple,
    Blue,
    LightBlue,
    Cyan,
    Green,
    Yellow,
    Orange,
    Red,
    White,
    NoColor,
}

impl Color {
    /// The wire value of this variant.
    pub open spec fn spec_value(self) -> u8 {
        match self {
            Color::Black => 0,
            Color::Pink => 1,
            Color::Purple => 2,
            Color::Blue => 3,
            Color::LightBlue => 4,
            Color::Cyan => 5,
            Color::Green => 6,
            Color::Yellow => 7,
            Color::Orange => 8,
            Color::Red => 9,
            Color::White => 10,
            Color::NoColor => 255,
        }
    }

    /// The variant whose wire value is `v`, if there is one.
    pub open spec fn spec_from_value(v: u8) -> Option<Color> {
        match v {
            0 => Some(Color::Black),
            1 => Some(Color::Pink),
            2 => Some(Color::Purple),
            3 => Some(Color::Blue),
            4 => Some(Color::LightBlue),
            5 => Some(Color::Cyan),
            6 => Some(Color::Green),
            7 => Some(Color::Yellow),
            8 => Some(Color::Orange),
            9 => Some(Color::Red),
            10 => Some(Color::White),
            255 => Some(Color::NoColor),
            _ => None,
        }
    }

    /// The wire value of this variant.
    #[verifier::when_used_as_spec(spec_value)]
    pub fn value(self) -> (r: u8)
        ensures
            r == self.spec_value(),
    {
        match self {
            Color::Black => 0,
            Color::Pink => 1,
            Color::Purple => 2,
            Color::Blue => 3,
            Color::LightBlue => 4,
            Color::Cyan => 5,
            Color::Green => 6,
            Color::Yellow => 7,
            Color::Orange => 8,
            Color::Red => 9,
            Color::White => 10,
            Color::NoColor => 255,
        }
    }

    /// Decodes a wire value; an unknown value is a parse error naming the type and the value.
    pub fn try_from(v: u8) -> (r: Result<Color, Error>)
        ensures
            match Color::spec_from_value(v) {
                Some(t) => r == Ok::<Color, Error>(t),
                None => r matches Err(e) && e.is_parse_with(unknown_discriminant_text("Color"@, v as nat)),
            },
    {
        match v {
            0 => Ok(Color::Black),
            1 => Ok(Color::Pink),
            2 => Ok(Color::Purple),
            3 => Ok(Color::Blue),
            4 => Ok(Color::LightBlue),
            5 => Ok(Color::Cyan),
            6 => Ok(Color::Green),
            7 => Ok(Color::Yellow),
            8 => Ok(Color::Orange),
            9 => Ok(Color::Red),
            10 => Ok(Color::White),
            255 => Ok(Color::NoColor),
            _ => Err(unknown_discriminant("Color", v as u64)),
        }
    }

    /// Every variant decodes from its own wire value.
    pub proof fn lemma_value_decodes(t: Color)
        ensures
            Color::spec_from_value(t.spec_value()) == Some(t),
    {
    }

    /// A wire value that decodes gives a variant with that very wire value.
    pub proof fn lemma_decoded_value(v: u8)
        ensures
            Color::spec_from_value(v) matches Some(t) ==> t.spec_value() == v,
    {
    }
}

/// Button states reported by hubs and remotes.
#[derive(Debug, Clone, Copy, PartialEq, Eq, Hash, Structural)]
pub enum ButtonState {
    Released,
    Up,
    Pressed,
    Stop,
    Down,
}

impl ButtonState {
    /// The wire value of this variant.
    pub open spec fn spec_value(self) -> u8 {
        match self {
            ButtonState::Released => 0,
            ButtonState::Up => 1,
            ButtonState::Pressed => 2,
            ButtonState::Stop => 127,
            ButtonState::Down => 255,
        }
    }

    /// The variant whose wire value is `v`, if there is one.
    pub open spec fn spec_from_value(v: u8) -> Option<ButtonState> {
        match v {
            0 => Some(ButtonState::Released),
            1 => Some(ButtonState::Up),
            2 => Some(ButtonState::Pressed),
            127 => Some(ButtonState::Stop),
            255 => Some(ButtonState::Down),
            _ => None,
        }
    }

    /// The wire value of this variant.
    #[verifier::when_used_as_spec(spec_value)]
    pub fn value(self) -> (r: u8)
        ensures
            r == self.spec_value(),
    {
        match self {
            ButtonState::Released => 0,
            ButtonState::Up => 1,
            ButtonState::Pressed => 2,
            ButtonState::Stop => 127,
            ButtonState::Down => 255,
        }
    }

    /// Decodes a wire value; an unknown value is a parse error naming the type and the value.
    pub fn try_from(v: u8) -> (r: Result<ButtonState, Error>)
        ensures
            match ButtonState::spec_from_value(v) {
                Some(t) => r == Ok::<ButtonState, Error>(t),
                None => r matches Err(e) && e.is_parse_with(unknown_discriminant_text("ButtonState"@, v as nat)),
            },
    {
        match v {
            0 => Ok(ButtonState::Released),
            1 => Ok(ButtonState::Up),
            2 => Ok(ButtonState::Pressed),
            127 => Ok(ButtonState::Stop),
            255 => Ok(ButtonState::Down),
            _ => Err(unknown_discriminant("ButtonState", v as u64)),
        }
    }

    /// Every variant decodes from its own wire value.
    pub proof fn lemma_value_decodes(t: ButtonState)
        ensures
            ButtonState::spec_from_value(t.spec_value()) == Some(t),
    {
    }

    /// A wire value that decodes gives a variant with that very wire value.
    pub proof fn lemma_decoded_value(v: u8)
        ensures
            ButtonState::spec_from_value(v) matches Some(t) ==> t.spec_value() == v,
    {
    }
}

/// End-state behaviour when a motor command completes.
#[derive(Debug, Clone, Copy, PartialEq, Eq, Hash, Structural)]
pub enum BrakingStyle {
    Float,
    Hold,
    Brake,
}

impl BrakingStyle {
    /// The wire value of this variant.
    pub open spec fn spec_value(self) -> u8 {
        match self {
            BrakingStyle::Float => 0,
            BrakingStyle::Hold => 126,
            BrakingStyle::Brake => 127,
        }
    }

    /// The variant whose wire value is `v`, if there is one.
    pub open spec fn spec_from_value(v: u8) -> Option<BrakingStyle> {
        match v {
            0 => Some(BrakingStyle::Float),
            126 => Some(BrakingStyle::Hold),
            127 => Some(BrakingStyle::Brake),
            _ => None,
        }
    }

    /// The wire value of this variant.
    #[verifier::when_used_as_spec(spec_value)]
    pub fn value(self) -> (r: u8)
        ensures
            r == self.spec_value(),
    {
        match self {
            BrakingStyle::Float => 0,
            BrakingStyle::Hold => 126,
            BrakingStyle::Brake => 127,
        }
    }

    /// Decodes a wire value; an unknown value is a parse error naming the type and the value.
    pub fn try_from(v: u8) -> (r: Result<BrakingStyle, Error>)
        ensures
            match BrakingStyle::spec_from_value(v) {
                Some(t) => r == Ok::<BrakingStyle, Error>(t),
                None => r matches Err(e) && e.is_parse_with(unknown_discriminant_text("BrakingStyle"@, v as nat)),
            },
    {
        match v {
            0 => Ok(BrakingStyle::Float),
            126 => Ok(BrakingStyle::Hold),
            127 => Ok(BrakingStyle::Brake),
            _ => Err(unknown_discriminant("BrakingStyle", v as u64)),
        }
    }

    /// Every variant decodes from its own wire value.
    pub proof fn lemma_value_decodes(t: BrakingStyle)
        ensures
            BrakingStyle::spec_from_value(t.spec_value()) == Some(t),
    {
    }

    /// A wire value that decodes gives a variant with that very wire value.
    pub proof fn lemma_decoded_value(v: u8)
        ensures
            BrakingStyle::spec_from_value(v) matches Some(t) ==> t.spec_value() == v,
    {
    }
}

/// Sounds the DUPLO train base can play.
#[derive(Debug, Clone, Copy, PartialEq, Eq, Hash, Structural)]
pub enum DuploTrainBaseSound {
    Brake,
    StationDeparture,
    WaterRefill,
    Horn,
    Steam,
}

impl DuploTrainBaseSound {
    /// The wire value of this variant.
    pub open spec fn spec_value(self) -> u8 {
        match self {
            DuploTrainBaseSound::Brake => 3,
            DuploTrainBaseSound::StationDeparture => 5,
            DuploTrainBaseSound::WaterRefill => 7,
            DuploTrainBaseSound::Horn => 9,
            DuploTrainBaseSound::Steam => 10,
        }
    }

    /// The variant whose wire value is `v`, if there is one.
    pub open spec fn spec_from_value(v: u8) -> Option<DuploTrainBaseSound> {
        match v {
            3 => Some(DuploTrainBaseSound::Brake),
            5 => Some(DuploTrainBaseSound::StationDeparture),
            7 => Some(DuploTrainBaseSound::WaterRefill),
            9 => Some(DuploTrainBaseSound::Horn),
            10 => Some(DuploTrainBaseSound::Steam),
            _ => None,
        }
    }

    /// The wire value of this variant.
    #[verifier::when_used_as_spec(spec_value)]
    pub fn value(self) -> (r: u8)
        ensures
            r == self.spec_value(),
    {
        match self {
            DuploTrainBaseSound::Brake => 3,
            DuploTrainBaseSound::StationDeparture => 5,
            DuploTrainBaseSound::WaterRefill => 7,
            DuploTrainBaseSound::Horn => 9,
            DuploTrainBaseSound::Steam => 10,
        }
    }

    /// Decodes a wire value; an unknown value is a parse error naming the type and the value.
    pub fn try_from(v: u8) -> (r: Result<DuploTrainBaseSound, Error>)
        ensures
            match DuploTrainBaseSound::spec_from_value(v) {
                Some(t) => r == Ok::<DuploTrainBaseSound, Error>(t),
                None => r matches Err(e) && e.is_parse_with(unknown_discriminant_text("DuploTrainBaseSound"@, v as nat)),
            },
    {
        match v {
            3 => Ok(DuploTrainBaseSound::Brake),
            5 => Ok(DuploTrainBaseSound::StationDeparture),
            7 => Ok(DuploTrainBaseSound::WaterRefill),
            9 => Ok(DuploTrainBaseSound::Horn),
            10 => Ok(DuploTrainBaseSound::Steam),
            _ => Err(unknown_discriminant("DuploTrainBaseSound", v as u64)),
        }
    }

    /// Every variant decodes from its own wire value.
    pub proof fn lemma_value_decodes(t: DuploTrainBaseSound)
        ensures
            DuploTrainBaseSound::spec_from_value(t.spec_value()) == Some(t),
    {
    }

    /// A wire value that decodes gives a variant with that very wire value.
    pub proof fn lemma_decoded_value(v: u8)
        ensures
            DuploTrainBaseSound::spec_from_value(v) matches Some(t) ==> t.spec_value() == v,
    {
    }
}

/// Byte 3 of the BLE advertisement manufacturer data identifies the hub model.
#[derive(Debug, Clone, Copy, PartialEq, Eq, Hash, Structural)]
pub enum BleManufacturerData {
    DuploTrainBaseId,
    MoveHubId,
    HubId,
    RemoteControlId,
    MarioId,
    LuigiId,
    PeachId,
    TechnicMediumHubId,
    TechnicSmallHubId,
}

impl BleManufacturerData {
    /// The wire value of this variant.
    pub open spec fn spec_value(self) -> u8 {
        match self {
            BleManufacturerData::DuploTrainBaseId => 32,
            BleManufacturerData::MoveHubId => 64,
            BleManufacturerData::HubId => 65,
            BleManufacturerData::RemoteControlId => 66,
            BleManufacturerData::MarioId => 67,
            BleManufacturerData::LuigiId => 68,
            BleManufacturerData::PeachId => 69,
            BleManufacturerData::TechnicMediumHubId => 128,
            BleManufacturerData::TechnicSmallHubId => 131,
        }
    }

    /// The variant whose wire value is `v`, if there is one.
    pub open spec fn spec_from_value(v: u8) -> Option<BleManufacturerData> {
        match v {
            32 => Some(BleManufacturerData::DuploTrainBaseId),
            64 => Some(BleManufacturerData::MoveHubId),
            65 => Some(BleManufacturerData::HubId),
            66 => Some(BleManufacturerData::RemoteControlId),
            67 => Some(BleManufacturerData::MarioId),
            68 => Some(BleManufacturerData::LuigiId),
            69 => Some(BleManufacturerData::PeachId),
            128 => Some(BleManufacturerData::TechnicMediumHubId),
            131 => Some(BleManufacturerData::TechnicSmallHubId),
            _ => None,
        }
    }

    /// The wire value of this variant.
    #[verifier::when_used_as_spec(spec_value)]
    pub fn value(self) -> (r: u8)
        ensures
            r == self.spec_value(),
    {
        match self {
            BleManufacturerData::DuploTrainBaseId => 32,
            BleManufacturerData::MoveHubId => 64,
            BleManufacturerData::HubId => 65,
            BleManufacturerData::RemoteControlId => 66,
            BleManufacturerData::MarioId => 67,
            BleManufacturerData::LuigiId => 68,
            BleManufacturerData::PeachId => 69,
            BleManufacturerData::TechnicMediumHubId => 128,
            BleManufacturerData::TechnicSmallHubId => 131,
        }
    }

    /// Decodes a wire value; an unknown value is a parse error naming the type and the value.
    pub fn try_from(v: u8) -> (r: Result<BleManufacturerData, Error>)
        ensures
            match BleManufacturerData::spec_from_value(v) {
                Some(t) => r == Ok::<BleManufacturerData, Error>(t),
                None => r matches Err(e) && e.is_parse_with(unknown_discriminant_text("BleManufacturerData"@, v as nat)),
            },
    {
        match v {
            32 => Ok(BleManufacturerData::DuploTrainBaseId),
            64 => Ok(BleManufacturerData::MoveHubId),
            65 => Ok(BleManufacturerData::HubId),
            66 => Ok(BleManufacturerData::RemoteControlId),
            67 => Ok(BleManufacturerData::MarioId),
            68 => Ok(BleManufacturerData::LuigiId),
            69 => Ok(BleManufacturerData::PeachId),
            128 => Ok(BleManufacturerData::TechnicMediumHubId),
            131 => Ok(BleManufacturerData::TechnicSmallHubId),
            _ => Err(unknown_discriminant("BleManufacturerData", v as u64)),
        }
    }

    /// Every variant decodes from its own wire value.
    pub proof fn lemma_value_decodes(t: BleManufacturerData)
        ensures
            BleManufacturerData::spec_from_value(t.spec_value()) == Some(t),
    {
    }

    /// A wire value that decodes gives a variant with that very wire value.
    pub proof fn lemma_decoded_value(v: u8)
        ensures
            BleManufacturerData::spec_from_value(v) matches Some(t) ==> t.spec_value() == v,
    {
    }
}

/// LPF2 upstream / downstream message type byte.
/// See <https://lego.github.io/lego-ble-wireless-protocol-docs/index.html#message-types>
#[derive(Debug, Clone, Copy, PartialEq, Eq, Hash, Structural)]
pub enum MessageType {
    HubProperties,
    HubActions,
    HubAlerts,
    HubAttachedIo,
    GenericErrorMessages,
    HwNetworkCommands,
    FwUpdateGoIntoBootMode,
    FwUpdateLockMemory,
    FwUpdateLockStatusRequest,
    FwLockStatus,
    PortInformationRequest,
    PortModeInformationRequest,
    PortInputFormatSetupSingle,
    PortInputFormatSetupCombinedMode,
    PortInformation,
    PortModeInformation,
    PortValueSingle,
    PortValueCombinedMode,
    PortInputFormatSingle,
    PortInputFormatCombinedMode,
    VirtualPortSetup,
    PortOutputCommand,
    PortOutputCommandFeedback,
}

impl MessageType {
    /// The wire value of this variant.
    pub open spec fn spec_value(self) -> u8 {
        match self {
            MessageType::HubProperties => 0x01,
            MessageType::HubActions => 0x02,
            MessageType::HubAlerts => 0x03,
            MessageType::HubAttachedIo => 0x04,
            MessageType::GenericErrorMessages => 0x05,
            MessageType::HwNetworkCommands => 0x08,
            MessageType::FwUpdateGoIntoBootMode => 0x10,
            MessageType::FwUpdateLockMemory => 0x11,
            MessageType::FwUpdateLockStatusRequest => 0x12,
            MessageType::FwLockStatus => 0x13,
            MessageType::PortInformationRequest => 0x21,
            MessageType::PortModeInformationRequest => 0x22,
            MessageType::PortInputFormatSetupSingle => 0x41,
            MessageType::PortInputFormatSetupCombinedMode => 0x42,
            MessageType::PortInformation => 0x43,
            MessageType::PortModeInformation => 0x44,
            MessageType::PortValueSingle => 0x45,
            MessageType::PortValueCombinedMode => 0x46,
            MessageType::PortInputFormatSingle => 0x47,
            MessageType::PortInputFormatCombinedMode => 0x48,
            MessageType::VirtualPortSetup => 0x61,
            MessageType::PortOutputCommand => 0x81,
            MessageType::PortOutputCommandFeedback => 0x82,
        }
    }

    /// The variant whose wire value is `v`, if there is one.
    pub open spec fn spec_from_value(v: u8) -> Option<MessageType> {
        match v {
            0x01 => Some(MessageType::HubProperties),
            0x02 => Some(MessageType::HubActions),
            0x03 => Some(MessageType::HubAlerts),
            0x04 => Some(MessageType::HubAttachedIo),
            0x05 => Some(MessageType::GenericErrorMessages),
            0x08 => Some(MessageType::HwNetworkCommands),
            0x10 => Some(MessageType::FwUpdateGoIntoBootMode),
            0x11 => Some(MessageType::FwUpdateLockMemory),
            0x12 => Some(MessageType::FwUpdateLockStatusRequest),
            0x13 => Some(MessageType::FwLockStatus),
            0x21 => Some(MessageType::PortInformationRequest),
            0x22 => Some(MessageType::PortModeInformationRequest),
            0x41 => Some(MessageType::PortInputFormatSetupSingle),
            0x42 => Some(MessageType::PortInputFormatSetupCombinedMode),
            0x43 => Some(MessageType::PortInformation),
            0x44 => Some(MessageType::PortModeInformation),
            0x45 => Some(MessageType::PortValueSingle),
            0x46 => Some(MessageType::PortValueCombinedMode),
            0x47 => Some(MessageType::PortInputFormatSingle),
            0x48 => Some(MessageType::PortInputFormatCombinedMode),
            0x61 => Some(MessageType::VirtualPortSetup),
            0x81 => Some(MessageType::PortOutputCommand),
            0x82 => Some(MessageType::PortOutputCommandFeedback),
            _ => None,
        }
    }

    /// The wire value of this variant.
    #[verifier::when_used_as_spec(spec_value)]
    pub fn value(self) -> (r: u8)
        ensures
            r == self.spec_value(),
    {
        match self {
            MessageType::HubProperties => 0x01,
            MessageType::HubActions => 0x02,
            MessageType::HubAlerts => 0x03,
            MessageType::HubAttachedIo => 0x04,
            MessageType::GenericErrorMessages => 0x05,
            MessageType::HwNetworkCommands => 0x08,
            MessageType::FwUpdateGoIntoBootMode => 0x10,
            MessageType::FwUpdateLockMemory => 0x11,
            MessageType::FwUpdateLockStatusRequest => 0x12,
            MessageType::FwLockStatus => 0x13,
            MessageType::PortInformationRequest => 0x21,
            MessageType::PortModeInformationRequest => 0x22,
            MessageType::PortInputFormatSetupSingle => 0x41,
            MessageType::PortInputFormatSetupCombinedMode => 0x42,
            MessageType::PortInformation => 0x43,
            MessageType::PortModeInformation => 0x44,
            MessageType::PortValueSingle => 0x45,
            MessageType::PortValueCombinedMode => 0x46,
            MessageType::PortInputFormatSingle => 0x47,
            MessageType::PortInputFormatCombinedMode => 0x48,
            MessageType::VirtualPortSetup => 0x61,
            MessageType::PortOutputCommand => 0x81,
            MessageType::PortOutputCommandFeedback => 0x82,
        }
    }

    /// Decodes a wire value; an unknown value is a parse error naming the type and the value.
    pub fn try_from(v: u8) -> (r: Result<MessageType, Error>)
        ensures
            match MessageType::spec_from_value(v) {
                Some(t) => r == Ok::<MessageType, Error>(t),
                None => r matches Err(e) && e.is_parse_with(unknown_discriminant_text("MessageType"@, v as nat)),
            },
    {
        match v {
            0x01 => Ok(MessageType::HubProperties),
            0x02 => Ok(MessageType::HubActions),
            0x03 => Ok(MessageType::HubAlerts),
            0x04 => Ok(MessageType::HubAttachedIo),
            0x05 => Ok(MessageType::GenericErrorMessages),
            0x08 => Ok(MessageType::HwNetworkCommands),
            0x10 => Ok(MessageType::FwUpdateGoIntoBootMode),
            0x11 => Ok(MessageType::FwUpdateLockMemory),
            0x12 => Ok(MessageType::FwUpdateLockStatusRequest),
            0x13 => Ok(MessageType::FwLockStatus),
            0x21 => Ok(MessageType::PortInformationRequest),
            0x22 => Ok(MessageType::PortModeInformationRequest),
            0x41 => Ok(MessageType::PortInputFormatSetupSingle),
            0x42 => Ok(MessageType::PortInputFormatSetupCombinedMode),
            0x43 => Ok(MessageType::PortInformation),
            0x44 => Ok(MessageType::PortModeInformation),
            0x45 => Ok(MessageType::PortValueSingle),
            0x46 => Ok(MessageType::PortValueCombinedMode),
            0x47 => Ok(MessageType::PortInputFormatSingle),
            0x48 => Ok(MessageType::PortInputFormatCombinedMode),
            0x61 => Ok(MessageType::VirtualPortSetup),
            0x81 => Ok(MessageType::PortOutputCommand),
            0x82 => Ok(MessageType::PortOutputCommandFeedback),
            _ => Err(unknown_discriminant("MessageType", v as u64)),
        }
    }

    /// Every variant decodes from its own wire value.
    pub proof fn lemma_value_decodes(t: MessageType)
        ensures
            MessageType::spec_from_value(t.spec_value()) == Some(t),
    {
    }

    /// A wire value that decodes gives a variant with that very wire value.
    pub proof fn lemma_decoded_value(v: u8)
        ensures
            MessageType::spec_from_value(v) matches Some(t) ==> t.spec_value() == v,
    {
    }
}

/// Which hub property a `HUB_PROPERTIES` message concerns.
#[derive(Debug, Clone, Copy, PartialEq, Eq, Hash, Structural)]
pub enum HubPropertyReference {
    AdvertisingName,
    Button,
    FwVersion,
    HwVersion,
    Rssi,
    BatteryVoltage,
    BatteryType,
    ManufacturerName,
    RadioFirmwareVersion,
    LegoWirelessProtocolVersion,
    SystemTypeId,
    HwNetworkId,
    PrimaryMacAddress,
    SecondaryMacAddress,
    HardwareNetworkFamily,
}

impl HubPropertyReference {
    /// The wire value of this variant.
    pub open spec fn spec_value(self) -> u8 {
        match self {
            HubPropertyReference::AdvertisingName => 0x01,
            HubPropertyReference::Button => 0x02,
            HubPropertyReference::FwVersion => 0x03,
            HubPropertyReference::HwVersion => 0x04,
            HubPropertyReference::Rssi => 0x05,
            HubPropertyReference::BatteryVoltage => 0x06,
            HubPropertyReference::BatteryType => 0x07,
            HubPropertyReference::ManufacturerName => 0x08,
            HubPropertyReference::RadioFirmwareVersion => 0x09,
            HubPropertyReference::LegoWirelessProtocolVersion => 0x0A,
            HubPropertyReference::SystemTypeId => 0x0B,
            HubPropertyReference::HwNetworkId => 0x0C,
            HubPropertyReference::PrimaryMacAddress => 0x0D,
            HubPropertyReference::SecondaryMacAddress => 0x0E,
            HubPropertyReference::HardwareNetworkFamily => 0x0F,
        }
    }

    /// The variant whose wire value is `v`, if there is one.
    pub open spec fn spec_from_value(v: u8) -> Option<HubPropertyReference> {
        match v {
            0x01 => Some(HubPropertyReference::AdvertisingName),
            0x02 => Some(HubPropertyReference::Button),
            0x03 => Some(HubPropertyReference::FwVersion),
            0x04 => Some(HubPropertyReference::HwVersion),
            0x05 => Some(HubPropertyReference::Rssi),
            0x06 => Some(HubPropertyReference::BatteryVoltage),
            0x07 => Some(HubPropertyReference::BatteryType),
            0x08 => Some(HubPropertyReference::ManufacturerName),
            0x09 => Some(HubPropertyReference::RadioFirmwareVersion),
            0x0A => Some(HubPropertyReference::LegoWirelessProtocolVersion),
            0x0B => Some(HubPropertyReference::SystemTypeId),
            0x0C => Some(HubPropertyReference::HwNetworkId),
            0x0D => Some(HubPropertyReference::PrimaryMacAddress),
            0x0E => Some(HubPropertyReference::SecondaryMacAddress),
            0x0F => Some(HubPropertyReference::HardwareNetworkFamily),
            _ => None,
        }
    }

    /// The wire value of this variant.
    #[verifier::when_used_as_spec(spec_value)]
    pub fn value(self) -> (r: u8)
        ensures
            r == self.spec_value(),
    {
        match self {
            HubPropertyReference::AdvertisingName => 0x01,
            HubPropertyReference::Button => 0x02,
            HubPropertyReference::FwVersion => 0x03,
            HubPropertyReference::HwVersion => 0x04,
            HubPropertyReference::Rssi => 0x05,
            HubPropertyReference::BatteryVoltage => 0x06,
            HubPropertyReference::BatteryType => 0x07,
            HubPropertyReference::ManufacturerName => 0x08,
            HubPropertyReference::RadioFirmwareVersion => 0x09,
            HubPropertyReference::LegoWirelessProtocolVersion => 0x0A,
            HubPropertyReference::SystemTypeId => 0x0B,
            HubPropertyReference::HwNetworkId => 0x0C,
            HubPropertyReference::PrimaryMacAddress => 0x0D,
            HubPropertyReference::SecondaryMacAddress => 0x0E,
            HubPropertyReference::HardwareNetworkFamily => 0x0F,
        }
    }

    /// Decodes a wire value; an unknown value is a parse error naming the type and the value.
    pub fn try_from(v: u8) -> (r: Result<HubPropertyReference, Error>)
        ensures
            match HubPropertyReference::spec_from_value(v) {
                Some(t) => r == Ok::<HubPropertyReference, Error>(t),
                None => r matches Err(e) && e.is_parse_with(unknown_discriminant_text("HubPropertyReference"@, v as nat)),
            },
    {
        match v {
            0x01 => Ok(HubPropertyReference::AdvertisingName),
            0x02 => Ok(HubPropertyReference::Button),
            0x03 => Ok(HubPropertyReference::FwVersion),
            0x04 => Ok(HubPropertyReference::HwVersion),
            0x05 => Ok(HubPropertyReference::Rssi),
            0x06 => Ok(HubPropertyReference::BatteryVoltage),
            0x07 => Ok(HubPropertyReference::BatteryType),
            0x08 => Ok(HubPropertyReference::ManufacturerName),
            0x09 => Ok(HubPropertyReference::RadioFirmwareVersion),
            0x0A => Ok(HubPropertyReference::LegoWirelessProtocolVersion),
            0x0B => Ok(HubPropertyReference::SystemTypeId),
            0x0C => Ok(HubPropertyReference::HwNetworkId),
            0x0D => Ok(HubPropertyReference::PrimaryMacAddress),
            0x0E => Ok(HubPropertyReference::SecondaryMacAddress),
            0x0F => Ok(HubPropertyReference::HardwareNetworkFamily),
            _ => Err(unknown_discriminant("HubPropertyReference", v as u64)),
        }
    }

    /// Every variant decodes from its own wire value.
    pub proof fn lemma_value_decodes(t: HubPropertyReference)
        ensures
            HubPropertyReference::spec_from_value(t.spec_value()) == Some(t),
    {
    }

    /// A wire value that decodes gives a variant with that very wire value.
    pub proof fn lemma_decoded_value(v: u8)
        ensures
            HubPropertyReference::spec_from_value(v) matches Some(t) ==> t.spec_value() == v,
    {
    }
}

/// What a `HUB_PROPERTIES` message asks for or reports.
#[derive(Debug, Clone, Copy, PartialEq, Eq, Hash, Structural)]
pub enum HubPropertyOperation {
    SetDownstream,
    EnableUpdatesDownstream,
    DisableUpdatesDownstream,
    ResetDownstream,
    RequestUpdateDownstream,
    UpdateUpstream,
}

impl HubPropertyOperation {
    /// The wire value of this variant.
    pub open spec fn spec_value(self) -> u8 {
        match self {
            HubPropertyOperation::SetDownstream => 0x01,
            HubPropertyOperation::EnableUpdatesDownstream => 0x02,
            HubPropertyOperation::DisableUpdatesDownstream => 0x03,
            HubPropertyOperation::ResetDownstream => 0x04,
            HubPropertyOperation::RequestUpdateDownstream => 0x05,
            HubPropertyOperation::UpdateUpstream => 0x06,
        }
    }

    /// The variant whose wire value is `v`, if there is one.
    pub open spec fn spec_from_value(v: u8) -> Option<HubPropertyOperation> {
        match v {
            0x01 => Some(HubPropertyOperation::SetDownstream),
            0x02 => Some(HubPropertyOperation::EnableUpdatesDownstream),
            0x03 => Some(HubPropertyOperation::DisableUpdatesDownstream),
            0x04 => Some(HubPropertyOperation::ResetDownstream),
            0x05 => Some(HubPropertyOperation::RequestUpdateDownstream),
            0x06 => Some(HubPropertyOperation::UpdateUpstream),
            _ => None,
        }
    }

    /// The wire value of this variant.
    #[verifier::when_used_as_spec(spec_value)]
    pub fn value(self) -> (r: u8)
        ensures
            r == self.spec_value(),
    {
        match self {
            HubPropertyOperation::SetDownstream => 0x01,
            HubPropertyOperation::EnableUpdatesDownstream => 0x02,
            HubPropertyOperation::DisableUpdatesDownstream => 0x03,
            HubPropertyOperation::ResetDownstream => 0x04,
            HubPropertyOperation::RequestUpdateDownstream => 0x05,
            HubPropertyOperation::UpdateUpstream => 0x06,
        }
    }

    /// Decodes a wire value; an unknown value is a parse error naming the type and the value.
    pub fn try_from(v: u8) -> (r: Result<HubPropertyOperation, Error>)
        ensures
            match HubPropertyOperation::spec_from_value(v) {
                Some(t) => r == Ok::<HubPropertyOperation, Error>(t),
                None => r matches Err(e) && e.is_parse_with(unknown_discriminant_text("HubPropertyOperation"@, v as nat)),
            },
    {
        match v {
            0x01 => Ok(HubPropertyOperation::SetDownstream),
            0x02 => Ok(HubPropertyOperation::EnableUpdatesDownstream),
            0x03 => Ok(HubPropertyOperation::DisableUpdatesDownstream),
            0x04 => Ok(HubPropertyOperation::ResetDownstream),
            0x05 => Ok(HubPropertyOperation::RequestUpdateDownstream),
            0x06 => Ok(HubPropertyOperation::UpdateUpstream),
            _ => Err(unknown_discriminant("HubPropertyOperation", v as u64)),
        }
    }

    /// Every variant decodes from its own wire value.
    pub proof fn lemma_value_decodes(t: HubPropertyOperation)
        ensures
            HubPropertyOperation::spec_from_value(t.spec_value()) == Some(t),
    {
    }

    /// A wire value that decodes gives a variant with that very wire value.
    pub proof fn lemma_decoded_value(v: u8)
        ensures
            HubPropertyOperation::spec_from_value(v) matches Some(t) ==> t.spec_value() == v,
    {
    }
}

/// Actions sent downstream to the hub or received upstream as notifications.
/// See <https://lego.github.io/lego-ble-wireless-protocol-docs/index.html#action-types>
#[derive(Debug, Clone, Copy, PartialEq, Eq, Hash, Structural)]
pub enum ActionType {
    SwitchOffHub,
    Disconnect,
    VccPortControlOn,
    VccPortControlOff,
    ActivateBusyIndication,
    ResetBusyIndication,
    Shutdown,
    HubWillSwitchOff,
    HubWillDisconnect,
    HubWillGoIntoBootMode,
}

impl ActionType {
    /// The wire value of this variant.
    pub open spec fn spec_value(self) -> u8 {
        match self {
            ActionType::SwitchOffHub => 0x01,
            ActionType::Disconnect => 0x02,
            ActionType::VccPortControlOn => 0x03,
            ActionType::VccPortControlOff => 0x04,
            ActionType::ActivateBusyIndication => 0x05,
            ActionType::ResetBusyIndication => 0x06,
            ActionType::Shutdown => 0x2F,
            ActionType::HubWillSwitchOff => 0x30,
            ActionType::HubWillDisconnect => 0x31,
            ActionType::HubWillGoIntoBootMode => 0x32,
        }
    }

    /// The variant whose wire value is `v`, if there is one.
    pub open spec fn spec_from_value(v: u8) -> Option<ActionType> {
        match v {
            0x01 => Some(ActionType::SwitchOffHub),
            0x02 => Some(ActionType::Disconnect),
            0x03 => Some(ActionType::VccPortControlOn),
            0x04 => Some(ActionType::VccPortControlOff),
            0x05 => Some(ActionType::ActivateBusyIndication),
            0x06 => Some(ActionType::ResetBusyIndication),
            0x2F => Some(ActionType::Shutdown),
            0x30 => Some(ActionType::HubWillSwitchOff),
            0x31 => Some(ActionType::HubWillDisconnect),
            0x32 => Some(ActionType::HubWillGoIntoBootMode),
            _ => None,
        }
    }

    /// The wire value of this variant.
    #[verifier::when_used_as_spec(spec_value)]
    pub fn value(self) -> (r: u8)
        ensures
            r == self.spec_value(),
    {
        match self {
            ActionType::SwitchOffHub => 0x01,
            ActionType::Disconnect => 0x02,
            ActionType::VccPortControlOn => 0x03,
            ActionType::VccPortControlOff => 0x04,
            ActionType::ActivateBusyIndication => 0x05,
            ActionType::ResetBusyIndication => 0x06,
            ActionType::Shutdown => 0x2F,
            ActionType::HubWillSwitchOff => 0x30,
            ActionType::HubWillDisconnect => 0x31,
            ActionType::HubWillGoIntoBootMode => 0x32,
        }
    }

    /// Decodes a wire value; an unknown value is a parse error naming the type and the value.
    pub fn try_from(v: u8) -> (r: Result<ActionType, Error>)
        ensures
            match ActionType::spec_from_value(v) {
                Some(t) => r == Ok::<ActionType, Error>(t),
                None => r matches Err(e) && e.is_parse_with(unknown_discriminant_text("ActionType"@, v as nat)),
            },
    {
        match v {
            0x01 => Ok(ActionType::SwitchOffHub),
            0x02 => Ok(ActionType::Disconnect),
            0x03 => Ok(ActionType::VccPortControlOn),
            0x04 => Ok(ActionType::VccPortControlOff),
            0x05 => Ok(ActionType::ActivateBusyIndication),
            0x06 => Ok(ActionType::ResetBusyIndication),
            0x2F => Ok(ActionType::Shutdown),
            0x30 => Ok(ActionType::HubWillSwitchOff),
            0x31 => Ok(ActionType::HubWillDisconnect),
            0x32 => Ok(ActionType::HubWillGoIntoBootMode),
            _ => Err(unknown_discriminant("ActionType", v as u64)),
        }
    }

    /// Every variant decodes from its own wire value.
    pub proof fn lemma_value_decodes(t: ActionType)
        ensures
            ActionType::spec_from_value(t.spec_value()) == Some(t),
    {
    }

    /// A wire value that decodes gives a variant with that very wire value.
    pub proof fn lemma_decoded_value(v: u8)
        ensures
            ActionType::spec_from_value(v) matches Some(t) ==> t.spec_value() == v,
    {
    }
}

/// Kinds of hub alert.
#[derive(Debug, Clone, Copy, PartialEq, Eq, Hash, Structural)]
pub enum AlertType {
    LowVoltage,
    HighCurrent,
    LowSignalStrength,
    OverPowerCondition,
}

impl AlertType {
    /// The wire value of this variant.
    pub open spec fn spec_value(self) -> u8 {
        match self {
            AlertType::LowVoltage => 0x01,
            AlertType::HighCurrent => 0x02,
            AlertType::LowSignalStrength => 0x03,
            AlertType::OverPowerCondition => 0x04,
        }
    }

    /// The variant whose wire value is `v`, if there is one.
    pub open spec fn spec_from_value(v: u8) -> Option<AlertType> {
        match v {
            0x01 => Some(AlertType::LowVoltage),
            0x02 => Some(AlertType::HighCurrent),
            0x03 => Some(AlertType::LowSignalStrength),
            0x04 => Some(AlertType::OverPowerCondition),
            _ => None,
        }
    }

    /// The wire value of this variant.
    #[verifier::when_used_as_spec(spec_value)]
    pub fn value(self) -> (r: u8)
        ensures
            r == self.spec_value(),
    {
        match self {
            AlertType::LowVoltage => 0x01,
            AlertType::HighCurrent => 0x02,
            AlertType::LowSignalStrength => 0x03,
            AlertType::OverPowerCondition => 0x04,
        }
    }

    /// Decodes a wire value; an unknown value is a parse error naming the type and the value.
    pub fn try_from(v: u8) -> (r: Result<AlertType, Error>)
        ensures
            match AlertType::spec_from_value(v) {
                Some(t) => r == Ok::<AlertType, Error>(t),
                None => r matches Err(e) && e.is_parse_with(unknown_discriminant_text("AlertType"@, v as nat)),
            },
    {
        match v {
            0x01 => Ok(AlertType::LowVoltage),
            0x02 => Ok(AlertType::HighCurrent),
            0x03 => Ok(AlertType::LowSignalStrength),
            0x04 => Ok(AlertType::OverPowerCondition),
            _ => Err(unknown_discriminant("AlertType", v as u64)),
        }
    }

    /// Every variant decodes from its own wire value.
    pub proof fn lemma_value_decodes(t: AlertType)
        ensures
            AlertType::spec_from_value(t.spec_value()) == Some(t),
    {
    }

    /// A wire value that decodes gives a variant with that very wire value.
    pub proof fn lemma_decoded_value(v: u8)
        ensures
            AlertType::spec_from_value(v) matches Some(t) ==> t.spec_value() == v,
    {
    }
}

/// Whether an alert condition holds.
#[derive(Debug, Clone, Copy, PartialEq, Eq, Hash, Structural)]
pub enum AlertPayload {
    StatusOk,
    Alert,
}

impl AlertPayload {
    /// The wire value of this variant.
    pub open spec fn spec_value(self) -> u8 {
        match self {
            AlertPayload::StatusOk => 0x00,
            AlertPayload::Alert => 0xFF,
        }
    }

    /// The variant whose wire value is `v`, if there is one.
    pub open spec fn spec_from_value(v: u8) -> Option<AlertPayload> {
        match v {
            0x00 => Some(AlertPayload::StatusOk),
            0xFF => Some(AlertPayload::Alert),
            _ => None,
        }
    }

    /// The wire value of this variant.
    #[verifier::when_used_as_spec(spec_value)]
    pub fn value(self) -> (r: u8)
        ensures
            r == self.spec_value(),
    {
        match self {
            AlertPayload::StatusOk => 0x00,
            AlertPayload::Alert => 0xFF,
        }
    }

    /// Decodes a wire value; an unknown value is a parse error naming the type and the value.
    pub fn try_from(v: u8) -> (r: Result<AlertPayload, Error>)
        ensures
            match AlertPayload::spec_from_value(v) {
                Some(t) => r == Ok::<AlertPayload, Error>(t),
                None => r matches Err(e) && e.is_parse_with(unknown_discriminant_text("AlertPayload"@, v as nat)),
            },
    {
        match v {
            0x00 => Ok(AlertPayload::StatusOk),
            0xFF => Ok(AlertPayload::Alert),
            _ => Err(unknown_discriminant("AlertPayload", v as u64)),
        }
    }

    /// Every variant decodes from its own wire value.
    pub proof fn lemma_value_decodes(t: AlertPayload)
        ensures
            AlertPayload::spec_from_value(t.spec_value()) == Some(t),
    {
    }

    /// A wire value that decodes gives a variant with that very wire value.
    pub proof fn lemma_decoded_value(v: u8)
        ensures
            AlertPayload::spec_from_value(v) matches Some(t) ==> t.spec_value() == v,
    {
    }
}

/// Attach and detach events on a hub port.
#[derive(Debug, Clone, Copy, PartialEq, Eq, Hash, Structural)]
pub enum IoEvent {
    DetachedIo,
    AttachedIo,
    AttachedVirtualIo,
}

impl IoEvent {
    /// The wire value of this variant.
    pub open spec fn spec_value(self) -> u8 {
        match self {
            IoEvent::DetachedIo => 0x00,
            IoEvent::AttachedIo => 0x01,
            IoEvent::AttachedVirtualIo => 0x02,
        }
    }

    /// The variant whose wire value is `v`, if there is one.
    pub open spec fn spec_from_value(v: u8) -> Option<IoEvent> {
        match v {
            0x00 => Some(IoEvent::DetachedIo),
            0x01 => Some(IoEvent::AttachedIo),
            0x02 => Some(IoEvent::AttachedVirtualIo),
            _ => None,
        }
    }

    /// The wire value of this variant.
    #[verifier::when_used_as_spec(spec_value)]
    pub fn value(self) -> (r: u8)
        ensures
            r == self.spec_value(),
    {
        match self {
            IoEvent::DetachedIo => 0x00,
            IoEvent::AttachedIo => 0x01,
            IoEvent::AttachedVirtualIo => 0x02,
        }
    }

    /// Decodes a wire value; an unknown value is a parse error naming the type and the value.
    pub fn try_from(v: u8) -> (r: Result<IoEvent, Error>)
        ensures
            match IoEvent::spec_from_value(v) {
                Some(t) => r == Ok::<IoEvent, Error>(t),
                None => r matches Err(e) && e.is_parse_with(unknown_discriminant_text("IoEvent"@, v as nat)),
            },
    {
        match v {
            0x00 => Ok(IoEvent::DetachedIo),
            0x01 => Ok(IoEvent::AttachedIo),
            0x02 => Ok(IoEvent::AttachedVirtualIo),
            _ => Err(unknown_discriminant("IoEvent", v as u64)),
        }
    }

    /// Every variant decodes from its own wire value.
    pub proof fn lemma_value_decodes(t: IoEvent)
        ensures
            IoEvent::spec_from_value(t.spec_value()) == Some(t),
    {
    }

    /// A wire value that decodes gives a variant with that very wire value.
    pub proof fn lemma_decoded_value(v: u8)
        ensures
            IoEvent::spec_from_value(v) matches Some(t) ==> t.spec_value() == v,
    {
    }
}

/// See <https://lego.github.io/lego-ble-wireless-protocol-docs/index.html#error-codes>
#[derive(Debug, Clone, Copy, PartialEq, Eq, Hash, Structural)]
pub enum ErrorCode {
    Ack,
    Mack,
    BufferOverflow,
    Timeout,
    CommandNotRecognized,
    InvalidUse,
    Overcurrent,
    InternalError,
}

impl ErrorCode {
    /// The wire value of this variant.
    pub open spec fn spec_value(self) -> u8 {
        match self {
            ErrorCode::Ack => 0x01,
            ErrorCode::Mack => 0x02,
            ErrorCode::BufferOverflow => 0x03,
            ErrorCode::Timeout => 0x04,
            ErrorCode::CommandNotRecognized => 0x05,
            ErrorCode::InvalidUse => 0x06,
            ErrorCode::Overcurrent => 0x07,
            ErrorCode::InternalError => 0x08,
        }
    }

    /// The variant whose wire value is `v`, if there is one.
    pub open spec fn spec_from_value(v: u8) -> Option<ErrorCode> {
        match v {
            0x01 => Some(ErrorCode::Ack),
            0x02 => Some(ErrorCode::Mack),
            0x03 => Some(ErrorCode::BufferOverflow),
            0x04 => Some(ErrorCode::Timeout),
            0x05 => Some(ErrorCode::CommandNotRecognized),
            0x06 => Some(ErrorCode::InvalidUse),
            0x07 => Some(ErrorCode::Overcurrent),
            0x08 => Some(ErrorCode::InternalError),
            _ => None,
        }
    }

    /// The wire value of this variant.
    #[verifier::when_used_as_spec(spec_value)]
    pub fn value(self) -> (r: u8)
        ensures
            r == self.spec_value(),
    {
        match self {
            ErrorCode::Ack => 0x01,
            ErrorCode::Mack => 0x02,
            ErrorCode::BufferOverflow => 0x03,
            ErrorCode::Timeout => 0x04,
            ErrorCode::CommandNotRecognized => 0x05,
            ErrorCode::InvalidUse => 0x06,
            ErrorCode::Overcurrent => 0x07,
            ErrorCode::InternalError => 0x08,
        }
    }

    /// Decodes a wire value; an unknown value is a parse error naming the type and the value.
    pub fn try_from(v: u8) -> (r: Result<ErrorCode, Error>)
        ensures
            match ErrorCode::spec_from_value(v) {
                Some(t) => r == Ok::<ErrorCode, Error>(t),
                None => r matches Err(e) && e.is_parse_with(unknown_discriminant_text("ErrorCode"@, v as nat)),
            },
    {
        match v {
            0x01 => Ok(ErrorCode::Ack),
            0x02 => Ok(ErrorCode::Mack),
            0x03 => Ok(ErrorCode::BufferOverflow),
            0x04 => Ok(ErrorCode::Timeout),
            0x05 => Ok(ErrorCode::CommandNotRecognized),
            0x06 => Ok(ErrorCode::InvalidUse),
            0x07 => Ok(ErrorCode::Overcurrent),
            0x08 => Ok(ErrorCode::InternalError),
            _ => Err(unknown_discriminant("ErrorCode", v as u64)),
        }
    }

    /// Every variant decodes from its own wire value.
    pub proof fn lemma_value_decodes(t: ErrorCode)
        ensures
            ErrorCode::spec_from_value(t.spec_value()) == Some(t),
    {
    }

    /// A wire value that decodes gives a variant with that very wire value.
    pub proof fn lemma_decoded_value(v: u8)
        ensures
            ErrorCode::spec_from_value(v) matches Some(t) ==> t.spec_value() == v,
    {
    }
}

/// State machine values for port-output command tracking.
#[derive(Debug, Clone, Copy, PartialEq, Eq, Hash, Structural)]
pub enum CommandFeedback {
    TransmissionPending,
    TransmissionBusy,
    ExecutionPending,
    ExecutionBusy,
    ExecutionCompleted,
    ExecutionDiscarded,
    FeedbackDisabled,
    TransmissionDiscarded,
    FeedbackMissing,
}

impl CommandFeedback {
    /// The wire value of this variant.
    pub open spec fn spec_value(self) -> u8 {
        match self {
            CommandFeedback::TransmissionPending => 0x00,
            CommandFeedback::TransmissionBusy => 0x10,
            CommandFeedback::ExecutionPending => 0x20,
            CommandFeedback::ExecutionBusy => 0x21,
            CommandFeedback::ExecutionCompleted => 0x22,
            CommandFeedback::ExecutionDiscarded => 0x24,
            CommandFeedback::FeedbackDisabled => 0x26,
            CommandFeedback::TransmissionDiscarded => 0x44,
            CommandFeedback::FeedbackMissing => 0x66,
        }
    }

    /// The variant whose wire value is `v`, if there is one.
    pub open spec fn spec_from_value(v: u8) -> Option<CommandFeedback> {
        match v {
            0x00 => Some(CommandFeedback::TransmissionPending),
            0x10 => Some(CommandFeedback::TransmissionBusy),
            0x20 => Some(CommandFeedback::ExecutionPending),
            0x21 => Some(CommandFeedback::ExecutionBusy),
            0x22 => Some(CommandFeedback::ExecutionCompleted),
            0x24 => Some(CommandFeedback::ExecutionDiscarded),
            0x26 => Some(CommandFeedback::FeedbackDisabled),
            0x44 => Some(CommandFeedback::TransmissionDiscarded),
            0x66 => Some(CommandFeedback::FeedbackMissing),
            _ => None,
        }
    }

    /// The wire value of this variant.
    #[verifier::when_used_as_spec(spec_value)]
    pub fn value(self) -> (r: u8)
        ensures
            r == self.spec_value(),
    {
        match self {
            CommandFeedback::TransmissionPending => 0x00,
            CommandFeedback::TransmissionBusy => 0x10,
            CommandFeedback::ExecutionPending => 0x20,
            CommandFeedback::ExecutionBusy => 0x21,
            CommandFeedback::ExecutionCompleted => 0x22,
            CommandFeedback::ExecutionDiscarded => 0x24,
            CommandFeedback::FeedbackDisabled => 0x26,
            CommandFeedback::TransmissionDiscarded => 0x44,
            CommandFeedback::FeedbackMissing => 0x66,
        }
    }

    /// Decodes a wire value; an unknown value is a parse error naming the type and the value.
    pub fn try_from(v: u8) -> (r: Result<CommandFeedback, Error>)
        ensures
            match CommandFeedback::spec_from_value(v) {
                Some(t) => r == Ok::<CommandFeedback, Error>(t),
                None => r matches Err(e) && e.is_parse_with(unknown_discriminant_text("CommandFeedback"@, v as nat)),
            },
    {
        match v {
            0x00 => Ok(CommandFeedback::TransmissionPending),
            0x10 => Ok(CommandFeedback::TransmissionBusy),
            0x20 => Ok(CommandFeedback::ExecutionPending),
            0x21 => Ok(CommandFeedback::ExecutionBusy),
            0x22 => Ok(CommandFeedback::ExecutionCompleted),
            0x24 => Ok(CommandFeedback::ExecutionDiscarded),
            0x26 => Ok(CommandFeedback::FeedbackDisabled),
            0x44 => Ok(CommandFeedback::TransmissionDiscarded),
            0x66 => Ok(CommandFeedback::FeedbackMissing),
            _ => Err(unknown_discriminant("CommandFeedback", v as u64)),
        }
    }

    /// Every variant decodes from its own wire value.
    pub proof fn lemma_value_decodes(t: CommandFeedback)
        ensures
            CommandFeedback::spec_from_value(t.spec_value()) == Some(t),
    {
    }

    /// A wire value that decodes gives a variant with that very wire value.
    pub proof fn lemma_decoded_value(v: u8)
        ensures
            CommandFeedback::spec_from_value(v) matches Some(t) ==> t.spec_value() == v,
    {
    }
}

/// Kinds of port mode information.
#[derive(Debug, Clone, Copy, PartialEq, Eq, Hash, Structural)]
pub enum ModeInformationType {
    Name,
    Raw,
    Pct,
    Si,
    Symbol,
    Mapping,
    UsedInternally,
    MotorBias,
    CapabilityBits,
    ValueFormat,
}

impl ModeInformationType {
    /// The wire value of this variant.
    pub open spec fn spec_value(self) -> u8 {
        match self {
            ModeInformationType::Name => 0x00,
            ModeInformationType::Raw => 0x01,
            ModeInformationType::Pct => 0x02,
            ModeInformationType::Si => 0x03,
            ModeInformationType::Symbol => 0x04,
            ModeInformationType::Mapping => 0x05,
            ModeInformationType::UsedInternally => 0x06,
            ModeInformationType::MotorBias => 0x07,
            ModeInformationType::CapabilityBits => 0x08,
            ModeInformationType::ValueFormat => 0x80,
        }
    }

    /// The variant whose wire value is `v`, if there is one.
    pub open spec fn spec_from_value(v: u8) -> Option<ModeInformationType> {
        match v {
            0x00 => Some(ModeInformationType::Name),
            0x01 => Some(ModeInformationType::Raw),
            0x02 => Some(ModeInformationType::Pct),
            0x03 => Some(ModeInformationType::Si),
            0x04 => Some(ModeInformationType::Symbol),
            0x05 => Some(ModeInformationType::Mapping),
            0x06 => Some(ModeInformationType::UsedInternally),
            0x07 => Some(ModeInformationType::MotorBias),
            0x08 => Some(ModeInformationType::CapabilityBits),
            0x80 => Some(ModeInformationType::ValueFormat),
            _ => None,
        }
    }

    /// The wire value of this variant.
    #[verifier::when_used_as_spec(spec_value)]
    pub fn value(self) -> (r: u8)
        ensures
            r == self.spec_value(),
    {
        match self {
            ModeInformationType::Name => 0x00,
            ModeInformationType::Raw => 0x01,
            ModeInformationType::Pct => 0x02,
            ModeInformationType::Si => 0x03,
            ModeInformationType::Symbol => 0x04,
            ModeInformationType::Mapping => 0x05,
            ModeInformationType::UsedInternally => 0x06,
            ModeInformationType::MotorBias => 0x07,
            ModeInformationType::CapabilityBits => 0x08,
            ModeInformationType::ValueFormat => 0x80,
        }
    }

    /// Decodes a wire value; an unknown value is a parse error naming the type and the value.
    pub fn try_from(v: u8) -> (r: Result<ModeInformationType, Error>)
        ensures
            match ModeInformationType::spec_from_value(v) {
                Some(t) => r == Ok::<ModeInformationType, Error>(t),
                None => r matches Err(e) && e.is_parse_with(unknown_discriminant_text("ModeInformationType"@, v as nat)),
            },
    {
        match v {
            0x00 => Ok(ModeInformationType::Name),
            0x01 => Ok(ModeInformationType::Raw),
            0x02 => Ok(ModeInformationType::Pct),
            0x03 => Ok(ModeInformationType::Si),
            0x04 => Ok(ModeInformationType::Symbol),
            0x05 => Ok(ModeInformationType::Mapping),
            0x06 => Ok(ModeInformationType::UsedInternally),
            0x07 => Ok(ModeInformationType::MotorBias),
            0x08 => Ok(ModeInformationType::CapabilityBits),
            0x80 => Ok(ModeInformationType::ValueFormat),
            _ => Err(unknown_discriminant("ModeInformationType", v as u64)),
        }
    }

    /// Every variant decodes from its own wire value.
    pub proof fn lemma_value_decodes(t: ModeInformationType)
        ensures
            ModeInformationType::spec_from_value(t.spec_value()) == Some(t),
    {
    }

    /// A wire value that decodes gives a variant with that very wire value.
    pub proof fn lemma_decoded_value(v: u8)
        ensures
            ModeInformationType::spec_from_value(v) matches Some(t) ==> t.spec_value() == v,
    {
    }
}

/// Directions reported by tilt sensors.
#[derive(Debug, Clone, Copy, PartialEq, Eq, Hash, Structural)]
pub enum TiltDirection {
    Neutral,
    Backward,
    Right,
    Left,
    Forward,
    Unknown,
}

impl TiltDirection {
    /// The wire value of this variant.
    pub open spec fn spec_value(self) -> u8 {
        match self {
            TiltDirection::Neutral => 0,
            TiltDirection::Backward => 3,
            TiltDirection::Right => 5,
            TiltDirection::Left => 7,
            TiltDirection::Forward => 9,
            TiltDirection::Unknown => 10,
        }
    }

    /// The variant whose wire value is `v`, if there is one.
    pub open spec fn spec_from_value(v: u8) -> Option<TiltDirection> {
        match v {
            0 => Some(TiltDirection::Neutral),
            3 => Some(TiltDirection::Backward),
            5 => Some(TiltDirection::Right),
            7 => Some(TiltDirection::Left),
            9 => Some(TiltDirection::Forward),
            10 => Some(TiltDirection::Unknown),
            _ => None,
        }
    }

    /// The wire value of this variant.
    #[verifier::when_used_as_spec(spec_value)]
    pub fn value(self) -> (r: u8)
        ensures
            r == self.spec_value(),
    {
        match self {
            TiltDirection::Neutral => 0,
            TiltDirection::Backward => 3,
            TiltDirection::Right => 5,
            TiltDirection::Left => 7,
            TiltDirection::Forward => 9,
            TiltDirection::Unknown => 10,
        }
    }

    /// Decodes a wire value; an unknown value is a parse error naming the type and the value.
    pub fn try_from(v: u8) -> (r: Result<TiltDirection, Error>)
        ensures
            match TiltDirection::spec_from_value(v) {
                Some(t) => r == Ok::<TiltDirection, Error>(t),
                None => r matches Err(e) && e.is_parse_with(unknown_discriminant_text("TiltDirection"@, v as nat)),
            },
    {
        match v {
            0 => Ok(TiltDirection::Neutral),
            3 => Ok(TiltDirection::Backward),
            5 => Ok(TiltDirection::Right),
            7 => Ok(TiltDirection::Left),
            9 => Ok(TiltDirection::Forward),
            10 => Ok(TiltDirection::Unknown),
            _ => Err(unknown_discriminant("TiltDirection", v as u64)),
        }
    }

    /// Every variant decodes from its own wire value.
    pub proof fn lemma_value_decodes(t: TiltDirection)
        ensures
            TiltDirection::spec_from_value(t.spec_value()) == Some(t),
    {
    }

    /// A wire value that decodes gives a variant with that very wire value.
    pub proof fn lemma_decoded_value(v: u8)
        ensures
            TiltDirection::spec_from_value(v) matches Some(t) ==> t.spec_value() == v,
    {
    }
}

/// Pants worn by the Mario figure.
#[derive(Debug, Clone, Copy, PartialEq, Eq, Hash, Structural)]
pub enum MarioPantsType {
    NoPants,
    Propeller,
    Cat,
    Fire,
    Normal,
    Builder,
}

impl MarioPantsType {
    /// The wire value of this variant.
    pub open spec fn spec_value(self) -> u8 {
        match self {
            MarioPantsType::NoPants => 0x00,
            MarioPantsType::Propeller => 0x06,
            MarioPantsType::Cat => 0x11,
            MarioPantsType::Fire => 0x12,
            MarioPantsType::Normal => 0x21,
            MarioPantsType::Builder => 0x22,
        }
    }

    /// The variant whose wire value is `v`, if there is one.
    pub open spec fn spec_from_value(v: u8) -> Option<MarioPantsType> {
        match v {
            0x00 => Some(MarioPantsType::NoPants),
            0x06 => Some(MarioPantsType::Propeller),
            0x11 => Some(MarioPantsType::Cat),
            0x12 => Some(MarioPantsType::Fire),
            0x21 => Some(MarioPantsType::Normal),
            0x22 => Some(MarioPantsType::Builder),
            _ => None,
        }
    }

    /// The wire value of this variant.
    #[verifier::when_used_as_spec(spec_value)]
    pub fn value(self) -> (r: u8)
        ensures
            r == self.spec_value(),
    {
        match self {
            MarioPantsType::NoPants => 0x00,
            MarioPantsType::Propeller => 0x06,
            MarioPantsType::Cat => 0x11,
            MarioPantsType::Fire => 0x12,
            MarioPantsType::Normal => 0x21,
            MarioPantsType::Builder => 0x22,
        }
    }

    /// Decodes a wire value; an unknown value is a parse error naming the type and the value.
    pub fn try_from(v: u8) -> (r: Result<MarioPantsType, Error>)
        ensures
            match MarioPantsType::spec_from_value(v) {
                Some(t) => r == Ok::<MarioPantsType, Error>(t),
                None => r matches Err(e) && e.is_parse_with(unknown_discriminant_text("MarioPantsType"@, v as nat)),
            },
    {
        match v {
            0x00 => Ok(MarioPantsType::NoPants),
            0x06 => Ok(MarioPantsType::Propeller),
            0x11 => Ok(MarioPantsType::Cat),
            0x12 => Ok(MarioPantsType::Fire),
            0x21 => Ok(MarioPantsType::Normal),
            0x22 => Ok(MarioPantsType::Builder),
            _ => Err(unknown_discriminant("MarioPantsType", v as u64)),
        }
    }

    /// Every variant decodes from its own wire value.
    pub proof fn lemma_value_decodes(t: MarioPantsType)
        ensures
            MarioPantsType::spec_from_value(t.spec_value()) == Some(t),
    {
    }

    /// A wire value that decodes gives a variant with that very wire value.
    pub proof fn lemma_decoded_value(v: u8)
        ensures
            MarioPantsType::spec_from_value(v) matches Some(t) ==> t.spec_value() == v,
    {
    }
}

/// Colours read by the Mario figure (16-bit wire value).
#[derive(Debug, Clone, Copy, PartialEq, Eq, Hash, Structural)]
pub enum MarioColor {
    White,
    Red,
    Blue,
    Yellow,
    Black,
    Green,
    Brown,
    Cyan,
}

impl MarioColor {
    /// The wire value of this variant.
    pub open spec fn spec_value(self) -> u16 {
        match self {
            MarioColor::White => 0x1300,
            MarioColor::Red => 0x1500,
            MarioColor::Blue => 0x1700,
            MarioColor::Yellow => 0x1800,
            MarioColor::Black => 0x1a00,
            MarioColor::Green => 0x2500,
            MarioColor::Brown => 0x6a00,
            MarioColor::Cyan => 0x4201,
        }
    }

    /// The variant whose wire value is `v`, if there is one.
    pub open spec fn spec_from_value(v: u16) -> Option<MarioColor> {
        match v {
            0x1300 => Some(MarioColor::White),
            0x1500 => Some(MarioColor::Red),
            0x1700 => Some(MarioColor::Blue),
            0x1800 => Some(MarioColor::Yellow),
            0x1a00 => Some(MarioColor::Black),
            0x2500 => Some(MarioColor::Green),
            0x6a00 => Some(MarioColor::Brown),
            0x4201 => Some(MarioColor::Cyan),
            _ => None,
        }
    }

    /// The wire value of this variant.
    #[verifier::when_used_as_spec(spec_value)]
    pub fn value(self) -> (r: u16)
        ensures
            r == self.spec_value(),
    {
        match self {
            MarioColor::White => 0x1300,
            MarioColor::Red => 0x1500,
            MarioColor::Blue => 0x1700,
            MarioColor::Yellow => 0x1800,
            MarioColor::Black => 0x1a00,
            MarioColor::Green => 0x2500,
            MarioColor::Brown => 0x6a00,
            MarioColor::Cyan => 0x4201,
        }
    }

    /// Decodes a wire value; an unknown value is a parse error naming the type and the value.
    pub fn try_from(v: u16) -> (r: Result<MarioColor, Error>)
        ensures
            match MarioColor::spec_from_value(v) {
                Some(t) => r == Ok::<MarioColor, Error>(t),
                None => r matches Err(e) && e.is_parse_with(unknown_discriminant_text("MarioColor"@, v as nat)),
            },
    {
        match v {
            0x1300 => Ok(MarioColor::White),
            0x1500 => Ok(MarioColor::Red),
            0x1700 => Ok(MarioColor::Blue),
            0x1800 => Ok(MarioColor::Yellow),
            0x1a00 => Ok(MarioColor::Black),
            0x2500 => Ok(MarioColor::Green),
            0x6a00 => Ok(MarioColor::Brown),
            0x4201 => Ok(MarioColor::Cyan),
            _ => Err(unknown_discriminant("MarioColor", v as u64)),
        }
    }

    /// Every variant decodes from its own wire value.
    pub proof fn lemma_value_decodes(t: MarioColor)
        ensures
            MarioColor::spec_from_value(t.spec_value()) == Some(t),
    {
    }

    /// A wire value that decodes gives a variant with that very wire value.
    pub proof fn lemma_decoded_value(v: u16)
        ensures
            MarioColor::spec_from_value(v) matches Some(t) ==> t.spec_value() == v,
    {
    }
}
} // verus!
