use poweredup::device::light::{ColorLightMatrix, HubLed, Light, PiezoBuzzer};
use poweredup::device::motor::{AbsoluteMotorDevice, BasicMotorDevice, TachoMotorDevice};
use poweredup::device::sensor::{
    ColorDistanceMode, ColorDistanceSensor, MotionSensor, RemoteButtonState, RemoteControlButton,
    TiltSensor,
};
use poweredup::device::{AnyDevice, Device, DeviceFactory, Event};
use poweredup::protocol::consts::{BrakingStyle, Color};

// ── Factory ──────────────────────────────────────────────────────────────────

#[test]
fn factory_returns_generic_for_unknown_type() {
    let dev = DeviceFactory::create(0xFFFF, 3);
    assert_eq!(dev.device_type_id(), 0xFFFF);
    assert_eq!(dev.port_id(), 3);
}

#[test]
fn generic_device_receive_returns_raw_event() {
    let mut dev = DeviceFactory::create(0xFFFF, 0);
    dev.set_mode(2);
    let result = dev.receive(&[0xAB, 0xCD]).unwrap();
    if let Some(Event::Raw {
        port_id,
        mode,
        data,
    }) = result
    {
        assert_eq!(port_id, 0);
        assert_eq!(mode, 2);
        assert_eq!(data.as_ref(), &[0xAB, 0xCD]);
    } else {
        panic!("expected Event::Raw");
    }
}

#[test]
fn factory_dispatches_basic_motor() {
    let dev = DeviceFactory::create(2, 0); // TrainMotor
    assert_eq!(dev.device_type_id(), 2);
}

#[test]
fn factory_dispatches_tacho_motor() {
    let dev = DeviceFactory::create(38, 1); // MediumLinearMotor
    assert_eq!(dev.device_type_id(), 38);
}

#[test]
fn factory_dispatches_absolute_motor() {
    let dev = DeviceFactory::create(48, 2); // TechnicMediumAngularMotor
    assert_eq!(dev.device_type_id(), 48);
}

#[test]
fn factory_picks_the_kind_by_the_device_type() {
    assert!(matches!(DeviceFactory::create(1, 0), AnyDevice::BasicMotor(_)));
    assert!(matches!(DeviceFactory::create(41, 0), AnyDevice::BasicMotor(_)));
    assert!(matches!(DeviceFactory::create(46, 0), AnyDevice::TachoMotor(_)));
    assert!(matches!(DeviceFactory::create(76, 0), AnyDevice::AbsoluteMotor(_)));
    assert!(matches!(DeviceFactory::create(37, 0), AnyDevice::Generic(_)));
}

#[test]
fn factory_falls_back_to_generic_above_255() {
    // 0x0126 is no device type, though its low byte 0x26 is a tacho motor.
    let mut dev = DeviceFactory::create(0x0126, 0);
    assert!(matches!(dev, AnyDevice::Generic(_)));
    assert_eq!(dev.device_type_id(), 0x0126);
    assert_eq!(dev.port_id(), 0);
    dev.set_mode(2);
    match dev.receive(&[1, 0, 0, 0]).unwrap() {
        Some(Event::Raw { port_id, mode, data }) => {
            assert_eq!((port_id, mode), (0, 2));
            assert_eq!(data.as_ref(), &[1, 0, 0, 0]);
        }
        other => panic!("expected Raw, got {other:?}"),
    }
}

#[test]
fn factory_tacho_motor_decodes_rotation_in_mode_two() {
    let mut dev = DeviceFactory::create(38, 1);
    assert!(dev.receive(&360i32.to_le_bytes()).unwrap().is_none());
    dev.set_mode(2);
    match dev.receive(&360i32.to_le_bytes()).unwrap() {
        Some(Event::MotorRotate { port_id, degrees }) => assert_eq!((port_id, degrees), (1, 360)),
        _ => panic!("expected MotorRotate"),
    }
}

// ── Lights ───────────────────────────────────────────────────────────────────

#[test]
fn hub_led_set_color() {
    let dev = HubLed::new(50); // hub LED is typically on port 50
    let bytes = dev.encode_set_color(Color::Red);
    assert_eq!(bytes.as_ref(), &[0x51, 0x00, Color::Red.value()]);
}

#[test]
fn hub_led_set_rgb() {
    let dev = HubLed::new(50);
    let bytes = dev.encode_set_rgb(255, 0, 128);
    assert_eq!(bytes.as_ref(), &[0x51, 0x01, 255, 0, 128]);
}

#[test]
fn light_set_brightness_clamps_to_100() {
    let dev = Light::new(0);
    assert_eq!(dev.encode_set_brightness(150).as_ref(), &[0x51, 0x00, 100]);
    assert_eq!(dev.encode_set_brightness(50).as_ref(), &[0x51, 0x00, 50]);
}

#[test]
fn piezo_buzzer_encode_tone() {
    let dev = PiezoBuzzer::new(0);
    // frequency=440 Hz (0x01B8 LE), time=500 ms (0x01F4 LE)
    let bytes = dev.encode_play_tone(440, 500);
    assert_eq!(bytes.as_ref(), &[0x05, 0x02, 0x04, 0xB8, 0x01, 0xF4, 0x01]);
}

#[test]
fn color_matrix_set_uniform_color() {
    let dev = ColorLightMatrix::new(0);
    let bytes = dev.encode_set_color(Color::Blue);
    // pixel = Blue(3) | (10 << 4) = 0x03 | 0xA0 = 0xA3
    let expected_pixel = Color::Blue.value() | (10 << 4);
    assert_eq!(bytes[0], 0x51);
    assert_eq!(bytes[1], 0x02);
    assert!(bytes[2..].iter().all(|&b| b == expected_pixel));
    assert_eq!(bytes.len(), 11); // header(2) + 9 pixels
}

#[test]
fn color_matrix_set_matrix() {
    let dev = ColorLightMatrix::new(0);
    let colors = [
        Color::Red, Color::Green, Color::Blue,
        Color::Red, Color::Green, Color::Blue,
        Color::Red, Color::Green, Color::Blue,
    ];
    let bytes = dev.encode_set_matrix(&colors);
    assert_eq!(bytes.len(), 11);
    assert_eq!(bytes[0], 0x51);
    assert_eq!(bytes[2], Color::Red.value() | (10 << 4));
    assert_eq!(bytes[3], Color::Green.value() | (10 << 4));
    assert_eq!(bytes[4], Color::Blue.value() | (10 << 4));
}

#[test]
fn color_matrix_uses_at_most_nine_colors() {
    let dev = ColorLightMatrix::new(0);
    let bytes = dev.encode_set_matrix(&[Color::White; 12]);
    assert_eq!(bytes.len(), 11);
    let bytes = dev.encode_set_matrix(&[Color::Black, Color::NoColor]);
    assert_eq!(bytes.as_ref(), &[0x51, 0x02, 0xA0, 0xFF]);
}

#[test]
fn actuators_report_their_types_and_no_events() {
    let mut led = HubLed::new(50);
    assert_eq!((led.device_type_id(), led.port_id()), (23, 50));
    assert!(led.receive(&[1, 2, 3]).unwrap().is_none());
    let mut light = Light::new(1);
    assert_eq!((light.device_type_id(), light.port_id()), (8, 1));
    assert!(light.receive(&[1]).unwrap().is_none());
    let mut buzzer = PiezoBuzzer::new(5);
    assert_eq!((buzzer.device_type_id(), buzzer.port_id()), (22, 5));
    assert!(buzzer.receive(&[]).unwrap().is_none());
    let mut matrix = ColorLightMatrix::new(2);
    assert_eq!((matrix.device_type_id(), matrix.port_id()), (64, 2));
    assert!(matrix.receive(&[0]).unwrap().is_none());
}

// ── Motors ───────────────────────────────────────────────────────────────────

#[test]
fn basic_motor_set_power_positive() {
    let dev = BasicMotorDevice::new(0, 2);
    assert_eq!(dev.encode_set_power(50).as_ref(), &[0x51, 0x00, 50]);
}

#[test]
fn basic_motor_set_power_negative() {
    let dev = BasicMotorDevice::new(0, 2);
    // -50 as i8 → 0xCE as u8
    let expected = (-50i8) as u8;
    assert_eq!(dev.encode_set_power(-50).as_ref(), &[0x51, 0x00, expected]);
}

#[test]
fn basic_motor_brake_encodes_127() {
    let dev = BasicMotorDevice::new(0, 2);
    assert_eq!(dev.encode_brake().as_ref(), &[0x51, 0x00, 127]);
}

#[test]
fn basic_motor_stop_encodes_zero() {
    let dev = BasicMotorDevice::new(0, 2);
    assert_eq!(dev.encode_stop().as_ref(), &[0x51, 0x00, 0]);
}

#[test]
fn tacho_set_speed_encodes_correctly() {
    let dev = TachoMotorDevice::new(1, 38);
    // speed=50, max_power=100, profile=0b11 (both profiles on)
    assert_eq!(dev.encode_set_speed(50).as_ref(), &[0x07, 50, 100, 0x03]);
}

#[test]
fn tacho_set_speed_for_time() {
    let dev = TachoMotorDevice::new(1, 38);
    // time=1000ms=0x03E8, speed=50, max_power=100, brake=127, profile=0x03
    let bytes = dev.encode_set_speed_for_time(50, 1000);
    assert_eq!(bytes.as_ref(), &[0x09, 0xE8, 0x03, 50, 100, 127, 0x03]);
}

#[test]
fn tacho_rotate_by_degrees() {
    let dev = TachoMotorDevice::new(0, 38);
    // degrees=360=0x00000168, speed=100, max_power=100, brake=127, profile=0x03
    let bytes = dev.encode_rotate_by_degrees(360, 100);
    assert_eq!(
        bytes.as_ref(),
        &[0x0b, 0x68, 0x01, 0x00, 0x00, 100, 100, 127, 0x03]
    );
}

#[test]
fn tacho_receive_rotation_mode() {
    let mut dev = TachoMotorDevice::new(0, 38);
    dev.set_mode(0x02);
    // 360 degrees as i32 LE
    let data = 360i32.to_le_bytes();
    let event = dev.receive(&data).unwrap().unwrap();
    if let Event::MotorRotate { port_id, degrees } = event {
        assert_eq!(port_id, 0);
        assert_eq!(degrees, 360);
    } else {
        panic!("expected MotorRotate");
    }
}

#[test]
fn absolute_goto_angle() {
    let dev = AbsoluteMotorDevice::new(0, 48);
    // angle=90, speed=100, max_power=100, brake=127, profile=0x03
    let bytes = dev.encode_goto_angle(90, 100);
    assert_eq!(
        bytes.as_ref(),
        &[0x0d, 90, 0x00, 0x00, 0x00, 100, 100, 127, 0x03]
    );
}

#[test]
fn absolute_reset_zero() {
    let dev = AbsoluteMotorDevice::new(0, 48);
    assert_eq!(
        dev.encode_reset_zero().as_ref(),
        &[0x51, 0x02, 0x00, 0x00, 0x00, 0x00]
    );
}

#[test]
fn absolute_receive_rotation_mode() {
    let mut dev = AbsoluteMotorDevice::new(0, 48);
    dev.set_mode(0x02);
    let data = (-180i32).to_le_bytes();
    let event = dev.receive(&data).unwrap().unwrap();
    if let Event::MotorRotate { degrees, .. } = event {
        assert_eq!(degrees, -180);
    } else {
        panic!("expected MotorRotate");
    }
}

#[test]
fn absolute_receive_angle_mode() {
    let mut dev = AbsoluteMotorDevice::new(0, 48);
    dev.set_mode(0x03);
    let data = 90i16.to_le_bytes();
    let event = dev.receive(&data).unwrap().unwrap();
    if let Event::MotorAngle { angle, .. } = event {
        assert_eq!(angle, 90);
    } else {
        panic!("expected MotorAngle");
    }
}

#[test]
fn speed_is_clamped_and_brake_kept() {
    let dev = BasicMotorDevice::new(0, 2);
    assert_eq!(dev.encode_set_power(120).as_ref(), &[0x51, 0x00, 100]);
    assert_eq!(dev.encode_set_power(-128).as_ref(), &[0x51, 0x00, (-100i8) as u8]);
    assert_eq!(dev.encode_set_power(127).as_ref(), &[0x51, 0x00, 127]);
    assert_eq!(dev.encode_set_power(-100).as_ref(), &[0x51, 0x00, 156]);
}

#[test]
fn motor_settings_change_the_commands() {
    let mut dev = TachoMotorDevice::new(1, 38);
    dev.set_max_power(60);
    dev.set_braking_style(BrakingStyle::Hold);
    dev.use_deceleration_profile = false;
    assert_eq!(
        dev.encode_set_speed_for_time(-10, 0x0102).as_ref(),
        &[0x09, 0x02, 0x01, 246, 60, 126, 0x01]
    );
    assert_eq!(dev.encode_set_acceleration_time(300, 0).as_ref(), &[0x05, 0x2C, 0x01, 0]);
    assert_eq!(dev.encode_set_deceleration_time(300, 1).as_ref(), &[0x06, 0x2C, 0x01, 1]);
    let mut abs = AbsoluteMotorDevice::new(2, 48);
    abs.set_braking_style(BrakingStyle::Float);
    abs.use_acceleration_profile = false;
    abs.use_deceleration_profile = false;
    assert_eq!(
        abs.encode_goto_angle(-90, 30).as_ref(),
        &[0x0d, 0xA6, 0xFF, 0xFF, 0xFF, 30, 100, 0, 0]
    );
    assert_eq!(
        abs.encode_rotate_by_degrees(720, -30).as_ref(),
        &[0x0b, 0xD0, 0x02, 0x00, 0x00, 226, 100, 0, 0]
    );
}

#[test]
fn absolute_motor_ignores_short_payloads() {
    let mut dev = AbsoluteMotorDevice::new(0, 48);
    dev.set_mode(0x02);
    assert!(dev.receive(&[0x01, 0x02]).unwrap().is_none());
    dev.set_mode(0x03);
    assert!(dev.receive(&[0x01]).unwrap().is_none());
    dev.set_mode(0x04);
    assert!(dev.receive(&[0x01, 0x02, 0x03, 0x04]).unwrap().is_none());
}

// ── Sensors ──────────────────────────────────────────────────────────────────

#[test]
fn color_distance_color_mode() {
    let mut dev = ColorDistanceSensor::new(0);
    dev.set_mode(ColorDistanceMode::Color.value());
    let event = dev.receive(&[3]).unwrap().unwrap(); // color index 3 = Blue
    if let Event::Color { color, .. } = event {
        assert_eq!(color, Color::Blue);
    } else {
        panic!("expected Color event");
    }
}

#[test]
fn color_distance_distance_mode() {
    let mut dev = ColorDistanceSensor::new(0);
    dev.set_mode(ColorDistanceMode::Distance.value());
    // raw=5 → 5*254/10-20 = 127-20 = 107 mm
    let event = dev.receive(&[5]).unwrap().unwrap();
    if let Event::Distance { distance_mm, .. } = event {
        assert_eq!(distance_mm, 107);
    } else {
        panic!("expected Distance event");
    }
}

#[test]
fn motion_sensor_distance() {
    let mut dev = MotionSensor::new(1);
    // base=2, overflow=0 → 20 mm
    let event = dev.receive(&[2, 0]).unwrap().unwrap();
    if let Event::Distance { distance_mm, .. } = event {
        assert_eq!(distance_mm, 20);
    } else {
        panic!("expected Distance event");
    }
}

#[test]
fn remote_button_encodes_state() {
    let mut dev = RemoteControlButton::new(2);
    let event = dev.receive(&[0x01]).unwrap().unwrap();
    if let Event::RemoteButton { state, .. } = event {
        assert_eq!(state, RemoteButtonState::Up.value());
    } else {
        panic!("expected RemoteButton event");
    }
}

#[test]
fn color_distance_other_modes() {
    let mut dev = ColorDistanceSensor::new(4);
    assert_eq!(dev.device_type_id(), 37);
    assert!(dev.receive(&[11]).unwrap().is_none()); // colour index out of range
    dev.set_mode(ColorDistanceMode::Distance.value());
    match dev.receive(&[0]).unwrap() {
        Some(Event::Distance { distance_mm, .. }) => assert_eq!(distance_mm, 0),
        _ => panic!("expected Distance event"),
    }
    dev.set_mode(ColorDistanceMode::Reflect.value());
    match dev.receive(&[42]).unwrap() {
        Some(Event::Reflect { port_id, percent }) => assert_eq!((port_id, percent), (4, 42)),
        _ => panic!("expected Reflect event"),
    }
    dev.set_mode(ColorDistanceMode::Ambient.value());
    match dev.receive(&[7]).unwrap() {
        Some(Event::Ambient { percent, .. }) => assert_eq!(percent, 7),
        _ => panic!("expected Ambient event"),
    }
    assert!(dev.receive(&[]).unwrap().is_none());
    dev.set_mode(ColorDistanceMode::ColorAndDistance.value());
    match dev.receive(&[9, 0, 3, 2]).unwrap() {
        // 3 + 1/2 inches = 88.9 mm → 88 - 20 = 68
        Some(Event::ColorAndDistance { color, distance_mm, .. }) => {
            assert_eq!(color, Color::Red);
            assert_eq!(distance_mm, 68);
        }
        _ => panic!("expected ColorAndDistance event"),
    }
    assert!(dev.receive(&[9, 0, 3]).unwrap().is_none());
    dev.set_mode(ColorDistanceMode::RgbIntensity.value());
    assert!(dev.receive(&[1, 2, 3, 4, 5, 6]).unwrap().is_none());
}

/// The colour-and-distance reading converted to millimetres in single
/// precision.
fn single_precision_distance(whole: u8, partial: u8) -> u32 {
    let dist_raw = f32::from(whole);
    let dist = if partial > 0 {
        dist_raw + 1.0 / f32::from(partial)
    } else {
        dist_raw
    };
    ((dist * 25.4) as i32 - 20).max(0) as u32
}

#[test]
fn color_and_distance_matches_single_precision_everywhere() {
    let mut dev = ColorDistanceSensor::new(0);
    dev.set_mode(ColorDistanceMode::ColorAndDistance.value());
    for whole in 0..=255u8 {
        for partial in 0..=255u8 {
            match dev.receive(&[0, 0, whole, partial]).unwrap() {
                Some(Event::ColorAndDistance { distance_mm, .. }) => {
                    assert_eq!(distance_mm, single_precision_distance(whole, partial));
                }
                _ => panic!("expected ColorAndDistance event"),
            }
        }
    }
}

#[test]
fn tilt_sensor_reads_signed_angles() {
    let mut dev = TiltSensor::new(3);
    match dev.receive(&[0x05, 0xFB]).unwrap() {
        Some(Event::Tilt { port_id, x, y, z }) => assert_eq!((port_id, x, y, z), (3, 5, -5, None)),
        _ => panic!("expected Tilt event"),
    }
    assert!(dev.receive(&[0x05]).unwrap().is_none());
    dev.set_mode(1);
    assert!(dev.receive(&[0x05, 0x06]).unwrap().is_none());
}

#[test]
fn motion_sensor_overflow_and_short_payload() {
    let mut dev = MotionSensor::new(1);
    match dev.receive(&[10, 1]).unwrap() {
        Some(Event::Distance { distance_mm, .. }) => assert_eq!(distance_mm, 2650),
        _ => panic!("expected Distance event"),
    }
    assert!(dev.receive(&[10]).unwrap().is_none());
    let mut button = RemoteControlButton::new(0);
    assert!(button.receive(&[]).unwrap().is_none());
}

#[test]
fn factory_made_motors_decode_by_mode() {
    let mut basic = DeviceFactory::create(2, 0);
    assert!(basic.receive(&[1, 2, 3, 4]).unwrap().is_none());

    let mut tacho = DeviceFactory::create(38, 1);
    assert!(tacho.receive(&[1, 2, 3, 4]).unwrap().is_none());
    tacho.set_mode(2);
    match tacho.receive(&[0x10, 0x00, 0x00, 0x00]).unwrap() {
        Some(Event::MotorRotate { port_id, degrees }) => {
            assert_eq!(port_id, 1);
            assert_eq!(degrees, 16);
        }
        other => panic!("expected MotorRotate, got {other:?}"),
    }

    let mut absolute = DeviceFactory::create(48, 2);
    absolute.set_mode(3);
    match absolute.receive(&[0xFF, 0xFF]).unwrap() {
        Some(Event::MotorAngle { port_id, angle }) => {
            assert_eq!(port_id, 2);
            assert_eq!(angle, -1);
        }
        other => panic!("expected MotorAngle, got {other:?}"),
    }
}

#[test]
fn profile_setters_change_the_profile_byte() {
    let mut dev = TachoMotorDevice::new(0, 38);
    dev.set_acceleration_profile(false);
    assert!(!dev.use_acceleration_profile);
    assert_eq!(dev.encode_set_speed(50).as_ref(), &[0x07, 50, 100, 0x02]);
    dev.set_deceleration_profile(false);
    assert_eq!(dev.encode_set_speed(50).as_ref(), &[0x07, 50, 100, 0x00]);
    let mut abs = AbsoluteMotorDevice::new(1, 48);
    abs.set_deceleration_profile(false);
    assert!(!abs.use_deceleration_profile);
    abs.set_acceleration_profile(true);
    assert!(abs.use_acceleration_profile);
}
