use govee_ble::bytes::Base64HexBytes;
use govee_ble::codec::PacketCodec;
use govee_ble::error::{Base64Error, Base64ErrorKind, Error};
use govee_ble::fan_packets::{
    H7105FanMode, NotifyH7105FanMode, NotifyH7105FanSpeed, SetH7105FanMode, SetH7105FanSpeed,
};
use govee_ble::frame::finish;
use govee_ble::h5086::H5086PowerReading;
use govee_ble::humidifier::SetHumidifierMode;
use govee_ble::kind::PacketKind;
use govee_ble::manager::PacketManager;
use govee_ble::oscillation::{
    H7105OscillationConfig, NotifyH7105Oscillation, SetH7105Oscillation,
};
use govee_ble::power::SetDevicePower;
use govee_ble::scene::SetSceneCode;

#[test]
fn layout_errors() {
    assert_eq!(
        SetHumidifierMode::decode(&[]),
        Err(Error::UnexpectedByte {
            expected: 0x33,
            got: None
        })
    );
    assert_eq!(
        SetHumidifierMode::decode(&[0x33, 0x06, 0, 0]),
        Err(Error::UnexpectedByte {
            expected: 0x05,
            got: Some(0x06)
        })
    );
    assert_eq!(SetHumidifierMode::decode(&[0x33, 0x05, 1, 9]), Err(Error::Eof));
    let mut bytes = finish(vec![0x33, 0x05, 1, 2]);
    bytes[18] = 7;
    assert_eq!(SetHumidifierMode::decode(&bytes), Err(Error::NonZeroPadding(7)));
    bytes[4] = 9;
    assert_eq!(SetHumidifierMode::decode(&bytes), Err(Error::NonZeroPadding(9)));
}

#[test]
fn codec_errors() {
    let codec = PacketCodec::new::<SetDevicePower>(&["H7105"]);
    assert_eq!(codec.kind(), PacketKind::SetDevicePower);
    assert!(codec.supports_sku("H7105"));
    assert!(!codec.supports_sku("H7106"));
    assert_eq!(
        codec.encode(&SetH7105FanSpeed { speed: 1 }),
        Err(Error::WrongType {
            kind: PacketKind::SetDevicePower
        })
    );
    assert_eq!(
        codec.try_encode(&SetDevicePower { on: true }),
        Some(Ok(finish(vec![0x33, 1, 1])))
    );
    assert_eq!(
        PacketManager::new().encode_for_sku("H7160", &SetDevicePower { on: true }),
        Err(Error::NoCodec {
            sku: "H7160".to_string(),
            kind: PacketKind::SetDevicePower
        })
    );
    assert_eq!(
        Base64HexBytes::encode_for_sku("", &SetDevicePower { on: true }),
        Err(Error::NoCodec {
            sku: "".to_string(),
            kind: PacketKind::SetDevicePower
        })
    );
}

#[test]
fn power_reading_errors() {
    assert_eq!(H5086PowerReading::decode(&[0xaa; 19]), Err(Error::H5086Length));
    assert_eq!(
        H5086PowerReading::decode(&finish(vec![0xab, 0x19])),
        Err(Error::NotH5086PowerReading)
    );
    let mut bytes = finish(vec![0xaa, 0x19]);
    assert!(H5086PowerReading::decode(&bytes).is_ok());
    bytes[5] = 1;
    assert_eq!(H5086PowerReading::decode(&bytes), Err(Error::H5086Checksum));
}

#[test]
fn fan_speed_errors() {
    assert_eq!(NotifyH7105FanSpeed::decode(&[0xaa; 21]), Err(Error::H7105Length));
    assert_eq!(
        NotifyH7105FanSpeed::decode(&finish(vec![0xaa, 0x05, 0x02, 1])),
        Err(Error::NotFanSpeedNotification)
    );
    for speed in [0, 13] {
        assert_eq!(
            NotifyH7105FanSpeed::decode(&finish(vec![0xaa, 0x05, 0x01, speed])),
            Err(Error::InvalidFanSpeed)
        );
    }
    for speed in [1, 12] {
        assert!(NotifyH7105FanSpeed::decode(&finish(vec![0xaa, 0x05, 0x01, speed])).is_ok());
    }
    let mut bytes = finish(vec![0xaa, 0x05, 0x01, 0]);
    bytes[19] ^= 1;
    assert_eq!(NotifyH7105FanSpeed::decode(&bytes), Err(Error::Checksum));
}

#[test]
fn fan_mode_errors() {
    assert_eq!(SetH7105FanMode::decode(&[]), Err(Error::H7105Length));
    assert_eq!(
        SetH7105FanMode::decode(&finish(vec![0x33, 0x05, 0x01, 1])),
        Err(Error::NotFanModeCommand)
    );
    assert_eq!(
        SetH7105FanMode::decode(&finish(vec![0x33, 0x05, 0x00, 0])),
        Err(Error::UnknownFanMode(0))
    );
    assert_eq!(NotifyH7105FanMode::decode(&[]), Err(Error::H7105Length));
    assert_eq!(
        NotifyH7105FanMode::decode(&finish(vec![0x33, 0x05, 0x00, 1])),
        Err(Error::NotFanModeNotification)
    );
    assert_eq!(
        NotifyH7105FanMode::decode(&finish(vec![0xaa, 0x05, 0x00, 6])),
        Err(Error::UnknownFanMode(6))
    );
    assert_eq!(
        H7105FanMode::from_name("turbo"),
        Err(Error::UnsupportedFanMode("turbo".to_string()))
    );
}

#[test]
fn oscillation_packet_errors() {
    assert_eq!(SetH7105Oscillation::decode(&[0x3a]), Err(Error::H7105Length));
    assert_eq!(
        SetH7105Oscillation::decode(&finish(vec![0x3a, 0x1e, 1])),
        Err(Error::NotOscillationCommand)
    );
    let mut bytes = finish(vec![0x3a, 0x1d, 2]);
    bytes[19] ^= 1;
    assert_eq!(
        SetH7105Oscillation::decode(&bytes),
        Err(Error::InvalidOscillationValue)
    );
    bytes[2] = 1;
    assert_eq!(SetH7105Oscillation::decode(&bytes), Err(Error::Checksum));
    assert_eq!(NotifyH7105Oscillation::decode(&[0xaa]), Err(Error::H7105Length));
    assert_eq!(
        NotifyH7105Oscillation::decode(&finish(vec![0xaa, 0x1d, 2])),
        Err(Error::NotOscillationNotification)
    );
    let mut bytes = finish(vec![0xaa, 0x1d, 1]);
    bytes[19] ^= 1;
    assert_eq!(NotifyH7105Oscillation::decode(&bytes), Err(Error::Checksum));
}

#[test]
fn oscillation_range_errors() {
    let read = H7105OscillationConfig::from_params;
    assert_eq!(read([2, 50, 3, 132, 0]), Err(Error::OscillationSpeed));
    assert_eq!(read([1, 50, 3, 132, 2]), Err(Error::SymmetryFlag));
    assert_eq!(read([1, 50, 3, 133, 0]), Err(Error::NotWholeDegrees));
    assert_eq!(read([1, 51, 3, 132, 0]), Err(Error::NotWholeDegrees));
    assert_eq!(read([1, 0, 15, 160, 0]), Err(Error::DegreesOverflow));
    assert_eq!(read([1, 152, 3, 132, 0]), Err(Error::DegreesOutOfRange));
    // positions so far off that their tenths of a degree take more than 16 bits
    assert!(H7105OscillationConfig::fits([1, 50, 3, 132, 0]));
    assert!(H7105OscillationConfig::fits([1, 0, 131, 133, 0]));
    assert!(!H7105OscillationConfig::fits([1, 0, 131, 132, 0]));
    assert!(!H7105OscillationConfig::fits([1, 255, 127, 255, 0]));
    assert_eq!(read([1, 0, 131, 133, 0]), Err(Error::NotWholeDegrees));
    let config = H7105OscillationConfig {
        speed: 3,
        start_degrees: -10,
        end_degrees: 10,
        flags: 1,
    };
    let speed = H7105OscillationConfig { speed: 2, ..config };
    assert_eq!(speed.to_params(), Err(Error::OscillationSpeed));
    let wide = H7105OscillationConfig {
        end_degrees: 76,
        ..config
    };
    assert_eq!(wide.to_params(), Err(Error::DegreesOutOfRange));
    let empty = H7105OscillationConfig {
        end_degrees: -10,
        ..config
    };
    assert_eq!(empty.to_params(), Err(Error::StartNotBelowEnd));
}

#[test]
fn scene_errors() {
    assert_eq!(
        SetSceneCode::decode(&[1, 2, 3]),
        Err(Error::SceneDecodeNotImplemented)
    );
    let cases = [
        ("AAA", 0, Base64ErrorKind::Length),
        ("A*==", 1, Base64ErrorKind::Symbol),
        ("AB==", 1, Base64ErrorKind::Trailing),
        ("A===", 1, Base64ErrorKind::Padding),
    ];
    for (text, position, kind) in cases {
        let error = Base64Error { position, kind };
        assert_eq!(
            SetSceneCode::new(1, text.to_string()).encode(),
            Err(Error::Base64(error))
        );
        assert_eq!(Base64HexBytes::from_base64(text), Err(error));
    }
    assert_eq!(
        PacketManager::new().encode_for_sku("Generic:Light", &SetSceneCode::new(1, "A".to_string())),
        Err(Error::Base64(Base64Error {
            position: 0,
            kind: Base64ErrorKind::Length
        }))
    );
    assert_eq!(SetSceneCode::default(), SetSceneCode::new(0, String::new()));
}
