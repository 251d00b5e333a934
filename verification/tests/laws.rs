use govee_ble::bytes::{Base64HexBytes, HexBytes};
use govee_ble::error::Error;
use govee_ble::fan_packets::{
    H7105FanMode, NotifyH7105FanMode, NotifyH7105FanSpeed, SetH7105FanMode, SetH7105FanSpeed,
};
use govee_ble::frame::{btoi, calculate_checksum, finish, itob};
use govee_ble::h5086::H5086PowerReading;
use govee_ble::humidifier::{
    HumidifierAutoMode, NotifyHumidifierMode, NotifyHumidifierNightlightParams, SetHumidifierMode,
    SetHumidifierNightlightParams, TargetHumidity,
};
use govee_ble::kind::PacketKind;
use govee_ble::manager::PacketManager;
use govee_ble::nightlight::{
    NotifyH7105NightlightColor, NotifyH7105NightlightState, SetH7105NightlightBrightness,
    SetH7105NightlightColor, SetH7105NightlightPower,
};
use govee_ble::oscillation::{
    H7105OscillationConfig, NotifyH7105Oscillation, SetH7105Oscillation,
};
use govee_ble::packet::{GoveeBlePacket, PacketValue};
use govee_ble::param::DecodePacketParam;
use govee_ble::power::SetDevicePower;
use govee_ble::scene::{encode_scene, SetSceneCode, MAX_SCENE_BYTES};

fn is_frame(bytes: &[u8]) -> bool {
    bytes.len() == 20 && calculate_checksum(&bytes[..19]) == bytes[19]
}

fn travels<T: PacketValue>(sku: &str, value: T, expected: GoveeBlePacket) {
    let mgr = PacketManager::new();
    let bytes = mgr.encode_for_sku(sku, &value).unwrap();
    assert!(is_frame(&bytes));
    assert_eq!(mgr.decode_for_sku(sku, &bytes), expected);
    // a second look-up answers from what was remembered
    assert_eq!(mgr.decode_for_sku(sku, &bytes), expected);
}

#[test]
fn every_sendable_value_is_read_back() {
    let v = SetHumidifierMode { mode: 3, param: 228 };
    travels("H7160", v.clone(), GoveeBlePacket::SetHumidifierMode(v));
    let v = NotifyHumidifierMode { mode: 1, param: 5 };
    travels("H7160", v.clone(), GoveeBlePacket::NotifyHumidifierMode(v));
    let v = HumidifierAutoMode {
        target_humidity: TargetHumidity::from_percent(45),
    };
    travels("H7160", v.clone(), GoveeBlePacket::NotifyHumidifierAutoMode(v));
    let v = NotifyHumidifierNightlightParams {
        on: true,
        r: 1,
        g: 2,
        b: 3,
        brightness: 4,
    };
    travels("H7160", v, GoveeBlePacket::NotifyHumidifierNightlight(v));
    let v: SetHumidifierNightlightParams = v.into();
    travels("H7160", v, GoveeBlePacket::SetHumidifierNightlight(v));
    let v = SetH7105FanSpeed { speed: 255 };
    travels("H7105", v, GoveeBlePacket::SetH7105FanSpeed(v));
    let v = SetH7105FanMode {
        mode: H7105FanMode::Sleep,
    };
    travels("H7105", v, GoveeBlePacket::SetH7105FanMode(v));
    let v = SetH7105NightlightPower { on: false };
    travels("H7105", v, GoveeBlePacket::SetH7105NightlightPower(v));
    let v = SetH7105NightlightBrightness { brightness: 99 };
    travels("H7105", v, GoveeBlePacket::SetH7105NightlightBrightness(v));
    let v = SetH7105NightlightColor { r: 9, g: 8, b: 7 };
    travels("H7105", v, GoveeBlePacket::SetH7105NightlightColor(v));
    let v = NotifyH7105NightlightState {
        on: true,
        brightness: 50,
    };
    travels("H7105", v, GoveeBlePacket::NotifyH7105NightlightState(v));
    let v = NotifyH7105NightlightColor { r: 6, g: 5, b: 4 };
    travels("H7105", v, GoveeBlePacket::NotifyH7105NightlightColor(v));
    let v = SetH7105Oscillation {
        oscillating: false,
        params: [1, 2, 3, 4, 5],
    };
    travels("H7105", v, GoveeBlePacket::SetH7105Oscillation(v));
    let v = SetDevicePower { on: false };
    travels("H7105", v.clone(), GoveeBlePacket::SetDevicePower(v.clone()));
    travels("Generic:Light", v.clone(), GoveeBlePacket::SetDevicePower(v));
}

#[test]
fn notifications_are_not_sent() {
    let mgr = PacketManager::new();
    assert_eq!(
        mgr.encode_for_sku("H5086", &H5086PowerReading::default()),
        Err(Error::DeviceNotification(PacketKind::H5086PowerReading))
    );
    assert_eq!(
        mgr.encode_for_sku("H7105", &NotifyH7105FanSpeed { speed: 3 }),
        Err(Error::DeviceNotification(PacketKind::NotifyH7105FanSpeed))
    );
    assert_eq!(
        mgr.encode_for_sku("H7105", &NotifyH7105FanMode::default()),
        Err(Error::DeviceNotification(PacketKind::NotifyH7105FanMode))
    );
    assert_eq!(
        mgr.encode_for_sku("H7105", &NotifyH7105Oscillation::default()),
        Err(Error::DeviceNotification(
            PacketKind::NotifyH7105Oscillation
        ))
    );
}

#[test]
fn frames_are_padded_and_checked() {
    let bytes = finish(vec![0x33, 0x01, 0x01]);
    assert_eq!(
        bytes,
        vec![0x33, 0x01, 0x01, 0, 0, 0, 0, 0, 0, 0, 0, 0, 0, 0, 0, 0, 0, 0, 0, 0x33]
    );
    assert!(is_frame(&bytes));
    assert_eq!(calculate_checksum(&bytes), 0);
    assert_eq!(finish(vec![])[19], 0);
    // content that is too long is cut, but its checksum covers all of it
    let long = finish((1..=21).collect());
    assert_eq!(long.len(), 20);
    assert_eq!(long[18], 19);
    assert_eq!(long[19], (1..=21).fold(0, |sum: u8, b: u8| sum ^ b));
}

#[test]
fn switches_are_bytes() {
    assert_eq!(btoi(true), 1);
    assert_eq!(btoi(false), 0);
    assert!(itob(&1));
    assert!(itob(&0x80));
    assert!(!itob(&0));
}

#[test]
fn fields_are_read_back() {
    let mut target = vec![7];
    0x1234u16.encode_param(&mut target);
    true.encode_param(&mut target);
    TargetHumidity::from_percent(10).encode_param(&mut target);
    H7105FanMode::Custom.encode_param(&mut target);
    9u8.encode_param(&mut target);
    assert_eq!(target, vec![7, 0x34, 0x12, 1, 138, 4, 9]);
    let mut word = 0u16;
    let rest = word.decode_param(&target[1..]).unwrap();
    assert_eq!(word, 0x1234);
    let mut on = false;
    let rest = on.decode_param(rest).unwrap();
    assert!(on);
    let mut humidity = TargetHumidity::default();
    let rest = humidity.decode_param(rest).unwrap();
    assert_eq!(humidity.as_percent(), 10);
    let mut mode = H7105FanMode::Normal;
    let rest = mode.decode_param(rest).unwrap();
    assert_eq!(mode, H7105FanMode::Custom);
    let mut byte = 0u8;
    assert_eq!(byte.decode_param(rest).unwrap().len(), 0);
    assert_eq!(byte, 9);
    // nothing is changed where nothing can be read
    assert_eq!(word.decode_param(&[1]), Err(Error::Eof));
    assert_eq!(word, 0x1234);
    assert_eq!(byte.decode_param(&[]), Err(Error::Eof));
    assert_eq!(mode.decode_param(&[6]), Err(Error::UnknownFanMode(6)));
    assert_eq!(mode, H7105FanMode::Custom);
}

#[test]
fn humidity_is_offset_by_128() {
    assert_eq!(TargetHumidity::from_percent(0).into_inner(), 128);
    assert_eq!(TargetHumidity::from_percent(100).into_inner(), 228);
    assert_eq!(TargetHumidity::from_percent(127).as_percent(), 127);
    let byte: u8 = TargetHumidity::from_percent(45).into();
    assert_eq!(byte, 173);
}

#[test]
fn nightlight_command_repeats_notification() {
    let state = NotifyHumidifierNightlightParams {
        on: true,
        r: 10,
        g: 20,
        b: 30,
        brightness: 40,
    };
    let told = state.encode().unwrap();
    let command = SetHumidifierNightlightParams::from(state).encode().unwrap();
    assert_eq!(told[0], 0xaa);
    assert_eq!(command[0], 0x33);
    assert_eq!(told[1..19], command[1..19]);
}

#[test]
fn unchecked_packets_ignore_the_checksum() {
    let mgr = PacketManager::new();
    let mut bytes = mgr
        .encode_for_sku("H7105", &SetH7105FanSpeed { speed: 4 })
        .unwrap();
    bytes[19] ^= 0xff;
    assert_eq!(
        mgr.decode_for_sku("H7105", &bytes),
        GoveeBlePacket::SetH7105FanSpeed(SetH7105FanSpeed { speed: 4 })
    );
}

#[test]
fn checked_packets_need_the_checksum() {
    let mgr = PacketManager::new();
    let mut bytes = mgr
        .encode_for_sku("H7105", &SetH7105FanMode::default())
        .unwrap();
    bytes[19] ^= 0xff;
    assert_eq!(
        mgr.decode_for_sku("H7105", &bytes),
        GoveeBlePacket::Generic(HexBytes::new(bytes))
    );
}

#[test]
fn unknown_products_keep_bytes() {
    let mgr = PacketManager::new();
    let bytes = mgr
        .encode_for_sku("H7105", &SetDevicePower { on: true })
        .unwrap();
    assert_eq!(
        mgr.decode_for_sku("H6072", &bytes),
        GoveeBlePacket::Generic(HexBytes::new(bytes.clone()))
    );
    // a humidifier has no such switch
    assert_eq!(
        mgr.decode_for_sku("H7160", &bytes),
        GoveeBlePacket::Generic(HexBytes::new(bytes))
    );
    assert_eq!(
        mgr.decode_for_sku("H7160", &[]),
        GoveeBlePacket::Generic(HexBytes::new(vec![]))
    );
}

#[test]
fn same_bytes_mean_different_things_to_different_products() {
    let mgr = PacketManager::new();
    let bytes = finish(vec![0xaa, 0x05, 0x00, 0x03]);
    assert_eq!(
        mgr.decode_for_sku("H7105", &bytes),
        GoveeBlePacket::NotifyH7105FanMode(NotifyH7105FanMode {
            mode: H7105FanMode::Nature
        })
    );
    assert_eq!(
        mgr.decode_for_sku("H7160", &bytes),
        GoveeBlePacket::NotifyHumidifierMode(NotifyHumidifierMode { mode: 3, param: 0 })
    );
}

#[test]
fn fan_modes_have_codes_and_names() {
    for (i, mode) in H7105FanMode::ALL.iter().enumerate() {
        assert_eq!(mode.code() as usize, i + 1);
        assert_eq!(H7105FanMode::try_from(mode.code()), Ok(*mode));
        assert_eq!(H7105FanMode::from_name(mode.name()), Ok(*mode));
    }
    assert_eq!(H7105FanMode::from_name("nATURE"), Ok(H7105FanMode::Nature));
    assert_eq!(H7105FanMode::Sleep.name(), "Sleep");
    assert_eq!(H7105FanMode::default(), H7105FanMode::Normal);
}

#[test]
fn oscillation_ranges_round_trip() {
    let config = H7105OscillationConfig {
        speed: 1,
        start_degrees: -75,
        end_degrees: 75,
        flags: 0,
    };
    let params = config.to_params().unwrap();
    assert_eq!(params, [1, 150, 3, 132, 0]);
    assert_eq!(H7105OscillationConfig::from_params(params), Ok(config));
    // a flag that may not be read is still sent
    let odd = H7105OscillationConfig { flags: 2, ..config };
    assert_eq!(odd.to_params(), Ok([1, 150, 3, 132, 2]));
    assert_eq!(
        H7105OscillationConfig::from_params([1, 150, 3, 132, 2]),
        Err(Error::SymmetryFlag)
    );
    // a range without extent is read but not sent
    let empty = H7105OscillationConfig::from_params([3, 0, 3, 132, 1]).unwrap();
    assert_eq!(empty.start_degrees, 0);
    assert_eq!(empty.end_degrees, 0);
    assert_eq!(empty.to_params(), Err(Error::StartNotBelowEnd));
}

#[test]
fn scenes_are_cut_into_numbered_lines() {
    let bytes: Vec<u8> = (0..40).collect();
    let command = encode_scene(0x0102, &bytes);
    assert_eq!(command.len(), 80);
    for chunk in command.chunks(20) {
        assert!(is_frame(chunk));
    }
    assert_eq!(command[0..5], [0xa3, 0, 1, 3, 2]);
    assert_eq!(command[20..22], [0xa3, 1]);
    assert_eq!(command[40..42], [0xa3, 0xff]);
    assert_eq!(command[60..65], [0x33, 5, 4, 2, 1]);
    let mut carried = command[5..19].to_vec();
    carried.extend_from_slice(&command[22..39]);
    carried.extend_from_slice(&command[42..51]);
    assert_eq!(carried, bytes);
    assert_eq!(command[51..59], [0; 8]);
}

#[test]
fn short_scenes_take_one_line() {
    for len in [0usize, 1, 14] {
        let bytes = vec![5u8; len];
        let command = encode_scene(7, &bytes);
        assert_eq!(command.len(), 40);
        assert_eq!(command[0..5], [0xa3, 0xff, 1, 1, 2]);
        assert_eq!(command[5..5 + len], bytes[..]);
    }
    assert_eq!(encode_scene(7, &[5u8; 15]).len(), 60);
}

#[test]
fn longest_scene_counts_its_lines() {
    let command = encode_scene(1, &vec![1u8; MAX_SCENE_BYTES]);
    assert_eq!(command.len(), 20 * 256);
    assert_eq!(command[3], 255);
    assert_eq!(command[20 * 253 + 1], 253);
    assert_eq!(command[20 * 254 + 1], 0xff);
}

#[test]
fn scenes_that_are_too_long_are_not_encoded() {
    // 5776 characters stand for 4332 bytes, four more for three bytes more
    let longest = SetSceneCode::new(1, "A".repeat(5776));
    assert!(longest.fits());
    assert_eq!(longest.try_encode().unwrap().unwrap().len(), 20 * 256);
    let longer = SetSceneCode::new(1, "A".repeat(5780));
    assert!(!longer.fits());
    assert_eq!(longer.try_encode(), None);
    let mgr = PacketManager::new();
    assert_eq!(mgr.try_encode_for_sku("Generic:Light", &longer), None);
    assert_eq!(
        mgr.try_encode_for_sku("H7105", &longer),
        Some(Err(Error::NoCodec {
            sku: "H7105".to_string(),
            kind: PacketKind::SetSceneCode
        }))
    );
    assert_eq!(
        Base64HexBytes::try_encode_for_sku("Generic:Light", &longer),
        None
    );
    assert_eq!(
        Base64HexBytes::try_encode_for_sku("Generic:Light", &longest)
            .unwrap()
            .unwrap()
            .bytes()
            .len(),
        20 * 256
    );
}

#[test]
fn bytes_travel_as_base64() {
    let bytes = Base64HexBytes::with_bytes(vec![0x33, 0x01, 0x01]);
    assert_eq!(bytes.base64(), vec!["MwEBAAAAAAAAAAAAAAAAAAAAADM=".to_string()]);
    let back = Base64HexBytes::from_base64("MwEBAAAAAAAAAAAAAAAAAAAAADM=").unwrap();
    assert_eq!(back.bytes(), bytes.bytes());
    assert_eq!(
        back.decode_for_sku("Generic:Light"),
        GoveeBlePacket::SetDevicePower(SetDevicePower { on: true })
    );
}

#[test]
fn long_commands_travel_as_one_text_per_frame() {
    let scene = SetSceneCode::new(212, "AQIDBAUGBwgJCgsMDQ4PEBESExQ=".to_string());
    let bytes = Base64HexBytes::encode_for_sku("Generic:Light", &scene).unwrap();
    let texts = bytes.base64();
    assert_eq!(texts.len(), 3);
    let mut joined = vec![];
    for text in &texts {
        joined.extend_from_slice(Base64HexBytes::from_base64(text).unwrap().bytes());
    }
    assert_eq!(joined, bytes.bytes());
    assert_eq!(
        Base64HexBytes::from_base64("").unwrap().base64(),
        Vec::<String>::new()
    );
}

#[test]
fn bytes_are_shown_in_hexadecimal() {
    assert_eq!(HexBytes::new(vec![]).hex(), "[]");
    assert_eq!(HexBytes::new(vec![0]).hex(), "[00]");
    let bytes = HexBytes::new(vec![0xaa, 5, 0xff]);
    assert_eq!(bytes.hex(), "[AA, 05, FF]");
    assert_eq!(format!("{bytes:?}"), format!("{:02X?}", vec![0xaau8, 5, 0xff]));
    assert_eq!(format!("{bytes:#?}"), "[AA, 05, FF]");
    assert_eq!(
        format!("{:?}", GoveeBlePacket::Generic(bytes)),
        "Generic([AA, 05, FF])"
    );
    assert_eq!(
        format!("{:?}", Base64HexBytes::from_base64("qgX/").unwrap()),
        "Base64HexBytes([AA, 05, FF])"
    );
}

#[test]
fn remembered_codecs_give_the_same_answers() {
    let mgr = PacketManager::new();
    let bytes = finish(vec![0x33, 0x01, 0x01]);
    for sku in ["H7105", "Generic:Light", "H7105", "Generic:Light"] {
        assert_eq!(
            mgr.decode_for_sku(sku, &bytes),
            GoveeBlePacket::SetDevicePower(SetDevicePower { on: true })
        );
    }
}

#[test]
fn products_have_their_codecs() {
    let mgr = PacketManager::new();
    for (sku, count) in [("H7160", 5), ("H5086", 1), ("H7105", 12), ("Generic:Light", 2)] {
        let map = mgr.map_for_sku(sku);
        assert_eq!(map.codecs().len(), count);
        for codec in map.codecs() {
            assert!(codec.supports_sku(sku));
            assert_eq!(map.get(codec.kind()).unwrap().kind(), codec.kind());
        }
        assert_eq!(mgr.map_for_sku(sku).codecs().len(), count);
    }
    assert!(mgr.map_for_sku("H7105").get(PacketKind::SetDevicePower).is_some());
    assert!(mgr.map_for_sku("H7160").get(PacketKind::SetDevicePower).is_none());
    // product numbers are told apart by case, and others have no codecs
    assert_eq!(mgr.map_for_sku("h7105").codecs().len(), 0);
    assert_eq!(mgr.map_for_sku("").codecs().len(), 0);
}
