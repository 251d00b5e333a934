use govee_ble::bytes::Base64HexBytes;
use govee_ble::fan_packets::{
    H7105FanMode, NotifyH7105FanMode, NotifyH7105FanSpeed, SetH7105FanMode, SetH7105FanSpeed,
};
use govee_ble::h5086::H5086PowerReading;
use govee_ble::humidifier::{SetHumidifierMode, SetHumidifierNightlightParams};
use govee_ble::manager::PacketManager;
use govee_ble::nightlight::{
    SetH7105NightlightBrightness, SetH7105NightlightColor, SetH7105NightlightPower,
};
use govee_ble::oscillation::{
    H7105OscillationConfig, NotifyH7105Oscillation, SetH7105Oscillation,
};
use govee_ble::packet::{GoveeBlePacket, PacketValue};
use govee_ble::power::SetDevicePower;
use govee_ble::scene::SetSceneCode;

#[test]
fn packet_manager() {
    let mgr = PacketManager::new();
    assert_eq!(
        mgr.decode_for_sku(
            "H7160",
            &[0x33, 0x05, 0x01, 0x20, 0, 0, 0, 0, 0, 0, 0, 0, 0, 0, 0, 0, 0, 0, 0, 23]
        ),
        GoveeBlePacket::SetHumidifierMode(SetHumidifierMode {
            mode: 1,
            param: 0x20
        })
    );

    assert_eq!(
        mgr.encode_for_sku(
            "H7160",
            &SetHumidifierMode {
                mode: 1,
                param: 0x20
            }
        )
        .unwrap(),
        vec![0x33, 0x05, 0x01, 0x20, 0, 0, 0, 0, 0, 0, 0, 0, 0, 0, 0, 0, 0, 0, 0, 23]
    );
}

fn round_trip<T: PacketValue>(sku: &str, value: &T, expect: GoveeBlePacket) {
    let bytes = Base64HexBytes::encode_for_sku(sku, value).unwrap();
    let decoded = bytes.decode_for_sku(sku);
    assert_eq!(decoded, expect);
}

#[test]
fn basic_round_trip() {
    round_trip(
        "Generic:Light",
        &SetDevicePower { on: true },
        GoveeBlePacket::SetDevicePower(SetDevicePower { on: true }),
    );
    round_trip(
        "H7160",
        &SetHumidifierNightlightParams {
            on: true,
            r: 255,
            g: 69,
            b: 42,
            brightness: 100,
        },
        GoveeBlePacket::SetHumidifierNightlight(SetHumidifierNightlightParams {
            on: true,
            r: 255,
            g: 69,
            b: 42,
            brightness: 100,
        }),
    );
}

#[test]
fn decode_h5086_power_reading() {
    let packet = vec![
        0xee, 0x19, 0x00, 0x19, 0x8b, 0x00, 0x00, 0x26, 0x2f, 0x3d, 0x00, 0x91, 0x00, 0x44, 0x65,
        0x64, 0x00, 0x00, 0x00, 0x85,
    ];

    assert_eq!(
        PacketManager::new().decode_for_sku("H5086", &packet),
        GoveeBlePacket::H5086PowerReading(H5086PowerReading {
            powered_on_seconds: 6539,
            energy_deci_watt_hours: 38,
            voltage_centivolts: 12093,
            current_centi_amps: 145,
            power_centi_watts: 17509,
            power_factor_percent: 100,
        })
    );
    assert_eq!(
        H5086PowerReading {
            power_factor_percent: 101,
            ..Default::default()
        }
        .power_factor_percent(),
        100
    );
}

#[test]
fn h7105_commands_and_notifications() {
    let mgr = PacketManager::new();
    round_trip(
        "H7105",
        &SetDevicePower { on: true },
        GoveeBlePacket::SetDevicePower(SetDevicePower { on: true }),
    );
    round_trip(
        "H7105",
        &SetH7105FanSpeed { speed: 12 },
        GoveeBlePacket::SetH7105FanSpeed(SetH7105FanSpeed { speed: 12 }),
    );
    for mode in H7105FanMode::ALL {
        round_trip(
            "H7105",
            &SetH7105FanMode { mode },
            GoveeBlePacket::SetH7105FanMode(SetH7105FanMode { mode }),
        );
    }
    assert_eq!(
        mgr.encode_for_sku(
            "H7105",
            &SetH7105FanMode {
                mode: H7105FanMode::Auto,
            },
        )
        .unwrap(),
        vec![0x33, 0x05, 0x00, 0x02, 0, 0, 0, 0, 0, 0, 0, 0, 0, 0, 0, 0, 0, 0, 0, 0x34,]
    );
    round_trip(
        "H7105",
        &SetH7105NightlightPower { on: true },
        GoveeBlePacket::SetH7105NightlightPower(SetH7105NightlightPower { on: true }),
    );
    round_trip(
        "H7105",
        &SetH7105NightlightBrightness { brightness: 42 },
        GoveeBlePacket::SetH7105NightlightBrightness(SetH7105NightlightBrightness {
            brightness: 42,
        }),
    );
    round_trip(
        "H7105",
        &SetH7105NightlightColor { r: 1, g: 2, b: 3 },
        GoveeBlePacket::SetH7105NightlightColor(SetH7105NightlightColor { r: 1, g: 2, b: 3 }),
    );

    assert_eq!(
        mgr.decode_for_sku(
            "H7105",
            &[0xaa, 0x05, 0x01, 0x07, 0, 0, 0, 0, 0, 0, 0, 0, 0, 0, 0, 0, 0, 0, 0, 0xa9]
        ),
        GoveeBlePacket::NotifyH7105FanSpeed(NotifyH7105FanSpeed { speed: 7 })
    );
    assert_eq!(
        mgr.decode_for_sku(
            "H7105",
            &[
                0xaa, 0x05, 0x01, 0x0c, 0x00, 0x03, 0x5a, 0x04, 0xb0, 0x01, 0x00, 0x00, 0x00,
                0x00, 0x00, 0x00, 0x00, 0x00, 0x00, 0x4e,
            ]
        ),
        GoveeBlePacket::NotifyH7105FanSpeed(NotifyH7105FanSpeed { speed: 12 })
    );
    assert_eq!(
        mgr.decode_for_sku(
            "H7105",
            &[0xaa, 0x05, 0x00, 0x03, 0, 0, 0, 0, 0, 0, 0, 0, 0, 0, 0, 0, 0, 0, 0, 0xac]
        ),
        GoveeBlePacket::NotifyH7105FanMode(NotifyH7105FanMode {
            mode: H7105FanMode::Nature,
        })
    );
    round_trip(
        "H7105",
        &SetH7105Oscillation {
            oscillating: true,
            params: [0x03, 0x5a, 0x04, 0xb0, 0x01],
        },
        GoveeBlePacket::SetH7105Oscillation(SetH7105Oscillation {
            oscillating: true,
            params: [0x03, 0x5a, 0x04, 0xb0, 0x01],
        }),
    );
    assert_eq!(
        mgr.decode_for_sku(
            "H7105",
            &[
                0xaa, 0x1d, 0x00, 0x03, 0x5a, 0x04, 0xb0, 0x01, 0, 0, 0, 0, 0, 0, 0, 0, 0, 0, 0,
                0x5b,
            ]
        ),
        GoveeBlePacket::NotifyH7105Oscillation(NotifyH7105Oscillation {
            oscillating: false,
            params: [0x03, 0x5a, 0x04, 0xb0, 0x01],
        })
    );
    let old_range = H7105OscillationConfig::from_params([3, 90, 4, 176, 1]).unwrap();
    assert_eq!(old_range.start_degrees, -75);
    assert_eq!(old_range.end_degrees, 15);
    assert_eq!(old_range.to_params().unwrap(), [3, 90, 4, 176, 1]);

    let new_range = H7105OscillationConfig::from_params([3, 75, 3, 57, 1]).unwrap();
    assert_eq!(new_range.start_degrees, -30);
    assert_eq!(new_range.end_degrees, 45);
    assert_eq!(new_range.to_params().unwrap(), [3, 75, 3, 57, 1]);

    let symmetric_low = H7105OscillationConfig::from_params([1, 50, 3, 132, 0]).unwrap();
    assert_eq!(symmetric_low.start_degrees, -25);
    assert_eq!(symmetric_low.end_degrees, 25);
    assert_eq!(symmetric_low.to_params().unwrap(), [1, 50, 3, 132, 0]);

    let right_only = H7105OscillationConfig::from_params([1, 30, 1, 194, 1]).unwrap();
    assert_eq!(right_only.start_degrees, 30);
    assert_eq!(right_only.end_degrees, 60);
    assert_eq!(right_only.to_params().unwrap(), [1, 30, 1, 194, 1]);
}

#[test]
fn scene_command() {
    const FOREST_SCENCE_PARAM: &str = "AyYAAQAKAgH/GQG0CgoCyBQF//8AAP//////AP//lP8AFAGWAAAAACMAAg8FAgH/FAH7AAAB+goEBP8AtP8AR///4/8AAAAAAAAAABoAAAABAgH/BQHIFBQC7hQBAP8AAAAAAAAAAA==";
    const FOREST_SCENE_CODE: u16 = 212;

    let command = SetSceneCode::new(FOREST_SCENE_CODE, FOREST_SCENCE_PARAM.to_string());

    let padded = command.encode().unwrap();

    println!("data is:");
    let mut hex = String::new();
    for (idx, b) in padded.iter().enumerate() {
        if idx % 20 == 0 && !hex.is_empty() {
            hex.push('\n');
        } else if !hex.is_empty() {
            hex.push(' ');
        }
        hex.push_str(&format!("{b:02x}"));
    }
    println!("{hex}");

    assert_eq!(
        hex,
        "\
a3 00 01 07 02 03 26 00 01 00 0a 02 01 ff 19 01 b4 0a 0a d9
a3 01 02 c8 14 05 ff ff 00 00 ff ff ff ff ff 00 ff ff 94 12
a3 02 ff 00 14 01 96 00 00 00 00 23 00 02 0f 05 02 01 ff 0a
a3 03 14 01 fb 00 00 01 fa 0a 04 04 ff 00 b4 ff 00 47 ff b3
a3 04 ff e3 ff 00 00 00 00 00 00 00 00 1a 00 00 00 01 02 5d
a3 05 01 ff 05 01 c8 14 14 02 ee 14 01 00 ff 00 00 00 00 92
a3 ff 00 00 00 00 00 00 00 00 00 00 00 00 00 00 00 00 00 5c
33 05 04 d4 00 00 00 00 00 00 00 00 00 00 00 00 00 00 00 e6"
    );
}
