//! The bytes of every command and notification: what is sent for a value, and
//! which value received bytes are, byte by byte.

use crate::error::Error;
use crate::fan_packets::{
    NotifyH7105FanMode, NotifyH7105FanSpeed, SetH7105FanMode, SetH7105FanSpeed,
};
use crate::frame::{checksum, frame, law_finished_frame_is_valid};
use crate::h5086::H5086PowerReading;
use crate::humidifier::{
    HumidifierAutoMode, NotifyHumidifierMode, NotifyHumidifierNightlightParams, SetHumidifierMode,
    SetHumidifierNightlightParams,
};
use crate::kind::PacketKind;
use crate::manager::{
    encoded_for_sku, law_codec_decides, law_products_of_types, no_codec, packet_for_sku,
    registered,
};
use crate::nightlight::{
    NotifyH7105NightlightColor, NotifyH7105NightlightState, SetH7105NightlightBrightness,
    SetH7105NightlightColor, SetH7105NightlightPower,
};
use crate::oscillation::{NotifyH7105Oscillation, SetH7105Oscillation};
use crate::packet::{
    decoded_as, decoding, encodable, encoded_as, encoding, kind_of, GoveeBlePacket, Packet,
    PacketValue,
};
use crate::param::{content, law_layout_of_packet, layout_error};
use crate::power::SetDevicePower;
use crate::scene::{scene_encoding, scene_fits, SetSceneCode};
use vstd::prelude::*;

verus! {

/// The frame for the working mode of a humidifier: its bytes, zeros behind them, and the checksum.
pub proof fn law_bytes_of_set_humidifier_mode(value: SetHumidifierMode)
    ensures
        encoding(value.packet()) is Ok,
        frame(value.wire()) == encoding(value.packet())->Ok_0,
        ({
            let sent = encoding(value.packet())->Ok_0;
            &&& sent.len() == 20
            &&& sent[0] == 0x33
            &&& sent[1] == 0x05
            &&& sent[2] == value.mode
            &&& sent[3] == value.param
            &&& forall|i: int| 4 <= i < 19 ==> sent[i] == 0
            &&& sent[19] == checksum(sent.take(19))
        }),
{
    law_finished_frame_is_valid(value.wire());
}

/// Received bytes are the working mode of a humidifier exactly if they start as it does, hold
/// nothing but zeros behind its fields up to the last byte, and their fields say
/// the value. Else what is wrong with their layout is the answer.
pub proof fn law_reading_set_humidifier_mode(data: Seq<u8>, value: SetHumidifierMode)
    ensures
        decoding(PacketKind::SetHumidifierMode, data) == Ok::<Packet, Error>(Packet::SetHumidifierMode(value)) <==> {
            &&& data.len() > 4
            &&& data[0] == 0x33
            &&& data[1] == 0x05
            &&& data[2] == value.mode
            &&& data[3] == value.param
            &&& forall|i: int| 4 <= i < data.len() - 1 ==> data[i] == 0
        },
        SetHumidifierMode::parsed(data) == Ok::<SetHumidifierMode, Error>(value) <==> decoding(
            PacketKind::SetHumidifierMode,
            data,
        ) == Ok::<Packet, Error>(Packet::SetHumidifierMode(value)),
        decoding(PacketKind::SetHumidifierMode, data) is Err <==> layout_error(
            content(data),
            seq![0x33u8, 0x05],
            2,
        ) is Some,
        decoding(PacketKind::SetHumidifierMode, data) is Err ==> {
            let fault = layout_error(content(data), seq![0x33u8, 0x05], 2)->Some_0;
            &&& decoding(PacketKind::SetHumidifierMode, data) == Err::<Packet, Error>(fault)
            &&& SetHumidifierMode::parsed(data) == Err::<SetHumidifierMode, Error>(fault)
        },
        decoding(PacketKind::SetHumidifierMode, data) == Ok::<Packet, Error>(Packet::SetHumidifierMode(value))
            ==> packet_for_sku("H7160"@, data) == Packet::SetHumidifierMode(value),
{
    law_layout_of_packet(data, seq![0x33u8, 0x05], 2);
    law_products_of_types(PacketKind::SetHumidifierMode, "H7160"@);
    if decoding(PacketKind::SetHumidifierMode, data) is Ok {
        law_codec_decides("H7160"@, data, PacketKind::SetHumidifierMode);
    }
}

/// The frame for the working mode that a humidifier tells: its bytes, zeros behind them, and the checksum.
pub proof fn law_bytes_of_notify_humidifier_mode(value: NotifyHumidifierMode)
    ensures
        encoding(value.packet()) is Ok,
        frame(value.wire()) == encoding(value.packet())->Ok_0,
        ({
            let sent = encoding(value.packet())->Ok_0;
            &&& sent.len() == 20
            &&& sent[0] == 0xaa
            &&& sent[1] == 0x05
            &&& sent[2] == 0x00
            &&& sent[3] == value.mode
            &&& sent[4] == value.param
            &&& forall|i: int| 5 <= i < 19 ==> sent[i] == 0
            &&& sent[19] == checksum(sent.take(19))
        }),
{
    law_finished_frame_is_valid(value.wire());
}

/// Received bytes are the working mode that a humidifier tells exactly if they start as it does, hold
/// nothing but zeros behind its fields up to the last byte, and their fields say
/// the value. Else what is wrong with their layout is the answer.
pub proof fn law_reading_notify_humidifier_mode(data: Seq<u8>, value: NotifyHumidifierMode)
    ensures
        decoding(PacketKind::NotifyHumidifierMode, data) == Ok::<Packet, Error>(Packet::NotifyHumidifierMode(value)) <==> {
            &&& data.len() > 5
            &&& data[0] == 0xaa
            &&& data[1] == 0x05
            &&& data[2] == 0x00
            &&& data[3] == value.mode
            &&& data[4] == value.param
            &&& forall|i: int| 5 <= i < data.len() - 1 ==> data[i] == 0
        },
        NotifyHumidifierMode::parsed(data) == Ok::<NotifyHumidifierMode, Error>(value) <==> decoding(
            PacketKind::NotifyHumidifierMode,
            data,
        ) == Ok::<Packet, Error>(Packet::NotifyHumidifierMode(value)),
        decoding(PacketKind::NotifyHumidifierMode, data) is Err <==> layout_error(
            content(data),
            seq![0xaau8, 0x05, 0x00],
            2,
        ) is Some,
        decoding(PacketKind::NotifyHumidifierMode, data) is Err ==> {
            let fault = layout_error(content(data), seq![0xaau8, 0x05, 0x00], 2)->Some_0;
            &&& decoding(PacketKind::NotifyHumidifierMode, data) == Err::<Packet, Error>(fault)
            &&& NotifyHumidifierMode::parsed(data) == Err::<NotifyHumidifierMode, Error>(fault)
        },
        decoding(PacketKind::NotifyHumidifierMode, data) == Ok::<Packet, Error>(Packet::NotifyHumidifierMode(value))
            ==> packet_for_sku("H7160"@, data) == Packet::NotifyHumidifierMode(value),
{
    law_layout_of_packet(data, seq![0xaau8, 0x05, 0x00], 2);
    law_products_of_types(PacketKind::NotifyHumidifierMode, "H7160"@);
    if decoding(PacketKind::NotifyHumidifierMode, data) is Ok {
        law_codec_decides("H7160"@, data, PacketKind::NotifyHumidifierMode);
    }
}

/// The frame for the humidity that a humidifier aims at: its bytes, zeros behind them, and the checksum.
pub proof fn law_bytes_of_humidifier_auto_mode(value: HumidifierAutoMode)
    ensures
        encoding(value.packet()) is Ok,
        frame(value.wire()) == encoding(value.packet())->Ok_0,
        ({
            let sent = encoding(value.packet())->Ok_0;
            &&& sent.len() == 20
            &&& sent[0] == 0xaa
            &&& sent[1] == 0x05
            &&& sent[2] == 0x03
            &&& sent[3] == value.target_humidity.byte()
            &&& forall|i: int| 4 <= i < 19 ==> sent[i] == 0
            &&& sent[19] == checksum(sent.take(19))
        }),
{
    law_finished_frame_is_valid(value.wire());
}

/// Received bytes are the humidity that a humidifier aims at exactly if they start as it does, hold
/// nothing but zeros behind its fields up to the last byte, and their fields say
/// the value. Else what is wrong with their layout is the answer.
pub proof fn law_reading_humidifier_auto_mode(data: Seq<u8>, value: HumidifierAutoMode)
    ensures
        decoding(PacketKind::HumidifierAutoMode, data) == Ok::<Packet, Error>(Packet::NotifyHumidifierAutoMode(value)) <==> {
            &&& data.len() > 4
            &&& data[0] == 0xaa
            &&& data[1] == 0x05
            &&& data[2] == 0x03
            &&& data[3] == value.target_humidity.byte()
            &&& forall|i: int| 4 <= i < data.len() - 1 ==> data[i] == 0
        },
        HumidifierAutoMode::parsed(data) == Ok::<HumidifierAutoMode, Error>(value) <==> decoding(
            PacketKind::HumidifierAutoMode,
            data,
        ) == Ok::<Packet, Error>(Packet::NotifyHumidifierAutoMode(value)),
        decoding(PacketKind::HumidifierAutoMode, data) is Err <==> layout_error(
            content(data),
            seq![0xaau8, 0x05, 0x03],
            1,
        ) is Some,
        decoding(PacketKind::HumidifierAutoMode, data) is Err ==> {
            let fault = layout_error(content(data), seq![0xaau8, 0x05, 0x03], 1)->Some_0;
            &&& decoding(PacketKind::HumidifierAutoMode, data) == Err::<Packet, Error>(fault)
            &&& HumidifierAutoMode::parsed(data) == Err::<HumidifierAutoMode, Error>(fault)
        },
        decoding(PacketKind::HumidifierAutoMode, data) == Ok::<Packet, Error>(Packet::NotifyHumidifierAutoMode(value))
            ==> packet_for_sku("H7160"@, data) == Packet::NotifyHumidifierAutoMode(value),
{
    law_layout_of_packet(data, seq![0xaau8, 0x05, 0x03], 1);
    value.target_humidity.lemma_byte(data[3]);
    law_products_of_types(PacketKind::HumidifierAutoMode, "H7160"@);
    if decoding(PacketKind::HumidifierAutoMode, data) is Ok {
        law_codec_decides("H7160"@, data, PacketKind::HumidifierAutoMode);
    }
}

/// The frame for the night light that a humidifier tells: its bytes, zeros behind them, and the checksum.
pub proof fn law_bytes_of_notify_humidifier_nightlight(value: NotifyHumidifierNightlightParams)
    ensures
        encoding(value.packet()) is Ok,
        frame(value.wire()) == encoding(value.packet())->Ok_0,
        ({
            let sent = encoding(value.packet())->Ok_0;
            &&& sent.len() == 20
            &&& sent[0] == 0xaa
            &&& sent[1] == 0x1b
            &&& sent[2] == 1 <==> value.on
            &&& sent[2] == 0 <==> !value.on
            &&& sent[3] == value.brightness
            &&& sent[4] == value.r
            &&& sent[5] == value.g
            &&& sent[6] == value.b
            &&& forall|i: int| 7 <= i < 19 ==> sent[i] == 0
            &&& sent[19] == checksum(sent.take(19))
        }),
{
    law_finished_frame_is_valid(value.wire());
}

/// Received bytes are the night light that a humidifier tells exactly if they start as it does, hold
/// nothing but zeros behind its fields up to the last byte, and their fields say
/// the value. Else what is wrong with their layout is the answer.
pub proof fn law_reading_notify_humidifier_nightlight(data: Seq<u8>, value: NotifyHumidifierNightlightParams)
    ensures
        decoding(PacketKind::NotifyHumidifierNightlightParams, data) == Ok::<Packet, Error>(Packet::NotifyHumidifierNightlight(value)) <==> {
            &&& data.len() > 7
            &&& data[0] == 0xaa
            &&& data[1] == 0x1b
            &&& (data[2] != 0) == value.on
            &&& data[3] == value.brightness
            &&& data[4] == value.r
            &&& data[5] == value.g
            &&& data[6] == value.b
            &&& forall|i: int| 7 <= i < data.len() - 1 ==> data[i] == 0
        },
        NotifyHumidifierNightlightParams::parsed(data) == Ok::<NotifyHumidifierNightlightParams, Error>(value) <==> decoding(
            PacketKind::NotifyHumidifierNightlightParams,
            data,
        ) == Ok::<Packet, Error>(Packet::NotifyHumidifierNightlight(value)),
        decoding(PacketKind::NotifyHumidifierNightlightParams, data) is Err <==> layout_error(
            content(data),
            seq![0xaau8, 0x1b],
            5,
        ) is Some,
        decoding(PacketKind::NotifyHumidifierNightlightParams, data) is Err ==> {
            let fault = layout_error(content(data), seq![0xaau8, 0x1b], 5)->Some_0;
            &&& decoding(PacketKind::NotifyHumidifierNightlightParams, data) == Err::<Packet, Error>(fault)
            &&& NotifyHumidifierNightlightParams::parsed(data) == Err::<NotifyHumidifierNightlightParams, Error>(fault)
        },
        decoding(PacketKind::NotifyHumidifierNightlightParams, data) == Ok::<Packet, Error>(Packet::NotifyHumidifierNightlight(value))
            ==> packet_for_sku("H7160"@, data) == Packet::NotifyHumidifierNightlight(value),
{
    law_layout_of_packet(data, seq![0xaau8, 0x1b], 5);
    law_products_of_types(PacketKind::NotifyHumidifierNightlightParams, "H7160"@);
    if decoding(PacketKind::NotifyHumidifierNightlightParams, data) is Ok {
        law_codec_decides("H7160"@, data, PacketKind::NotifyHumidifierNightlightParams);
    }
}

/// The frame for the night light of a humidifier: its bytes, zeros behind them, and the checksum.
pub proof fn law_bytes_of_set_humidifier_nightlight(value: SetHumidifierNightlightParams)
    ensures
        encoding(value.packet()) is Ok,
        frame(value.wire()) == encoding(value.packet())->Ok_0,
        ({
            let sent = encoding(value.packet())->Ok_0;
            &&& sent.len() == 20
            &&& sent[0] == 0x33
            &&& sent[1] == 0x1b
            &&& sent[2] == 1 <==> value.on
            &&& sent[2] == 0 <==> !value.on
            &&& sent[3] == value.brightness
            &&& sent[4] == value.r
            &&& sent[5] == value.g
            &&& sent[6] == value.b
            &&& forall|i: int| 7 <= i < 19 ==> sent[i] == 0
            &&& sent[19] == checksum(sent.take(19))
        }),
{
    law_finished_frame_is_valid(value.wire());
}

/// Received bytes are the night light of a humidifier exactly if they start as it does, hold
/// nothing but zeros behind its fields up to the last byte, and their fields say
/// the value. Else what is wrong with their layout is the answer.
pub proof fn law_reading_set_humidifier_nightlight(data: Seq<u8>, value: SetHumidifierNightlightParams)
    ensures
        decoding(PacketKind::SetHumidifierNightlightParams, data) == Ok::<Packet, Error>(Packet::SetHumidifierNightlight(value)) <==> {
            &&& data.len() > 7
            &&& data[0] == 0x33
            &&& data[1] == 0x1b
            &&& (data[2] != 0) == value.on
            &&& data[3] == value.brightness
            &&& data[4] == value.r
            &&& data[5] == value.g
            &&& data[6] == value.b
            &&& forall|i: int| 7 <= i < data.len() - 1 ==> data[i] == 0
        },
        SetHumidifierNightlightParams::parsed(data) == Ok::<SetHumidifierNightlightParams, Error>(value) <==> decoding(
            PacketKind::SetHumidifierNightlightParams,
            data,
        ) == Ok::<Packet, Error>(Packet::SetHumidifierNightlight(value)),
        decoding(PacketKind::SetHumidifierNightlightParams, data) is Err <==> layout_error(
            content(data),
            seq![0x33u8, 0x1b],
            5,
        ) is Some,
        decoding(PacketKind::SetHumidifierNightlightParams, data) is Err ==> {
            let fault = layout_error(content(data), seq![0x33u8, 0x1b], 5)->Some_0;
            &&& decoding(PacketKind::SetHumidifierNightlightParams, data) == Err::<Packet, Error>(fault)
            &&& SetHumidifierNightlightParams::parsed(data) == Err::<SetHumidifierNightlightParams, Error>(fault)
        },
        decoding(PacketKind::SetHumidifierNightlightParams, data) == Ok::<Packet, Error>(Packet::SetHumidifierNightlight(value))
            ==> packet_for_sku("H7160"@, data) == Packet::SetHumidifierNightlight(value),
{
    law_layout_of_packet(data, seq![0x33u8, 0x1b], 5);
    law_products_of_types(PacketKind::SetHumidifierNightlightParams, "H7160"@);
    if decoding(PacketKind::SetHumidifierNightlightParams, data) is Ok {
        law_codec_decides("H7160"@, data, PacketKind::SetHumidifierNightlightParams);
    }
}

/// The frame for the speed of a fan: its bytes, zeros behind them, and the checksum.
pub proof fn law_bytes_of_set_fan_speed(value: SetH7105FanSpeed)
    ensures
        encoding(value.packet()) is Ok,
        frame(value.wire()) == encoding(value.packet())->Ok_0,
        ({
            let sent = encoding(value.packet())->Ok_0;
            &&& sent.len() == 20
            &&& sent[0] == 0x33
            &&& sent[1] == 0x05
            &&& sent[2] == 0x01
            &&& sent[3] == value.speed
            &&& forall|i: int| 4 <= i < 19 ==> sent[i] == 0
            &&& sent[19] == checksum(sent.take(19))
        }),
{
    law_finished_frame_is_valid(value.wire());
}

/// Received bytes are the speed of a fan exactly if they start as it does, hold
/// nothing but zeros behind its fields up to the last byte, and their fields say
/// the value. Else what is wrong with their layout is the answer.
pub proof fn law_reading_set_fan_speed(data: Seq<u8>, value: SetH7105FanSpeed)
    ensures
        decoding(PacketKind::SetH7105FanSpeed, data) == Ok::<Packet, Error>(Packet::SetH7105FanSpeed(value)) <==> {
            &&& data.len() > 4
            &&& data[0] == 0x33
            &&& data[1] == 0x05
            &&& data[2] == 0x01
            &&& data[3] == value.speed
            &&& forall|i: int| 4 <= i < data.len() - 1 ==> data[i] == 0
        },
        SetH7105FanSpeed::parsed(data) == Ok::<SetH7105FanSpeed, Error>(value) <==> decoding(
            PacketKind::SetH7105FanSpeed,
            data,
        ) == Ok::<Packet, Error>(Packet::SetH7105FanSpeed(value)),
        decoding(PacketKind::SetH7105FanSpeed, data) is Err <==> layout_error(
            content(data),
            seq![0x33u8, 0x05, 0x01],
            1,
        ) is Some,
        decoding(PacketKind::SetH7105FanSpeed, data) is Err ==> {
            let fault = layout_error(content(data), seq![0x33u8, 0x05, 0x01], 1)->Some_0;
            &&& decoding(PacketKind::SetH7105FanSpeed, data) == Err::<Packet, Error>(fault)
            &&& SetH7105FanSpeed::parsed(data) == Err::<SetH7105FanSpeed, Error>(fault)
        },
        decoding(PacketKind::SetH7105FanSpeed, data) == Ok::<Packet, Error>(Packet::SetH7105FanSpeed(value))
            ==> packet_for_sku("H7105"@, data) == Packet::SetH7105FanSpeed(value),
{
    law_layout_of_packet(data, seq![0x33u8, 0x05, 0x01], 1);
    law_products_of_types(PacketKind::SetH7105FanSpeed, "H7105"@);
    if decoding(PacketKind::SetH7105FanSpeed, data) is Ok {
        law_codec_decides("H7105"@, data, PacketKind::SetH7105FanSpeed);
    }
}

/// The frame for the switch of the night light of a fan: its bytes, zeros behind them, and the checksum.
pub proof fn law_bytes_of_set_nightlight_power(value: SetH7105NightlightPower)
    ensures
        encoding(value.packet()) is Ok,
        frame(value.wire()) == encoding(value.packet())->Ok_0,
        ({
            let sent = encoding(value.packet())->Ok_0;
            &&& sent.len() == 20
            &&& sent[0] == 0x3a
            &&& sent[1] == 0x1b
            &&& sent[2] == 0x01
            &&& sent[3] == 0x01
            &&& sent[4] == 1 <==> value.on
            &&& sent[4] == 0 <==> !value.on
            &&& forall|i: int| 5 <= i < 19 ==> sent[i] == 0
            &&& sent[19] == checksum(sent.take(19))
        }),
{
    law_finished_frame_is_valid(value.wire());
}

/// Received bytes are the switch of the night light of a fan exactly if they start as it does, hold
/// nothing but zeros behind its fields up to the last byte, and their fields say
/// the value. Else what is wrong with their layout is the answer.
pub proof fn law_reading_set_nightlight_power(data: Seq<u8>, value: SetH7105NightlightPower)
    ensures
        decoding(PacketKind::SetH7105NightlightPower, data) == Ok::<Packet, Error>(Packet::SetH7105NightlightPower(value)) <==> {
            &&& data.len() > 5
            &&& data[0] == 0x3a
            &&& data[1] == 0x1b
            &&& data[2] == 0x01
            &&& data[3] == 0x01
            &&& (data[4] != 0) == value.on
            &&& forall|i: int| 5 <= i < data.len() - 1 ==> data[i] == 0
        },
        SetH7105NightlightPower::parsed(data) == Ok::<SetH7105NightlightPower, Error>(value) <==> decoding(
            PacketKind::SetH7105NightlightPower,
            data,
        ) == Ok::<Packet, Error>(Packet::SetH7105NightlightPower(value)),
        decoding(PacketKind::SetH7105NightlightPower, data) is Err <==> layout_error(
            content(data),
            seq![0x3au8, 0x1b, 0x01, 0x01],
            1,
        ) is Some,
        decoding(PacketKind::SetH7105NightlightPower, data) is Err ==> {
            let fault = layout_error(content(data), seq![0x3au8, 0x1b, 0x01, 0x01], 1)->Some_0;
            &&& decoding(PacketKind::SetH7105NightlightPower, data) == Err::<Packet, Error>(fault)
            &&& SetH7105NightlightPower::parsed(data) == Err::<SetH7105NightlightPower, Error>(fault)
        },
        decoding(PacketKind::SetH7105NightlightPower, data) == Ok::<Packet, Error>(Packet::SetH7105NightlightPower(value))
            ==> packet_for_sku("H7105"@, data) == Packet::SetH7105NightlightPower(value),
{
    law_layout_of_packet(data, seq![0x3au8, 0x1b, 0x01, 0x01], 1);
    law_products_of_types(PacketKind::SetH7105NightlightPower, "H7105"@);
    if decoding(PacketKind::SetH7105NightlightPower, data) is Ok {
        law_codec_decides("H7105"@, data, PacketKind::SetH7105NightlightPower);
    }
}

/// The frame for the brightness of the night light of a fan: its bytes, zeros behind them, and the checksum.
pub proof fn law_bytes_of_set_nightlight_brightness(value: SetH7105NightlightBrightness)
    ensures
        encoding(value.packet()) is Ok,
        frame(value.wire()) == encoding(value.packet())->Ok_0,
        ({
            let sent = encoding(value.packet())->Ok_0;
            &&& sent.len() == 20
            &&& sent[0] == 0x3a
            &&& sent[1] == 0x1b
            &&& sent[2] == 0x01
            &&& sent[3] == 0x02
            &&& sent[4] == value.brightness
            &&& forall|i: int| 5 <= i < 19 ==> sent[i] == 0
            &&& sent[19] == checksum(sent.take(19))
        }),
{
    law_finished_frame_is_valid(value.wire());
}

/// Received bytes are the brightness of the night light of a fan exactly if they start as it does, hold
/// nothing but zeros behind its fields up to the last byte, and their fields say
/// the value. Else what is wrong with their layout is the answer.
pub proof fn law_reading_set_nightlight_brightness(data: Seq<u8>, value: SetH7105NightlightBrightness)
    ensures
        decoding(PacketKind::SetH7105NightlightBrightness, data) == Ok::<Packet, Error>(Packet::SetH7105NightlightBrightness(value)) <==> {
            &&& data.len() > 5
            &&& data[0] == 0x3a
            &&& data[1] == 0x1b
            &&& data[2] == 0x01
            &&& data[3] == 0x02
            &&& data[4] == value.brightness
            &&& forall|i: int| 5 <= i < data.len() - 1 ==> data[i] == 0
        },
        SetH7105NightlightBrightness::parsed(data) == Ok::<SetH7105NightlightBrightness, Error>(value) <==> decoding(
            PacketKind::SetH7105NightlightBrightness,
            data,
        ) == Ok::<Packet, Error>(Packet::SetH7105NightlightBrightness(value)),
        decoding(PacketKind::SetH7105NightlightBrightness, data) is Err <==> layout_error(
            content(data),
            seq![0x3au8, 0x1b, 0x01, 0x02],
            1,
        ) is Some,
        decoding(PacketKind::SetH7105NightlightBrightness, data) is Err ==> {
            let fault = layout_error(content(data), seq![0x3au8, 0x1b, 0x01, 0x02], 1)->Some_0;
            &&& decoding(PacketKind::SetH7105NightlightBrightness, data) == Err::<Packet, Error>(fault)
            &&& SetH7105NightlightBrightness::parsed(data) == Err::<SetH7105NightlightBrightness, Error>(fault)
        },
        decoding(PacketKind::SetH7105NightlightBrightness, data) == Ok::<Packet, Error>(Packet::SetH7105NightlightBrightness(value))
            ==> packet_for_sku("H7105"@, data) == Packet::SetH7105NightlightBrightness(value),
{
    law_layout_of_packet(data, seq![0x3au8, 0x1b, 0x01, 0x02], 1);
    law_products_of_types(PacketKind::SetH7105NightlightBrightness, "H7105"@);
    if decoding(PacketKind::SetH7105NightlightBrightness, data) is Ok {
        law_codec_decides("H7105"@, data, PacketKind::SetH7105NightlightBrightness);
    }
}

/// The frame for the colour of the night light of a fan: its bytes, zeros behind them, and the checksum.
pub proof fn law_bytes_of_set_nightlight_color(value: SetH7105NightlightColor)
    ensures
        encoding(value.packet()) is Ok,
        frame(value.wire()) == encoding(value.packet())->Ok_0,
        ({
            let sent = encoding(value.packet())->Ok_0;
            &&& sent.len() == 20
            &&& sent[0] == 0x3a
            &&& sent[1] == 0x1b
            &&& sent[2] == 0x05
            &&& sent[3] == 0x0d
            &&& sent[4] == value.r
            &&& sent[5] == value.g
            &&& sent[6] == value.b
            &&& forall|i: int| 7 <= i < 19 ==> sent[i] == 0
            &&& sent[19] == checksum(sent.take(19))
        }),
{
    law_finished_frame_is_valid(value.wire());
}

/// Received bytes are the colour of the night light of a fan exactly if they start as it does, hold
/// nothing but zeros behind its fields up to the last byte, and their fields say
/// the value. Else what is wrong with their layout is the answer.
pub proof fn law_reading_set_nightlight_color(data: Seq<u8>, value: SetH7105NightlightColor)
    ensures
        decoding(PacketKind::SetH7105NightlightColor, data) == Ok::<Packet, Error>(Packet::SetH7105NightlightColor(value)) <==> {
            &&& data.len() > 7
            &&& data[0] == 0x3a
            &&& data[1] == 0x1b
            &&& data[2] == 0x05
            &&& data[3] == 0x0d
            &&& data[4] == value.r
            &&& data[5] == value.g
            &&& data[6] == value.b
            &&& forall|i: int| 7 <= i < data.len() - 1 ==> data[i] == 0
        },
        SetH7105NightlightColor::parsed(data) == Ok::<SetH7105NightlightColor, Error>(value) <==> decoding(
            PacketKind::SetH7105NightlightColor,
            data,
        ) == Ok::<Packet, Error>(Packet::SetH7105NightlightColor(value)),
        decoding(PacketKind::SetH7105NightlightColor, data) is Err <==> layout_error(
            content(data),
            seq![0x3au8, 0x1b, 0x05, 0x0d],
            3,
        ) is Some,
        decoding(PacketKind::SetH7105NightlightColor, data) is Err ==> {
            let fault = layout_error(content(data), seq![0x3au8, 0x1b, 0x05, 0x0d], 3)->Some_0;
            &&& decoding(PacketKind::SetH7105NightlightColor, data) == Err::<Packet, Error>(fault)
            &&& SetH7105NightlightColor::parsed(data) == Err::<SetH7105NightlightColor, Error>(fault)
        },
        decoding(PacketKind::SetH7105NightlightColor, data) == Ok::<Packet, Error>(Packet::SetH7105NightlightColor(value))
            ==> packet_for_sku("H7105"@, data) == Packet::SetH7105NightlightColor(value),
{
    law_layout_of_packet(data, seq![0x3au8, 0x1b, 0x05, 0x0d], 3);
    law_products_of_types(PacketKind::SetH7105NightlightColor, "H7105"@);
    if decoding(PacketKind::SetH7105NightlightColor, data) is Ok {
        law_codec_decides("H7105"@, data, PacketKind::SetH7105NightlightColor);
    }
}

/// The frame for the night light that a fan tells: its bytes, zeros behind them, and the checksum.
pub proof fn law_bytes_of_notify_nightlight_state(value: NotifyH7105NightlightState)
    ensures
        encoding(value.packet()) is Ok,
        frame(value.wire()) == encoding(value.packet())->Ok_0,
        ({
            let sent = encoding(value.packet())->Ok_0;
            &&& sent.len() == 20
            &&& sent[0] == 0xaa
            &&& sent[1] == 0x1b
            &&& sent[2] == 0x01
            &&& sent[3] == 1 <==> value.on
            &&& sent[3] == 0 <==> !value.on
            &&& sent[4] == value.brightness
            &&& forall|i: int| 5 <= i < 19 ==> sent[i] == 0
            &&& sent[19] == checksum(sent.take(19))
        }),
{
    law_finished_frame_is_valid(value.wire());
}

/// Received bytes are the night light that a fan tells exactly if they start as it does, hold
/// nothing but zeros behind its fields up to the last byte, and their fields say
/// the value. Else what is wrong with their layout is the answer.
pub proof fn law_reading_notify_nightlight_state(data: Seq<u8>, value: NotifyH7105NightlightState)
    ensures
        decoding(PacketKind::NotifyH7105NightlightState, data) == Ok::<Packet, Error>(Packet::NotifyH7105NightlightState(value)) <==> {
            &&& data.len() > 5
            &&& data[0] == 0xaa
            &&& data[1] == 0x1b
            &&& data[2] == 0x01
            &&& (data[3] != 0) == value.on
            &&& data[4] == value.brightness
            &&& forall|i: int| 5 <= i < data.len() - 1 ==> data[i] == 0
        },
        NotifyH7105NightlightState::parsed(data) == Ok::<NotifyH7105NightlightState, Error>(value) <==> decoding(
            PacketKind::NotifyH7105NightlightState,
            data,
        ) == Ok::<Packet, Error>(Packet::NotifyH7105NightlightState(value)),
        decoding(PacketKind::NotifyH7105NightlightState, data) is Err <==> layout_error(
            content(data),
            seq![0xaau8, 0x1b, 0x01],
            2,
        ) is Some,
        decoding(PacketKind::NotifyH7105NightlightState, data) is Err ==> {
            let fault = layout_error(content(data), seq![0xaau8, 0x1b, 0x01], 2)->Some_0;
            &&& decoding(PacketKind::NotifyH7105NightlightState, data) == Err::<Packet, Error>(fault)
            &&& NotifyH7105NightlightState::parsed(data) == Err::<NotifyH7105NightlightState, Error>(fault)
        },
        decoding(PacketKind::NotifyH7105NightlightState, data) == Ok::<Packet, Error>(Packet::NotifyH7105NightlightState(value))
            ==> packet_for_sku("H7105"@, data) == Packet::NotifyH7105NightlightState(value),
{
    law_layout_of_packet(data, seq![0xaau8, 0x1b, 0x01], 2);
    law_products_of_types(PacketKind::NotifyH7105NightlightState, "H7105"@);
    if decoding(PacketKind::NotifyH7105NightlightState, data) is Ok {
        law_codec_decides("H7105"@, data, PacketKind::NotifyH7105NightlightState);
    }
}

/// The frame for the colour of the night light that a fan tells: its bytes, zeros behind them, and the checksum.
pub proof fn law_bytes_of_notify_nightlight_color(value: NotifyH7105NightlightColor)
    ensures
        encoding(value.packet()) is Ok,
        frame(value.wire()) == encoding(value.packet())->Ok_0,
        ({
            let sent = encoding(value.packet())->Ok_0;
            &&& sent.len() == 20
            &&& sent[0] == 0xaa
            &&& sent[1] == 0x1b
            &&& sent[2] == 0x05
            &&& sent[3] == 0x0d
            &&& sent[4] == value.r
            &&& sent[5] == value.g
            &&& sent[6] == value.b
            &&& forall|i: int| 7 <= i < 19 ==> sent[i] == 0
            &&& sent[19] == checksum(sent.take(19))
        }),
{
    law_finished_frame_is_valid(value.wire());
}

/// Received bytes are the colour of the night light that a fan tells exactly if they start as it does, hold
/// nothing but zeros behind its fields up to the last byte, and their fields say
/// the value. Else what is wrong with their layout is the answer.
pub proof fn law_reading_notify_nightlight_color(data: Seq<u8>, value: NotifyH7105NightlightColor)
    ensures
        decoding(PacketKind::NotifyH7105NightlightColor, data) == Ok::<Packet, Error>(Packet::NotifyH7105NightlightColor(value)) <==> {
            &&& data.len() > 7
            &&& data[0] == 0xaa
            &&& data[1] == 0x1b
            &&& data[2] == 0x05
            &&& data[3] == 0x0d
            &&& data[4] == value.r
            &&& data[5] == value.g
            &&& data[6] == value.b
            &&& forall|i: int| 7 <= i < data.len() - 1 ==> data[i] == 0
        },
        NotifyH7105NightlightColor::parsed(data) == Ok::<NotifyH7105NightlightColor, Error>(value) <==> decoding(
            PacketKind::NotifyH7105NightlightColor,
            data,
        ) == Ok::<Packet, Error>(Packet::NotifyH7105NightlightColor(value)),
        decoding(PacketKind::NotifyH7105NightlightColor, data) is Err <==> layout_error(
            content(data),
            seq![0xaau8, 0x1b, 0x05, 0x0d],
            3,
        ) is Some,
        decoding(PacketKind::NotifyH7105NightlightColor, data) is Err ==> {
            let fault = layout_error(content(data), seq![0xaau8, 0x1b, 0x05, 0x0d], 3)->Some_0;
            &&& decoding(PacketKind::NotifyH7105NightlightColor, data) == Err::<Packet, Error>(fault)
            &&& NotifyH7105NightlightColor::parsed(data) == Err::<NotifyH7105NightlightColor, Error>(fault)
        },
        decoding(PacketKind::NotifyH7105NightlightColor, data) == Ok::<Packet, Error>(Packet::NotifyH7105NightlightColor(value))
            ==> packet_for_sku("H7105"@, data) == Packet::NotifyH7105NightlightColor(value),
{
    law_layout_of_packet(data, seq![0xaau8, 0x1b, 0x05, 0x0d], 3);
    law_products_of_types(PacketKind::NotifyH7105NightlightColor, "H7105"@);
    if decoding(PacketKind::NotifyH7105NightlightColor, data) is Ok {
        law_codec_decides("H7105"@, data, PacketKind::NotifyH7105NightlightColor);
    }
}

/// The frame for the power switch of a light or a fan: its bytes, zeros behind them, and the checksum.
pub proof fn law_bytes_of_set_device_power(value: SetDevicePower)
    ensures
        encoding(value.packet()) is Ok,
        frame(value.wire()) == encoding(value.packet())->Ok_0,
        ({
            let sent = encoding(value.packet())->Ok_0;
            &&& sent.len() == 20
            &&& sent[0] == 0x33
            &&& sent[1] == 0x01
            &&& sent[2] == 1 <==> value.on
            &&& sent[2] == 0 <==> !value.on
            &&& forall|i: int| 3 <= i < 19 ==> sent[i] == 0
            &&& sent[19] == checksum(sent.take(19))
        }),
{
    law_finished_frame_is_valid(value.wire());
}

/// Received bytes are the power switch of a light or a fan exactly if they start as it does, hold
/// nothing but zeros behind its fields up to the last byte, and their fields say
/// the value. Else what is wrong with their layout is the answer.
pub proof fn law_reading_set_device_power(data: Seq<u8>, value: SetDevicePower)
    ensures
        decoding(PacketKind::SetDevicePower, data) == Ok::<Packet, Error>(Packet::SetDevicePower(value)) <==> {
            &&& data.len() > 3
            &&& data[0] == 0x33
            &&& data[1] == 0x01
            &&& (data[2] != 0) == value.on
            &&& forall|i: int| 3 <= i < data.len() - 1 ==> data[i] == 0
        },
        SetDevicePower::parsed(data) == Ok::<SetDevicePower, Error>(value) <==> decoding(
            PacketKind::SetDevicePower,
            data,
        ) == Ok::<Packet, Error>(Packet::SetDevicePower(value)),
        decoding(PacketKind::SetDevicePower, data) is Err <==> layout_error(
            content(data),
            seq![0x33u8, 0x01],
            1,
        ) is Some,
        decoding(PacketKind::SetDevicePower, data) is Err ==> {
            let fault = layout_error(content(data), seq![0x33u8, 0x01], 1)->Some_0;
            &&& decoding(PacketKind::SetDevicePower, data) == Err::<Packet, Error>(fault)
            &&& SetDevicePower::parsed(data) == Err::<SetDevicePower, Error>(fault)
        },
        decoding(PacketKind::SetDevicePower, data) == Ok::<Packet, Error>(Packet::SetDevicePower(value))
            ==> packet_for_sku("Generic:Light"@, data) == Packet::SetDevicePower(value),
        decoding(PacketKind::SetDevicePower, data) == Ok::<Packet, Error>(Packet::SetDevicePower(value))
            ==> packet_for_sku("H7105"@, data) == Packet::SetDevicePower(value),
{
    law_layout_of_packet(data, seq![0x33u8, 0x01], 1);
    law_products_of_types(PacketKind::SetDevicePower, "Generic:Light"@);
    if decoding(PacketKind::SetDevicePower, data) is Ok {
        law_codec_decides("Generic:Light"@, data, PacketKind::SetDevicePower);
    }
    law_products_of_types(PacketKind::SetDevicePower, "H7105"@);
    if decoding(PacketKind::SetDevicePower, data) is Ok {
        law_codec_decides("H7105"@, data, PacketKind::SetDevicePower);
    }
}

/// The frame for the mode of a fan: its bytes, zeros behind them, and the
/// checksum.
pub proof fn law_bytes_of_set_fan_mode(value: SetH7105FanMode)
    ensures
        encoding(value.packet()) is Ok,
        frame(value.wire()) == encoding(value.packet())->Ok_0,
        ({
            let sent = encoding(value.packet())->Ok_0;
            &&& sent.len() == 20
            &&& sent[0] == 0x33
            &&& sent[1] == 0x05
            &&& sent[2] == 0x00
            &&& sent[3] == value.mode.spec_code()
            &&& forall|i: int| 4 <= i < 19 ==> sent[i] == 0
            &&& sent[19] == checksum(sent.take(19))
        }),
{
    law_finished_frame_is_valid(value.wire());
}

/// The frame for the oscillation of a fan: its bytes, zeros behind them, and the
/// checksum.
pub proof fn law_bytes_of_set_oscillation(value: SetH7105Oscillation)
    ensures
        encoding(value.packet()) is Ok,
        frame(value.wire()) == encoding(value.packet())->Ok_0,
        ({
            let sent = encoding(value.packet())->Ok_0;
            &&& sent.len() == 20
            &&& sent[0] == 0x3a
            &&& sent[1] == 0x1d
            &&& sent[2] == 1 <==> value.oscillating
            &&& sent[2] == 0 <==> !value.oscillating
            &&& sent[3] == value.params[0]
            &&& sent[4] == value.params[1]
            &&& sent[5] == value.params[2]
            &&& sent[6] == value.params[3]
            &&& sent[7] == value.params[4]
            &&& forall|i: int| 8 <= i < 19 ==> sent[i] == 0
            &&& sent[19] == checksum(sent.take(19))
        }),
{
    law_finished_frame_is_valid(value.wire());
}

/// Received bytes are the speed that a fan tells exactly if they are a valid frame that
/// starts as it does and its bytes say the value. Else the first thing that is
/// wrong is the answer.
pub proof fn law_reading_notify_fan_speed(data: Seq<u8>, value: NotifyH7105FanSpeed)
    ensures
        decoding(PacketKind::NotifyH7105FanSpeed, data) == Ok::<Packet, Error>(Packet::NotifyH7105FanSpeed(value)) <==> {
            &&& data.len() == 20
            &&& data[0] == 0xaa
            &&& data[1] == 0x05
            &&& data[2] == 0x01
            &&& data[19] == checksum(data.take(19))
            &&& data[3] == value.speed
            &&& 1 <= value.speed <= 12
        },
        NotifyH7105FanSpeed::parsed(data) == Ok::<NotifyH7105FanSpeed, Error>(value) <==> decoding(PacketKind::NotifyH7105FanSpeed, data) == Ok::<Packet, Error>(
            Packet::NotifyH7105FanSpeed(value),
        ),
        NotifyH7105FanSpeed::parsed(data) is Err ==> decoding(PacketKind::NotifyH7105FanSpeed, data) == Err::<Packet, Error>(
            NotifyH7105FanSpeed::parsed(data)->Err_0,
        ),
        data.len() != 20 ==> NotifyH7105FanSpeed::parsed(data) == Err::<NotifyH7105FanSpeed, Error>(Error::H7105Length),
        data.len() == 20 && !(data[0] == 0xaa && data[1] == 0x05 && data[2] == 0x01) ==> NotifyH7105FanSpeed::parsed(data) == Err::<NotifyH7105FanSpeed, Error>(Error::NotFanSpeedNotification),
        data.len() == 20 && (data[0] == 0xaa && data[1] == 0x05 && data[2] == 0x01) && !(data[19] == checksum(data.take(19))) ==> NotifyH7105FanSpeed::parsed(data) == Err::<NotifyH7105FanSpeed, Error>(Error::Checksum),
        data.len() == 20 && (data[0] == 0xaa && data[1] == 0x05 && data[2] == 0x01) && (data[19] == checksum(data.take(19))) && !(1 <= data[3] <= 12) ==> NotifyH7105FanSpeed::parsed(data) == Err::<NotifyH7105FanSpeed, Error>(Error::InvalidFanSpeed),
        data.len() == 20 && (data[0] == 0xaa && data[1] == 0x05 && data[2] == 0x01) && (data[19] == checksum(data.take(19))) && (1 <= data[3] <= 12) ==> NotifyH7105FanSpeed::parsed(data) is Ok,
        decoding(PacketKind::NotifyH7105FanSpeed, data) == Ok::<Packet, Error>(Packet::NotifyH7105FanSpeed(value)) ==> packet_for_sku(
            "H7105"@,
            data,
        ) == Packet::NotifyH7105FanSpeed(value),
{
    law_products_of_types(PacketKind::NotifyH7105FanSpeed, "H7105"@);
    if decoding(PacketKind::NotifyH7105FanSpeed, data) is Ok {
        law_codec_decides("H7105"@, data, PacketKind::NotifyH7105FanSpeed);
    }
}

/// Received bytes are the mode of a fan exactly if they are a valid frame that
/// starts as it does and its bytes say the value. Else the first thing that is
/// wrong is the answer.
pub proof fn law_reading_set_fan_mode(data: Seq<u8>, value: SetH7105FanMode)
    ensures
        decoding(PacketKind::SetH7105FanMode, data) == Ok::<Packet, Error>(Packet::SetH7105FanMode(value)) <==> {
            &&& data.len() == 20
            &&& data[0] == 0x33
            &&& data[1] == 0x05
            &&& data[2] == 0x00
            &&& data[19] == checksum(data.take(19))
            &&& data[3] == value.mode.spec_code()
        },
        SetH7105FanMode::parsed(data) == Ok::<SetH7105FanMode, Error>(value) <==> decoding(PacketKind::SetH7105FanMode, data) == Ok::<Packet, Error>(
            Packet::SetH7105FanMode(value),
        ),
        SetH7105FanMode::parsed(data) is Err ==> decoding(PacketKind::SetH7105FanMode, data) == Err::<Packet, Error>(
            SetH7105FanMode::parsed(data)->Err_0,
        ),
        data.len() != 20 ==> SetH7105FanMode::parsed(data) == Err::<SetH7105FanMode, Error>(Error::H7105Length),
        data.len() == 20 && !(data[0] == 0x33 && data[1] == 0x05 && data[2] == 0x00) ==> SetH7105FanMode::parsed(data) == Err::<SetH7105FanMode, Error>(Error::NotFanModeCommand),
        data.len() == 20 && (data[0] == 0x33 && data[1] == 0x05 && data[2] == 0x00) && !(data[19] == checksum(data.take(19))) ==> SetH7105FanMode::parsed(data) == Err::<SetH7105FanMode, Error>(Error::Checksum),
        data.len() == 20 && (data[0] == 0x33 && data[1] == 0x05 && data[2] == 0x00) && (data[19] == checksum(data.take(19))) && !(1 <= data[3] <= 5) ==> SetH7105FanMode::parsed(data) == Err::<SetH7105FanMode, Error>(Error::UnknownFanMode(data[3])),
        data.len() == 20 && (data[0] == 0x33 && data[1] == 0x05 && data[2] == 0x00) && (data[19] == checksum(data.take(19))) && (1 <= data[3] <= 5) ==> SetH7105FanMode::parsed(data) is Ok,
        decoding(PacketKind::SetH7105FanMode, data) == Ok::<Packet, Error>(Packet::SetH7105FanMode(value)) ==> packet_for_sku(
            "H7105"@,
            data,
        ) == Packet::SetH7105FanMode(value),
{
    law_products_of_types(PacketKind::SetH7105FanMode, "H7105"@);
    if decoding(PacketKind::SetH7105FanMode, data) is Ok {
        law_codec_decides("H7105"@, data, PacketKind::SetH7105FanMode);
    }
}

/// Received bytes are the mode that a fan tells exactly if they are a valid frame that
/// starts as it does and its bytes say the value. Else the first thing that is
/// wrong is the answer.
pub proof fn law_reading_notify_fan_mode(data: Seq<u8>, value: NotifyH7105FanMode)
    ensures
        decoding(PacketKind::NotifyH7105FanMode, data) == Ok::<Packet, Error>(Packet::NotifyH7105FanMode(value)) <==> {
            &&& data.len() == 20
            &&& data[0] == 0xaa
            &&& data[1] == 0x05
            &&& data[2] == 0x00
            &&& data[19] == checksum(data.take(19))
            &&& data[3] == value.mode.spec_code()
        },
        NotifyH7105FanMode::parsed(data) == Ok::<NotifyH7105FanMode, Error>(value) <==> decoding(PacketKind::NotifyH7105FanMode, data) == Ok::<Packet, Error>(
            Packet::NotifyH7105FanMode(value),
        ),
        NotifyH7105FanMode::parsed(data) is Err ==> decoding(PacketKind::NotifyH7105FanMode, data) == Err::<Packet, Error>(
            NotifyH7105FanMode::parsed(data)->Err_0,
        ),
        data.len() != 20 ==> NotifyH7105FanMode::parsed(data) == Err::<NotifyH7105FanMode, Error>(Error::H7105Length),
        data.len() == 20 && !(data[0] == 0xaa && data[1] == 0x05 && data[2] == 0x00) ==> NotifyH7105FanMode::parsed(data) == Err::<NotifyH7105FanMode, Error>(Error::NotFanModeNotification),
        data.len() == 20 && (data[0] == 0xaa && data[1] == 0x05 && data[2] == 0x00) && !(data[19] == checksum(data.take(19))) ==> NotifyH7105FanMode::parsed(data) == Err::<NotifyH7105FanMode, Error>(Error::Checksum),
        data.len() == 20 && (data[0] == 0xaa && data[1] == 0x05 && data[2] == 0x00) && (data[19] == checksum(data.take(19))) && !(1 <= data[3] <= 5) ==> NotifyH7105FanMode::parsed(data) == Err::<NotifyH7105FanMode, Error>(Error::UnknownFanMode(data[3])),
        data.len() == 20 && (data[0] == 0xaa && data[1] == 0x05 && data[2] == 0x00) && (data[19] == checksum(data.take(19))) && (1 <= data[3] <= 5) ==> NotifyH7105FanMode::parsed(data) is Ok,
        decoding(PacketKind::NotifyH7105FanMode, data) == Ok::<Packet, Error>(Packet::NotifyH7105FanMode(value)) ==> packet_for_sku(
            "H7105"@,
            data,
        ) == Packet::NotifyH7105FanMode(value),
{
    law_products_of_types(PacketKind::NotifyH7105FanMode, "H7105"@);
    if decoding(PacketKind::NotifyH7105FanMode, data) is Ok {
        law_codec_decides("H7105"@, data, PacketKind::NotifyH7105FanMode);
    }
}

/// Received bytes are the oscillation of a fan exactly if they are a valid frame that
/// starts as it does and its bytes say the value. Else the first thing that is
/// wrong is the answer.
pub proof fn law_reading_set_oscillation(data: Seq<u8>, value: SetH7105Oscillation)
    ensures
        decoding(PacketKind::SetH7105Oscillation, data) == Ok::<Packet, Error>(Packet::SetH7105Oscillation(value)) <==> {
            &&& data.len() == 20
            &&& data[0] == 0x3a
            &&& data[1] == 0x1d
            &&& data[19] == checksum(data.take(19))
            &&& (data[2] == 1) == value.oscillating
            &&& data[2] <= 1
            &&& data[3] == value.params[0]
            &&& data[4] == value.params[1]
            &&& data[5] == value.params[2]
            &&& data[6] == value.params[3]
            &&& data[7] == value.params[4]
        },
        SetH7105Oscillation::parsed(data) == Ok::<SetH7105Oscillation, Error>(value) <==> decoding(PacketKind::SetH7105Oscillation, data) == Ok::<Packet, Error>(
            Packet::SetH7105Oscillation(value),
        ),
        SetH7105Oscillation::parsed(data) is Err ==> decoding(PacketKind::SetH7105Oscillation, data) == Err::<Packet, Error>(
            SetH7105Oscillation::parsed(data)->Err_0,
        ),
        data.len() != 20 ==> SetH7105Oscillation::parsed(data) == Err::<SetH7105Oscillation, Error>(Error::H7105Length),
        data.len() == 20 && !(data[0] == 0x3a && data[1] == 0x1d) ==> SetH7105Oscillation::parsed(data) == Err::<SetH7105Oscillation, Error>(Error::NotOscillationCommand),
        data.len() == 20 && (data[0] == 0x3a && data[1] == 0x1d) && !(data[2] <= 1) ==> SetH7105Oscillation::parsed(data) == Err::<SetH7105Oscillation, Error>(Error::InvalidOscillationValue),
        data.len() == 20 && (data[0] == 0x3a && data[1] == 0x1d) && (data[2] <= 1) && !(data[19] == checksum(data.take(19))) ==> SetH7105Oscillation::parsed(data) == Err::<SetH7105Oscillation, Error>(Error::Checksum),
        data.len() == 20 && (data[0] == 0x3a && data[1] == 0x1d) && (data[2] <= 1) && (data[19] == checksum(data.take(19))) ==> SetH7105Oscillation::parsed(data) is Ok,
        decoding(PacketKind::SetH7105Oscillation, data) == Ok::<Packet, Error>(Packet::SetH7105Oscillation(value)) ==> packet_for_sku(
            "H7105"@,
            data,
        ) == Packet::SetH7105Oscillation(value),
{
    law_products_of_types(PacketKind::SetH7105Oscillation, "H7105"@);
    if decoding(PacketKind::SetH7105Oscillation, data) is Ok {
        law_codec_decides("H7105"@, data, PacketKind::SetH7105Oscillation);
    }
    if data.len() == 20 {
        let params = [data[3], data[4], data[5], data[6], data[7]];
        if params[0] == value.params[0] && params[1] == value.params[1] && params[2]
            == value.params[2] && params[3] == value.params[3] && params[4] == value.params[4] {
            assert(params =~= value.params);
        }
    }
}

/// Received bytes are the oscillation that a fan tells exactly if they are a valid frame that
/// starts as it does and its bytes say the value. Else the first thing that is
/// wrong is the answer.
pub proof fn law_reading_notify_oscillation(data: Seq<u8>, value: NotifyH7105Oscillation)
    ensures
        decoding(PacketKind::NotifyH7105Oscillation, data) == Ok::<Packet, Error>(Packet::NotifyH7105Oscillation(value)) <==> {
            &&& data.len() == 20
            &&& data[0] == 0xaa
            &&& data[1] == 0x1d
            &&& data[19] == checksum(data.take(19))
            &&& (data[2] == 1) == value.oscillating
            &&& data[2] <= 1
            &&& data[3] == value.params[0]
            &&& data[4] == value.params[1]
            &&& data[5] == value.params[2]
            &&& data[6] == value.params[3]
            &&& data[7] == value.params[4]
        },
        NotifyH7105Oscillation::parsed(data) == Ok::<NotifyH7105Oscillation, Error>(value) <==> decoding(PacketKind::NotifyH7105Oscillation, data) == Ok::<Packet, Error>(
            Packet::NotifyH7105Oscillation(value),
        ),
        NotifyH7105Oscillation::parsed(data) is Err ==> decoding(PacketKind::NotifyH7105Oscillation, data) == Err::<Packet, Error>(
            NotifyH7105Oscillation::parsed(data)->Err_0,
        ),
        data.len() != 20 ==> NotifyH7105Oscillation::parsed(data) == Err::<NotifyH7105Oscillation, Error>(Error::H7105Length),
        data.len() == 20 && !(data[0] == 0xaa && data[1] == 0x1d && data[2] <= 1) ==> NotifyH7105Oscillation::parsed(data) == Err::<NotifyH7105Oscillation, Error>(Error::NotOscillationNotification),
        data.len() == 20 && (data[0] == 0xaa && data[1] == 0x1d && data[2] <= 1) && !(data[19] == checksum(data.take(19))) ==> NotifyH7105Oscillation::parsed(data) == Err::<NotifyH7105Oscillation, Error>(Error::Checksum),
        data.len() == 20 && (data[0] == 0xaa && data[1] == 0x1d && data[2] <= 1) && (data[19] == checksum(data.take(19))) ==> NotifyH7105Oscillation::parsed(data) is Ok,
        decoding(PacketKind::NotifyH7105Oscillation, data) == Ok::<Packet, Error>(Packet::NotifyH7105Oscillation(value)) ==> packet_for_sku(
            "H7105"@,
            data,
        ) == Packet::NotifyH7105Oscillation(value),
{
    law_products_of_types(PacketKind::NotifyH7105Oscillation, "H7105"@);
    if decoding(PacketKind::NotifyH7105Oscillation, data) is Ok {
        law_codec_decides("H7105"@, data, PacketKind::NotifyH7105Oscillation);
    }
    if data.len() == 20 {
        let params = [data[3], data[4], data[5], data[6], data[7]];
        if params[0] == value.params[0] && params[1] == value.params[1] && params[2]
            == value.params[2] && params[3] == value.params[3] && params[4] == value.params[4] {
            assert(params =~= value.params);
        }
    }
}

/// Received bytes are a power reading exactly if they are a valid frame that
/// starts as it does and its bytes say the value. Else the first thing that is
/// wrong is the answer.
pub proof fn law_reading_power_reading(data: Seq<u8>, value: H5086PowerReading)
    ensures
        decoding(PacketKind::H5086PowerReading, data) == Ok::<Packet, Error>(Packet::H5086PowerReading(value)) <==> {
            &&& data.len() == 20
            &&& (data[0] == 0xaa || data[0] == 0xee)
            &&& data[1] == 0x19
            &&& data[19] == checksum(data.take(19))
            &&& value.powered_on_seconds == 65536 * data[2] + 256 * data[3] + data[4]
            &&& value.energy_deci_watt_hours == 65536 * data[5] + 256 * data[6] + data[7]
            &&& value.voltage_centivolts == 256 * data[8] + data[9]
            &&& value.current_centi_amps == 256 * data[10] + data[11]
            &&& value.power_centi_watts == 65536 * data[12] + 256 * data[13] + data[14]
            &&& value.power_factor_percent == data[15]
        },
        H5086PowerReading::parsed(data) == Ok::<H5086PowerReading, Error>(value) <==> decoding(PacketKind::H5086PowerReading, data) == Ok::<Packet, Error>(
            Packet::H5086PowerReading(value),
        ),
        H5086PowerReading::parsed(data) is Err ==> decoding(PacketKind::H5086PowerReading, data) == Err::<Packet, Error>(
            H5086PowerReading::parsed(data)->Err_0,
        ),
        data.len() != 20 ==> H5086PowerReading::parsed(data) == Err::<H5086PowerReading, Error>(Error::H5086Length),
        data.len() == 20 && !((data[0] == 0xaa || data[0] == 0xee) && data[1] == 0x19) ==> H5086PowerReading::parsed(data) == Err::<H5086PowerReading, Error>(Error::NotH5086PowerReading),
        data.len() == 20 && ((data[0] == 0xaa || data[0] == 0xee) && data[1] == 0x19) && !(data[19] == checksum(data.take(19))) ==> H5086PowerReading::parsed(data) == Err::<H5086PowerReading, Error>(Error::H5086Checksum),
        data.len() == 20 && ((data[0] == 0xaa || data[0] == 0xee) && data[1] == 0x19) && (data[19] == checksum(data.take(19))) ==> H5086PowerReading::parsed(data) is Ok,
        decoding(PacketKind::H5086PowerReading, data) == Ok::<Packet, Error>(Packet::H5086PowerReading(value)) ==> packet_for_sku(
            "H5086"@,
            data,
        ) == Packet::H5086PowerReading(value),
{
    law_products_of_types(PacketKind::H5086PowerReading, "H5086"@);
    if decoding(PacketKind::H5086PowerReading, data) is Ok {
        law_codec_decides("H5086"@, data, PacketKind::H5086PowerReading);
    }
}

/// A number below two to the power of 24 has three digits in base 256.
proof fn lemma_digits(n: int, high: u8, middle: u8, low: u8)
    requires
        n == 65536 * high + 256 * middle + low,
    ensures
        n / 65536 == high,
        n / 256 % 256 == middle,
        n % 256 == low,
        high == 0 ==> n / 256 == middle,
{
}

/// A reading determines the bytes that it was read from: they are the digits of
/// its numbers in base 256, the highest in front.
pub proof fn law_reading_determines_bytes(data: Seq<u8>, value: H5086PowerReading)
    requires
        decoding(PacketKind::H5086PowerReading, data) == Ok::<Packet, Error>(
            Packet::H5086PowerReading(value),
        ),
    ensures
        value.powered_on_seconds / 65536 == data[2],
        value.powered_on_seconds / 256 % 256 == data[3],
        value.powered_on_seconds % 256 == data[4],
        value.energy_deci_watt_hours / 65536 == data[5],
        value.energy_deci_watt_hours / 256 % 256 == data[6],
        value.energy_deci_watt_hours % 256 == data[7],
        value.voltage_centivolts / 256 == data[8],
        value.voltage_centivolts % 256 == data[9],
        value.current_centi_amps / 256 == data[10],
        value.current_centi_amps % 256 == data[11],
        value.power_centi_watts / 65536 == data[12],
        value.power_centi_watts / 256 % 256 == data[13],
        value.power_centi_watts % 256 == data[14],
        value.power_factor_percent == data[15],
{
    law_reading_power_reading(data, value);
    lemma_digits(value.powered_on_seconds as int, data[2], data[3], data[4]);
    lemma_digits(value.energy_deci_watt_hours as int, data[5], data[6], data[7]);
    lemma_digits(value.voltage_centivolts as int, 0, data[8], data[9]);
    lemma_digits(value.current_centi_amps as int, 0, data[10], data[11]);
    lemma_digits(value.power_centi_watts as int, data[12], data[13], data[14]);
}

/// A fan that tells its oscillation is understood: the frame with the switch and
/// the five parameters is read as just that.
pub proof fn law_told_oscillation_is_understood(on: bool, params: [u8; 5])
    ensures
        packet_for_sku(
            "H7105"@,
            frame(
                seq![
                    0xaau8,
                    0x1d,
                    if on {
                        1
                    } else {
                        0
                    },
                    params[0],
                    params[1],
                    params[2],
                    params[3],
                    params[4],
                ],
            ),
        ) == Packet::NotifyH7105Oscillation(NotifyH7105Oscillation { oscillating: on, params }),
{
    let switch: u8 = if on {
        1
    } else {
        0
    };
    let told = seq![
        0xaau8,
        0x1d,
        switch,
        params[0],
        params[1],
        params[2],
        params[3],
        params[4],
    ];
    law_finished_frame_is_valid(told);
    law_reading_notify_oscillation(
        frame(told),
        NotifyH7105Oscillation { oscillating: on, params },
    );
}

/// A fan that tells one of its twelve speeds is understood, whatever follows the
/// speed.
pub proof fn law_told_speed_is_understood(speed: u8, rest: Seq<u8>)
    requires
        1 <= speed <= 12,
        rest.len() <= 15,
    ensures
        packet_for_sku("H7105"@, frame(seq![0xaau8, 0x05, 0x01, speed] + rest))
            == Packet::NotifyH7105FanSpeed(NotifyH7105FanSpeed { speed }),
{
    let told = seq![0xaau8, 0x05, 0x01, speed] + rest;
    law_finished_frame_is_valid(told);
    law_reading_notify_fan_speed(frame(told), NotifyH7105FanSpeed { speed });
}

/// A fan that tells its mode is understood.
pub proof fn law_told_mode_is_understood(told: NotifyH7105FanMode)
    ensures
        packet_for_sku("H7105"@, frame(seq![0xaau8, 0x05, 0x00, told.mode.spec_code()]))
            == Packet::NotifyH7105FanMode(told),
{
    let bytes = seq![0xaau8, 0x05, 0x00, told.mode.spec_code()];
    law_finished_frame_is_valid(bytes);
    law_reading_notify_fan_mode(frame(bytes), told);
}

/// What only devices tell is refused by the name of its type.
pub proof fn law_told_values_are_refused(
    reading: H5086PowerReading,
    speed: NotifyH7105FanSpeed,
    mode: NotifyH7105FanMode,
    oscillation: NotifyH7105Oscillation,
)
    ensures
        encoding(reading.packet()) == Err::<Seq<u8>, Error>(
            Error::DeviceNotification(PacketKind::H5086PowerReading),
        ),
        encoding(speed.packet()) == Err::<Seq<u8>, Error>(
            Error::DeviceNotification(PacketKind::NotifyH7105FanSpeed),
        ),
        encoding(mode.packet()) == Err::<Seq<u8>, Error>(
            Error::DeviceNotification(PacketKind::NotifyH7105FanMode),
        ),
        encoding(oscillation.packet()) == Err::<Seq<u8>, Error>(
            Error::DeviceNotification(PacketKind::NotifyH7105Oscillation),
        ),
{
}

/// A scene is sent as its code and text say, if it fits, and never read.
pub proof fn law_scene_values(scene: SetSceneCode, data: Seq<u8>)
    ensures
        scene.packet() == Packet::SetSceneCode(scene.spec_code(), scene.spec_param()),
        SetSceneCode::spec_kind() == PacketKind::SetSceneCode,
        kind_of(scene.packet()) == Some(PacketKind::SetSceneCode),
        GoveeBlePacket::SetSceneCode(scene)@ == scene.packet(),
        encoding(scene.packet()) == scene_encoding(scene.spec_code(), scene.spec_param()),
        encodable(scene.packet()) <==> scene_fits(scene.spec_param()),
        decoding(PacketKind::SetSceneCode, data) == Err::<Packet, Error>(
            Error::SceneDecodeNotImplemented,
        ),
{
}

/// A packet carries a value of this type unchanged.
pub proof fn law_carrying_set_humidifier_mode(value: SetHumidifierMode)
    ensures
        value.packet() == Packet::SetHumidifierMode(value),
        GoveeBlePacket::SetHumidifierMode(value)@ == Packet::SetHumidifierMode(value),
        SetHumidifierMode::spec_kind() == PacketKind::SetHumidifierMode,
        kind_of(Packet::SetHumidifierMode(value)) == Some(PacketKind::SetHumidifierMode),
        encodable(value.packet()),
{
}

/// A packet carries a value of this type unchanged.
pub proof fn law_carrying_notify_humidifier_mode(value: NotifyHumidifierMode)
    ensures
        value.packet() == Packet::NotifyHumidifierMode(value),
        GoveeBlePacket::NotifyHumidifierMode(value)@ == Packet::NotifyHumidifierMode(value),
        NotifyHumidifierMode::spec_kind() == PacketKind::NotifyHumidifierMode,
        kind_of(Packet::NotifyHumidifierMode(value)) == Some(PacketKind::NotifyHumidifierMode),
        encodable(value.packet()),
{
}

/// A packet carries a value of this type unchanged.
pub proof fn law_carrying_humidifier_auto_mode(value: HumidifierAutoMode)
    ensures
        value.packet() == Packet::NotifyHumidifierAutoMode(value),
        GoveeBlePacket::NotifyHumidifierAutoMode(value)@ == Packet::NotifyHumidifierAutoMode(value),
        HumidifierAutoMode::spec_kind() == PacketKind::HumidifierAutoMode,
        kind_of(Packet::NotifyHumidifierAutoMode(value)) == Some(PacketKind::HumidifierAutoMode),
        encodable(value.packet()),
{
}

/// A packet carries a value of this type unchanged.
pub proof fn law_carrying_notify_humidifier_nightlight(value: NotifyHumidifierNightlightParams)
    ensures
        value.packet() == Packet::NotifyHumidifierNightlight(value),
        GoveeBlePacket::NotifyHumidifierNightlight(value)@ == Packet::NotifyHumidifierNightlight(value),
        NotifyHumidifierNightlightParams::spec_kind() == PacketKind::NotifyHumidifierNightlightParams,
        kind_of(Packet::NotifyHumidifierNightlight(value)) == Some(PacketKind::NotifyHumidifierNightlightParams),
        encodable(value.packet()),
{
}

/// A packet carries a value of this type unchanged.
pub proof fn law_carrying_set_humidifier_nightlight(value: SetHumidifierNightlightParams)
    ensures
        value.packet() == Packet::SetHumidifierNightlight(value),
        GoveeBlePacket::SetHumidifierNightlight(value)@ == Packet::SetHumidifierNightlight(value),
        SetHumidifierNightlightParams::spec_kind() == PacketKind::SetHumidifierNightlightParams,
        kind_of(Packet::SetHumidifierNightlight(value)) == Some(PacketKind::SetHumidifierNightlightParams),
        encodable(value.packet()),
{
}

/// A packet carries a value of this type unchanged.
pub proof fn law_carrying_set_fan_speed(value: SetH7105FanSpeed)
    ensures
        value.packet() == Packet::SetH7105FanSpeed(value),
        GoveeBlePacket::SetH7105FanSpeed(value)@ == Packet::SetH7105FanSpeed(value),
        SetH7105FanSpeed::spec_kind() == PacketKind::SetH7105FanSpeed,
        kind_of(Packet::SetH7105FanSpeed(value)) == Some(PacketKind::SetH7105FanSpeed),
        encodable(value.packet()),
{
}

/// A packet carries a value of this type unchanged.
pub proof fn law_carrying_set_nightlight_power(value: SetH7105NightlightPower)
    ensures
        value.packet() == Packet::SetH7105NightlightPower(value),
        GoveeBlePacket::SetH7105NightlightPower(value)@ == Packet::SetH7105NightlightPower(value),
        SetH7105NightlightPower::spec_kind() == PacketKind::SetH7105NightlightPower,
        kind_of(Packet::SetH7105NightlightPower(value)) == Some(PacketKind::SetH7105NightlightPower),
        encodable(value.packet()),
{
}

/// A packet carries a value of this type unchanged.
pub proof fn law_carrying_set_nightlight_brightness(value: SetH7105NightlightBrightness)
    ensures
        value.packet() == Packet::SetH7105NightlightBrightness(value),
        GoveeBlePacket::SetH7105NightlightBrightness(value)@ == Packet::SetH7105NightlightBrightness(value),
        SetH7105NightlightBrightness::spec_kind() == PacketKind::SetH7105NightlightBrightness,
        kind_of(Packet::SetH7105NightlightBrightness(value)) == Some(PacketKind::SetH7105NightlightBrightness),
        encodable(value.packet()),
{
}

/// A packet carries a value of this type unchanged.
pub proof fn law_carrying_set_nightlight_color(value: SetH7105NightlightColor)
    ensures
        value.packet() == Packet::SetH7105NightlightColor(value),
        GoveeBlePacket::SetH7105NightlightColor(value)@ == Packet::SetH7105NightlightColor(value),
        SetH7105NightlightColor::spec_kind() == PacketKind::SetH7105NightlightColor,
        kind_of(Packet::SetH7105NightlightColor(value)) == Some(PacketKind::SetH7105NightlightColor),
        encodable(value.packet()),
{
}

/// A packet carries a value of this type unchanged.
pub proof fn law_carrying_notify_nightlight_state(value: NotifyH7105NightlightState)
    ensures
        value.packet() == Packet::NotifyH7105NightlightState(value),
        GoveeBlePacket::NotifyH7105NightlightState(value)@ == Packet::NotifyH7105NightlightState(value),
        NotifyH7105NightlightState::spec_kind() == PacketKind::NotifyH7105NightlightState,
        kind_of(Packet::NotifyH7105NightlightState(value)) == Some(PacketKind::NotifyH7105NightlightState),
        encodable(value.packet()),
{
}

/// A packet carries a value of this type unchanged.
pub proof fn law_carrying_notify_nightlight_color(value: NotifyH7105NightlightColor)
    ensures
        value.packet() == Packet::NotifyH7105NightlightColor(value),
        GoveeBlePacket::NotifyH7105NightlightColor(value)@ == Packet::NotifyH7105NightlightColor(value),
        NotifyH7105NightlightColor::spec_kind() == PacketKind::NotifyH7105NightlightColor,
        kind_of(Packet::NotifyH7105NightlightColor(value)) == Some(PacketKind::NotifyH7105NightlightColor),
        encodable(value.packet()),
{
}

/// A packet carries a value of this type unchanged.
pub proof fn law_carrying_set_device_power(value: SetDevicePower)
    ensures
        value.packet() == Packet::SetDevicePower(value),
        GoveeBlePacket::SetDevicePower(value)@ == Packet::SetDevicePower(value),
        SetDevicePower::spec_kind() == PacketKind::SetDevicePower,
        kind_of(Packet::SetDevicePower(value)) == Some(PacketKind::SetDevicePower),
        encodable(value.packet()),
{
}

/// A packet carries a value of this type unchanged.
pub proof fn law_carrying_set_fan_mode(value: SetH7105FanMode)
    ensures
        value.packet() == Packet::SetH7105FanMode(value),
        GoveeBlePacket::SetH7105FanMode(value)@ == Packet::SetH7105FanMode(value),
        SetH7105FanMode::spec_kind() == PacketKind::SetH7105FanMode,
        kind_of(Packet::SetH7105FanMode(value)) == Some(PacketKind::SetH7105FanMode),
        encodable(value.packet()),
{
}

/// A packet carries a value of this type unchanged.
pub proof fn law_carrying_notify_fan_speed(value: NotifyH7105FanSpeed)
    ensures
        value.packet() == Packet::NotifyH7105FanSpeed(value),
        GoveeBlePacket::NotifyH7105FanSpeed(value)@ == Packet::NotifyH7105FanSpeed(value),
        NotifyH7105FanSpeed::spec_kind() == PacketKind::NotifyH7105FanSpeed,
        kind_of(Packet::NotifyH7105FanSpeed(value)) == Some(PacketKind::NotifyH7105FanSpeed),
        encodable(value.packet()),
{
}

/// A packet carries a value of this type unchanged.
pub proof fn law_carrying_notify_fan_mode(value: NotifyH7105FanMode)
    ensures
        value.packet() == Packet::NotifyH7105FanMode(value),
        GoveeBlePacket::NotifyH7105FanMode(value)@ == Packet::NotifyH7105FanMode(value),
        NotifyH7105FanMode::spec_kind() == PacketKind::NotifyH7105FanMode,
        kind_of(Packet::NotifyH7105FanMode(value)) == Some(PacketKind::NotifyH7105FanMode),
        encodable(value.packet()),
{
}

/// A packet carries a value of this type unchanged.
pub proof fn law_carrying_set_oscillation(value: SetH7105Oscillation)
    ensures
        value.packet() == Packet::SetH7105Oscillation(value),
        GoveeBlePacket::SetH7105Oscillation(value)@ == Packet::SetH7105Oscillation(value),
        SetH7105Oscillation::spec_kind() == PacketKind::SetH7105Oscillation,
        kind_of(Packet::SetH7105Oscillation(value)) == Some(PacketKind::SetH7105Oscillation),
        encodable(value.packet()),
{
}

/// A packet carries a value of this type unchanged.
pub proof fn law_carrying_notify_oscillation(value: NotifyH7105Oscillation)
    ensures
        value.packet() == Packet::NotifyH7105Oscillation(value),
        GoveeBlePacket::NotifyH7105Oscillation(value)@ == Packet::NotifyH7105Oscillation(value),
        NotifyH7105Oscillation::spec_kind() == PacketKind::NotifyH7105Oscillation,
        kind_of(Packet::NotifyH7105Oscillation(value)) == Some(PacketKind::NotifyH7105Oscillation),
        encodable(value.packet()),
{
}

/// A packet carries a value of this type unchanged.
pub proof fn law_carrying_power_reading(value: H5086PowerReading)
    ensures
        value.packet() == Packet::H5086PowerReading(value),
        GoveeBlePacket::H5086PowerReading(value)@ == Packet::H5086PowerReading(value),
        H5086PowerReading::spec_kind() == PacketKind::H5086PowerReading,
        kind_of(Packet::H5086PowerReading(value)) == Some(PacketKind::H5086PowerReading),
        encodable(value.packet()),
{
}

/// What the answer to encoding or decoding says: the bytes or the packet where
/// there are some, and else the very fault.
pub proof fn law_answers(
    sent: Result<Vec<u8>, Error>,
    bytes: Result<Seq<u8>, Error>,
    read: Result<GoveeBlePacket, Error>,
    packet: Result<Packet, Error>,
)
    ensures
        encoded_as(sent, bytes) ==> (sent is Ok <==> bytes is Ok),
        encoded_as(sent, bytes) && sent is Ok ==> sent->Ok_0@ == bytes->Ok_0,
        encoded_as(sent, bytes) && sent is Err ==> sent->Err_0 == bytes->Err_0,
        decoded_as(read, packet) ==> (read is Ok <==> packet is Ok),
        decoded_as(read, packet) && read is Ok ==> read->Ok_0@ == packet->Ok_0,
        decoded_as(read, packet) && read is Err ==> read->Err_0 == packet->Err_0,
{
}

/// What the answer to encoding a value for a product says: where the product
/// understands the value, what the value is sent as, and else that the product
/// has no codec for the type of the value, by the names of both.
pub proof fn law_answers_of_products(
    sent: Result<Vec<u8>, Error>,
    sku: Seq<char>,
    kind: PacketKind,
    packet: Packet,
)
    requires
        encoded_for_sku(sent, sku, kind, packet),
    ensures
        registered(kind, sku) ==> encoded_as(sent, encoding(packet)),
        !registered(kind, sku) ==> {
            &&& sent is Err
            &&& sent->Err_0 is NoCodec
            &&& sent->Err_0->NoCodec_sku@ == sku
            &&& sent->Err_0->NoCodec_kind == kind
        },
{
}

/// That a product has no codec is said by its name and the type of the value.
pub proof fn law_missing_codec<T>(answer: Result<T, Error>, sku: Seq<char>, kind: PacketKind)
    ensures
        no_codec(answer, sku, kind) <==> {
            &&& answer is Err
            &&& answer->Err_0 is NoCodec
            &&& answer->Err_0->NoCodec_sku@ == sku
            &&& answer->Err_0->NoCodec_kind == kind
        },
{
}

/// Bytes that are kept as they are carry no value.
pub proof fn law_raw_bytes(bytes: crate::bytes::HexBytes)
    ensures
        GoveeBlePacket::Generic(bytes)@ == Packet::Generic(bytes@),
        kind_of(Packet::Generic(bytes@)) is None,
        !encodable(Packet::Generic(bytes@)),
{
}

} // verus!
