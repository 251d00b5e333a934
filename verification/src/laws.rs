//! What holds of packets of every type and of every product.

use crate::error::Error;
use crate::frame::{frame, is_frame, law_finished_frame_is_valid};
use crate::kind::PacketKind;
use crate::manager::{law_codec_decides, packet_for_sku, registered};
use crate::packet::{decoding, encoding, kind_of, Packet};
use crate::param::{content, layout_error, lemma_frame_has_layout};
use crate::scene::law_scene_command_is_frames;
use vstd::prelude::*;

verus! {

/// Whether `bytes` are frames, one behind the other.
pub open spec fn are_frames(bytes: Seq<u8>) -> bool {
    &&& bytes.len() % 20 == 0
    &&& forall|i: int|
        #![trigger bytes.subrange(20 * i, 20 * i + 20)]
        0 <= i < bytes.len() / 20 ==> is_frame(bytes.subrange(20 * i, 20 * i + 20))
}

/// A frame around content that starts with `prefix` has the layout, and holds
/// the content.
proof fn lemma_fields(wire: Seq<u8>, prefix: Seq<u8>)
    requires
        prefix.len() <= wire.len() <= 19,
        forall|i: int| 0 <= i < prefix.len() ==> wire[i] == prefix[i],
    ensures
        layout_error(
            content(frame(wire)),
            prefix,
            (wire.len() - prefix.len()) as nat,
        ) is None,
        forall|i: int| 0 <= i < wire.len() ==> frame(wire)[i] == wire[i],
{
    let fields = wire.skip(prefix.len() as int);
    assert(prefix + fields =~= wire);
    lemma_frame_has_layout(prefix, fields);
}

/// What is sent is read back: the codec for the type of a value decodes the
/// bytes that the value is encoded into as that very value. Scene commands,
/// which are only sent, are the one exception.
#[verifier::rlimit(40)]
pub proof fn law_encoding_round_trip(packet: Packet)
    requires
        !(packet is Generic),
        !(packet is SetSceneCode),
        encoding(packet) is Ok,
    ensures
        decoding(kind_of(packet)->Some_0, encoding(packet)->Ok_0) == Ok::<Packet, Error>(packet),
{
    match packet {
        Packet::SetH7105FanSpeed(v) => {
            lemma_fields(v.wire(), seq![0x33u8, 0x05, 0x01]);
        },
        Packet::SetH7105FanMode(v) => {
            law_finished_frame_is_valid(v.wire());
        },
        Packet::SetH7105NightlightPower(v) => {
            lemma_fields(v.wire(), seq![0x3au8, 0x1b, 0x01, 0x01]);
        },
        Packet::SetH7105NightlightBrightness(v) => {
            lemma_fields(v.wire(), seq![0x3au8, 0x1b, 0x01, 0x02]);
        },
        Packet::SetH7105NightlightColor(v) => {
            lemma_fields(v.wire(), seq![0x3au8, 0x1b, 0x05, 0x0d]);
        },
        Packet::NotifyH7105NightlightState(v) => {
            lemma_fields(v.wire(), seq![0xaau8, 0x1b, 0x01]);
        },
        Packet::NotifyH7105NightlightColor(v) => {
            lemma_fields(v.wire(), seq![0xaau8, 0x1b, 0x05, 0x0d]);
        },
        Packet::SetH7105Oscillation(v) => {
            law_finished_frame_is_valid(v.wire());
            let data = frame(v.wire());
            assert([data[3], data[4], data[5], data[6], data[7]] =~= v.params);
        },
        Packet::SetDevicePower(v) => {
            lemma_fields(v.wire(), seq![0x33u8, 0x01]);
        },
        Packet::SetHumidifierNightlight(v) => {
            lemma_fields(v.wire(), seq![0x33u8, 0x1b]);
        },
        Packet::NotifyHumidifierMode(v) => {
            lemma_fields(v.wire(), seq![0xaau8, 0x05, 0x00]);
        },
        Packet::SetHumidifierMode(v) => {
            lemma_fields(v.wire(), seq![0x33u8, 0x05]);
        },
        Packet::NotifyHumidifierAutoMode(v) => {
            lemma_fields(v.wire(), seq![0xaau8, 0x05, 0x03]);
            v.target_humidity.lemma_byte(0);
        },
        Packet::NotifyHumidifierNightlight(v) => {
            lemma_fields(v.wire(), seq![0xaau8, 0x1b]);
        },
        _ => {},
    }
}

/// A product that understands a value decodes what was encoded for it as that
/// value: no other codec of the product takes it for something else.
pub proof fn law_product_round_trip(sku: Seq<char>, packet: Packet)
    requires
        !(packet is Generic),
        !(packet is SetSceneCode),
        registered(kind_of(packet)->Some_0, sku),
        encoding(packet) is Ok,
    ensures
        packet_for_sku(sku, encoding(packet)->Ok_0) == packet,
{
    law_encoding_round_trip(packet);
    law_codec_decides(sku, encoding(packet)->Ok_0, kind_of(packet)->Some_0);
}

/// What is sent are valid frames, one behind the other.
pub proof fn law_encoding_is_frames(packet: Packet)
    requires
        !(packet is Generic),
        encoding(packet) is Ok,
    ensures
        are_frames(encoding(packet)->Ok_0),
{
    let bytes = encoding(packet)->Ok_0;
    match packet {
        Packet::SetSceneCode(code, param) => {
            law_scene_command_is_frames(code, crate::base64::base64_bytes(param)->Ok_0);
        },
        Packet::SetH7105FanSpeed(v) => law_finished_frame_is_valid(v.wire()),
        Packet::SetH7105FanMode(v) => law_finished_frame_is_valid(v.wire()),
        Packet::SetH7105NightlightPower(v) => law_finished_frame_is_valid(v.wire()),
        Packet::SetH7105NightlightBrightness(v) => law_finished_frame_is_valid(v.wire()),
        Packet::SetH7105NightlightColor(v) => law_finished_frame_is_valid(v.wire()),
        Packet::NotifyH7105NightlightState(v) => law_finished_frame_is_valid(v.wire()),
        Packet::NotifyH7105NightlightColor(v) => law_finished_frame_is_valid(v.wire()),
        Packet::SetH7105Oscillation(v) => law_finished_frame_is_valid(v.wire()),
        Packet::SetDevicePower(v) => law_finished_frame_is_valid(v.wire()),
        Packet::SetHumidifierNightlight(v) => law_finished_frame_is_valid(v.wire()),
        Packet::NotifyHumidifierMode(v) => law_finished_frame_is_valid(v.wire()),
        Packet::SetHumidifierMode(v) => law_finished_frame_is_valid(v.wire()),
        Packet::NotifyHumidifierAutoMode(v) => law_finished_frame_is_valid(v.wire()),
        Packet::NotifyHumidifierNightlight(v) => law_finished_frame_is_valid(v.wire()),
        _ => {},
    }
    if !(packet is SetSceneCode) {
        assert(bytes.subrange(0, 20) =~= bytes);
    }
}

/// Whether the codec for `kind` looks at the checksum of a packet.
pub open spec fn checks_checksum(kind: PacketKind) -> bool {
    match kind {
        PacketKind::H5086PowerReading => true,
        PacketKind::NotifyH7105FanSpeed => true,
        PacketKind::SetH7105FanMode => true,
        PacketKind::NotifyH7105FanMode => true,
        PacketKind::SetH7105Oscillation => true,
        PacketKind::NotifyH7105Oscillation => true,
        _ => false,
    }
}

/// A codec that looks at the checksum understands nothing but valid frames.
pub proof fn law_checked_packets_are_frames(kind: PacketKind, data: Seq<u8>)
    requires
        checks_checksum(kind),
        decoding(kind, data) is Ok,
    ensures
        is_frame(data),
{
}

/// Every other codec leaves the last byte of a packet alone.
pub proof fn law_unchecked_packets_ignore_checksum(kind: PacketKind, a: Seq<u8>, b: Seq<u8>)
    requires
        !checks_checksum(kind),
        a.len() > 0,
        b.len() > 0,
        a.drop_last() == b.drop_last(),
    ensures
        decoding(kind, a) == decoding(kind, b),
{
    let c = a.drop_last();
    assert(content(a) == c && content(b) == c);
    assert(c.len() > 2 ==> a[2] == c[2] && b[2] == c[2]);
    assert(c.len() > 3 ==> a[3] == c[3] && b[3] == c[3]);
    assert(c.len() > 4 ==> a[4] == c[4] && b[4] == c[4]);
    assert(c.len() > 5 ==> a[5] == c[5] && b[5] == c[5]);
    assert(c.len() > 6 ==> a[6] == c[6] && b[6] == c[6]);
}

/// A codec only ever makes values of its own type.
pub proof fn law_codec_keeps_to_its_type(kind: PacketKind, data: Seq<u8>)
    requires
        decoding(kind, data) is Ok,
    ensures
        kind_of(decoding(kind, data)->Ok_0) == Some(kind),
{
}

/// What a device tells on its own is not sent to it: of the values that a packet
/// carries, exactly the readings of a plug and the speed, mode and oscillation
/// that a fan tells have no encoding, apart from scenes whose text is not base64.
pub proof fn law_notifications_are_not_sent(packet: Packet)
    requires
        !(packet is Generic),
        !(packet is SetSceneCode),
    ensures
        encoding(packet) is Err <==> packet is H5086PowerReading || packet is NotifyH7105FanSpeed
            || packet is NotifyH7105FanMode || packet is NotifyH7105Oscillation,
        encoding(packet) is Err ==> encoding(packet)->Err_0 == Error::DeviceNotification(
            kind_of(packet)->Some_0,
        ),
{
}

/// Packets of a product without codecs are kept as they are.
pub proof fn law_unknown_product_keeps_bytes(sku: Seq<char>, data: Seq<u8>)
    requires
        forall|kind: PacketKind| !registered(kind, sku),
    ensures
        packet_for_sku(sku, data) == Packet::Generic(data),
{
}

/// A packet that is kept as it is holds the very bytes that were received, and
/// every codec of the product has refused them.
pub proof fn law_generic_packets_are_refused_by_all(sku: Seq<char>, data: Seq<u8>, kind: PacketKind)
    requires
        packet_for_sku(sku, data) is Generic,
        registered(kind, sku),
    ensures
        packet_for_sku(sku, data) == Packet::Generic(data),
        decoding(kind, data) is Err,
{
    if decoding(kind, data) is Ok {
        law_codec_decides(sku, data, kind);
    }
}

} // verus!
