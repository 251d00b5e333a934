//! Packets of every type.

use crate::bytes::HexBytes;
use crate::error::Error;
use crate::fan_packets::{
    NotifyH7105FanMode, NotifyH7105FanSpeed, SetH7105FanMode, SetH7105FanSpeed,
};
use crate::frame::frame;
use crate::h5086::H5086PowerReading;
use crate::humidifier::{
    HumidifierAutoMode, NotifyHumidifierMode, NotifyHumidifierNightlightParams, SetHumidifierMode,
    SetHumidifierNightlightParams,
};
use crate::kind::PacketKind;
use crate::nightlight::{
    NotifyH7105NightlightColor, NotifyH7105NightlightState, SetH7105NightlightBrightness,
    SetH7105NightlightColor, SetH7105NightlightPower,
};
use crate::oscillation::{NotifyH7105Oscillation, SetH7105Oscillation};
use crate::power::SetDevicePower;
use crate::scene::{scene_encoding, scene_fits, SetSceneCode};
use vstd::prelude::*;

verus! {

/// A packet, with the value that it carries.
#[derive(Clone, Debug, PartialEq, Eq)]
pub enum GoveeBlePacket {
    /// A packet that no codec of the product understands.
    Generic(HexBytes),
    H5086PowerReading(H5086PowerReading),
    SetH7105FanSpeed(SetH7105FanSpeed),
    NotifyH7105FanSpeed(NotifyH7105FanSpeed),
    SetH7105FanMode(SetH7105FanMode),
    NotifyH7105FanMode(NotifyH7105FanMode),
    SetH7105NightlightPower(SetH7105NightlightPower),
    SetH7105NightlightBrightness(SetH7105NightlightBrightness),
    SetH7105NightlightColor(SetH7105NightlightColor),
    NotifyH7105NightlightState(NotifyH7105NightlightState),
    NotifyH7105NightlightColor(NotifyH7105NightlightColor),
    SetH7105Oscillation(SetH7105Oscillation),
    NotifyH7105Oscillation(NotifyH7105Oscillation),
    SetSceneCode(SetSceneCode),
    SetDevicePower(SetDevicePower),
    SetHumidifierNightlight(SetHumidifierNightlightParams),
    NotifyHumidifierMode(NotifyHumidifierMode),
    SetHumidifierMode(SetHumidifierMode),
    NotifyHumidifierAutoMode(HumidifierAutoMode),
    NotifyHumidifierNightlight(NotifyHumidifierNightlightParams),
}

/// What a packet says, apart from how it is held in memory.
pub enum Packet {
    Generic(Seq<u8>),
    H5086PowerReading(H5086PowerReading),
    SetH7105FanSpeed(SetH7105FanSpeed),
    NotifyH7105FanSpeed(NotifyH7105FanSpeed),
    SetH7105FanMode(SetH7105FanMode),
    NotifyH7105FanMode(NotifyH7105FanMode),
    SetH7105NightlightPower(SetH7105NightlightPower),
    SetH7105NightlightBrightness(SetH7105NightlightBrightness),
    SetH7105NightlightColor(SetH7105NightlightColor),
    NotifyH7105NightlightState(NotifyH7105NightlightState),
    NotifyH7105NightlightColor(NotifyH7105NightlightColor),
    SetH7105Oscillation(SetH7105Oscillation),
    NotifyH7105Oscillation(NotifyH7105Oscillation),
    SetSceneCode(u16, Seq<char>),
    SetDevicePower(SetDevicePower),
    SetHumidifierNightlight(SetHumidifierNightlightParams),
    NotifyHumidifierMode(NotifyHumidifierMode),
    SetHumidifierMode(SetHumidifierMode),
    NotifyHumidifierAutoMode(HumidifierAutoMode),
    NotifyHumidifierNightlight(NotifyHumidifierNightlightParams),
}

impl View for GoveeBlePacket {
    type V = Packet;

    open spec fn view(&self) -> Packet {
        match *self {
            GoveeBlePacket::Generic(bytes) => Packet::Generic(bytes@),
            GoveeBlePacket::H5086PowerReading(v) => Packet::H5086PowerReading(v),
            GoveeBlePacket::SetH7105FanSpeed(v) => Packet::SetH7105FanSpeed(v),
            GoveeBlePacket::NotifyH7105FanSpeed(v) => Packet::NotifyH7105FanSpeed(v),
            GoveeBlePacket::SetH7105FanMode(v) => Packet::SetH7105FanMode(v),
            GoveeBlePacket::NotifyH7105FanMode(v) => Packet::NotifyH7105FanMode(v),
            GoveeBlePacket::SetH7105NightlightPower(v) => Packet::SetH7105NightlightPower(v),
            GoveeBlePacket::SetH7105NightlightBrightness(v) => Packet::SetH7105NightlightBrightness(v),
            GoveeBlePacket::SetH7105NightlightColor(v) => Packet::SetH7105NightlightColor(v),
            GoveeBlePacket::NotifyH7105NightlightState(v) => Packet::NotifyH7105NightlightState(v),
            GoveeBlePacket::NotifyH7105NightlightColor(v) => Packet::NotifyH7105NightlightColor(v),
            GoveeBlePacket::SetH7105Oscillation(v) => Packet::SetH7105Oscillation(v),
            GoveeBlePacket::NotifyH7105Oscillation(v) => Packet::NotifyH7105Oscillation(v),
            GoveeBlePacket::SetSceneCode(v) => Packet::SetSceneCode(v.spec_code(), v.spec_param()),
            GoveeBlePacket::SetDevicePower(v) => Packet::SetDevicePower(v),
            GoveeBlePacket::SetHumidifierNightlight(v) => Packet::SetHumidifierNightlight(v),
            GoveeBlePacket::NotifyHumidifierMode(v) => Packet::NotifyHumidifierMode(v),
            GoveeBlePacket::SetHumidifierMode(v) => Packet::SetHumidifierMode(v),
            GoveeBlePacket::NotifyHumidifierAutoMode(v) => Packet::NotifyHumidifierAutoMode(v),
            GoveeBlePacket::NotifyHumidifierNightlight(v) => Packet::NotifyHumidifierNightlight(v),
        }
    }
}

/// The type of value that a packet carries. Raw bytes have none.
pub open spec fn kind_of(packet: Packet) -> Option<PacketKind> {
    match packet {
        Packet::Generic(_) => None,
        Packet::H5086PowerReading(_) => Some(PacketKind::H5086PowerReading),
        Packet::SetH7105FanSpeed(_) => Some(PacketKind::SetH7105FanSpeed),
        Packet::NotifyH7105FanSpeed(_) => Some(PacketKind::NotifyH7105FanSpeed),
        Packet::SetH7105FanMode(_) => Some(PacketKind::SetH7105FanMode),
        Packet::NotifyH7105FanMode(_) => Some(PacketKind::NotifyH7105FanMode),
        Packet::SetH7105NightlightPower(_) => Some(PacketKind::SetH7105NightlightPower),
        Packet::SetH7105NightlightBrightness(_) => Some(PacketKind::SetH7105NightlightBrightness),
        Packet::SetH7105NightlightColor(_) => Some(PacketKind::SetH7105NightlightColor),
        Packet::NotifyH7105NightlightState(_) => Some(PacketKind::NotifyH7105NightlightState),
        Packet::NotifyH7105NightlightColor(_) => Some(PacketKind::NotifyH7105NightlightColor),
        Packet::SetH7105Oscillation(_) => Some(PacketKind::SetH7105Oscillation),
        Packet::NotifyH7105Oscillation(_) => Some(PacketKind::NotifyH7105Oscillation),
        Packet::SetSceneCode(_, _) => Some(PacketKind::SetSceneCode),
        Packet::SetDevicePower(_) => Some(PacketKind::SetDevicePower),
        Packet::SetHumidifierNightlight(_) => Some(PacketKind::SetHumidifierNightlightParams),
        Packet::NotifyHumidifierMode(_) => Some(PacketKind::NotifyHumidifierMode),
        Packet::SetHumidifierMode(_) => Some(PacketKind::SetHumidifierMode),
        Packet::NotifyHumidifierAutoMode(_) => Some(PacketKind::HumidifierAutoMode),
        Packet::NotifyHumidifierNightlight(_) => Some(PacketKind::NotifyHumidifierNightlightParams),
    }
}

/// The bytes that a value is sent as. Values that only devices send have none.
/// Raw bytes carry no value: no codec is for them, and nothing is said of them here.
pub open spec fn encoding(packet: Packet) -> Result<Seq<u8>, Error>
    recommends
        !(packet is Generic),
{
    match packet {
        Packet::Generic(_) => arbitrary(),
        Packet::H5086PowerReading(_) => Err(Error::DeviceNotification(PacketKind::H5086PowerReading)),
        Packet::SetH7105FanSpeed(v) => Ok(frame(v.wire())),
        Packet::NotifyH7105FanSpeed(_) => Err(Error::DeviceNotification(PacketKind::NotifyH7105FanSpeed)),
        Packet::SetH7105FanMode(v) => Ok(frame(v.wire())),
        Packet::NotifyH7105FanMode(_) => Err(Error::DeviceNotification(PacketKind::NotifyH7105FanMode)),
        Packet::SetH7105NightlightPower(v) => Ok(frame(v.wire())),
        Packet::SetH7105NightlightBrightness(v) => Ok(frame(v.wire())),
        Packet::SetH7105NightlightColor(v) => Ok(frame(v.wire())),
        Packet::NotifyH7105NightlightState(v) => Ok(frame(v.wire())),
        Packet::NotifyH7105NightlightColor(v) => Ok(frame(v.wire())),
        Packet::SetH7105Oscillation(v) => Ok(frame(v.wire())),
        Packet::NotifyH7105Oscillation(_) => Err(Error::DeviceNotification(PacketKind::NotifyH7105Oscillation)),
        Packet::SetSceneCode(code, param) => scene_encoding(code, param),
        Packet::SetDevicePower(v) => Ok(frame(v.wire())),
        Packet::SetHumidifierNightlight(v) => Ok(frame(v.wire())),
        Packet::NotifyHumidifierMode(v) => Ok(frame(v.wire())),
        Packet::SetHumidifierMode(v) => Ok(frame(v.wire())),
        Packet::NotifyHumidifierAutoMode(v) => Ok(frame(v.wire())),
        Packet::NotifyHumidifierNightlight(v) => Ok(frame(v.wire())),
    }
}

/// Whether a value can be encoded at all: a scene must not be too long. Raw bytes
/// carry no value that could be.
pub open spec fn encodable(packet: Packet) -> bool {
    match packet {
        Packet::Generic(_) => false,
        Packet::SetSceneCode(_, param) => scene_fits(param),
        _ => true,
    }
}

/// The packet that received bytes are, if the codec for values of type `kind`
/// understands them.
pub open spec fn decoding(kind: PacketKind, data: Seq<u8>) -> Result<Packet, Error> {
    match kind {
        PacketKind::SetHumidifierMode => match SetHumidifierMode::parsed(data) {
            Ok(v) => Ok(Packet::SetHumidifierMode(v)),
            Err(e) => Err(e),
        },
        PacketKind::NotifyHumidifierMode => match NotifyHumidifierMode::parsed(data) {
            Ok(v) => Ok(Packet::NotifyHumidifierMode(v)),
            Err(e) => Err(e),
        },
        PacketKind::HumidifierAutoMode => match HumidifierAutoMode::parsed(data) {
            Ok(v) => Ok(Packet::NotifyHumidifierAutoMode(v)),
            Err(e) => Err(e),
        },
        PacketKind::NotifyHumidifierNightlightParams => match NotifyHumidifierNightlightParams::parsed(data) {
            Ok(v) => Ok(Packet::NotifyHumidifierNightlight(v)),
            Err(e) => Err(e),
        },
        PacketKind::SetHumidifierNightlightParams => match SetHumidifierNightlightParams::parsed(data) {
            Ok(v) => Ok(Packet::SetHumidifierNightlight(v)),
            Err(e) => Err(e),
        },
        PacketKind::H5086PowerReading => match H5086PowerReading::parsed(data) {
            Ok(v) => Ok(Packet::H5086PowerReading(v)),
            Err(e) => Err(e),
        },
        PacketKind::SetH7105FanSpeed => match SetH7105FanSpeed::parsed(data) {
            Ok(v) => Ok(Packet::SetH7105FanSpeed(v)),
            Err(e) => Err(e),
        },
        PacketKind::NotifyH7105FanSpeed => match NotifyH7105FanSpeed::parsed(data) {
            Ok(v) => Ok(Packet::NotifyH7105FanSpeed(v)),
            Err(e) => Err(e),
        },
        PacketKind::SetH7105FanMode => match SetH7105FanMode::parsed(data) {
            Ok(v) => Ok(Packet::SetH7105FanMode(v)),
            Err(e) => Err(e),
        },
        PacketKind::NotifyH7105FanMode => match NotifyH7105FanMode::parsed(data) {
            Ok(v) => Ok(Packet::NotifyH7105FanMode(v)),
            Err(e) => Err(e),
        },
        PacketKind::SetH7105NightlightPower => match SetH7105NightlightPower::parsed(data) {
            Ok(v) => Ok(Packet::SetH7105NightlightPower(v)),
            Err(e) => Err(e),
        },
        PacketKind::SetH7105NightlightBrightness => match SetH7105NightlightBrightness::parsed(data) {
            Ok(v) => Ok(Packet::SetH7105NightlightBrightness(v)),
            Err(e) => Err(e),
        },
        PacketKind::SetH7105NightlightColor => match SetH7105NightlightColor::parsed(data) {
            Ok(v) => Ok(Packet::SetH7105NightlightColor(v)),
            Err(e) => Err(e),
        },
        PacketKind::NotifyH7105NightlightState => match NotifyH7105NightlightState::parsed(data) {
            Ok(v) => Ok(Packet::NotifyH7105NightlightState(v)),
            Err(e) => Err(e),
        },
        PacketKind::NotifyH7105NightlightColor => match NotifyH7105NightlightColor::parsed(data) {
            Ok(v) => Ok(Packet::NotifyH7105NightlightColor(v)),
            Err(e) => Err(e),
        },
        PacketKind::SetH7105Oscillation => match SetH7105Oscillation::parsed(data) {
            Ok(v) => Ok(Packet::SetH7105Oscillation(v)),
            Err(e) => Err(e),
        },
        PacketKind::NotifyH7105Oscillation => match NotifyH7105Oscillation::parsed(data) {
            Ok(v) => Ok(Packet::NotifyH7105Oscillation(v)),
            Err(e) => Err(e),
        },
        PacketKind::SetSceneCode => Err(Error::SceneDecodeNotImplemented),
        PacketKind::SetDevicePower => match SetDevicePower::parsed(data) {
            Ok(v) => Ok(Packet::SetDevicePower(v)),
            Err(e) => Err(e),
        },
    }
}

/// Whether a result of encoding is the expected one.
pub open spec fn encoded_as(
    r: Result<Vec<u8>, Error>,
    expected: Result<Seq<u8>, Error>,
) -> bool {
    match expected {
        Ok(bytes) => r is Ok && r->Ok_0@ == bytes,
        Err(e) => r == Err::<Vec<u8>, Error>(e),
    }
}

/// Whether a result of decoding is the expected one.
pub open spec fn decoded_as(
    r: Result<GoveeBlePacket, Error>,
    expected: Result<Packet, Error>,
) -> bool {
    match expected {
        Ok(packet) => r is Ok && r->Ok_0@ == packet,
        Err(e) => r == Err::<GoveeBlePacket, Error>(e),
    }
}

/// A value that a packet can carry.
pub trait PacketValue: Sized {
    /// The type of the value.
    spec fn spec_kind() -> PacketKind;

    /// The packet that carries the value.
    spec fn packet(&self) -> Packet;

    /// The packet carries a value of this type.
    proof fn lemma_kind(&self)
        ensures
            kind_of(self.packet()) == Some(Self::spec_kind()),
    ;

    /// The type of the value.
    fn kind() -> (r: PacketKind)
        ensures
            r == Self::spec_kind(),
    ;

    /// Whether the value can be encoded at all.
    fn is_encodable(&self) -> (r: bool)
        ensures
            r == encodable(self.packet()),
    ;

    /// Encodes the value.
    fn encode_value(&self) -> (r: Result<Vec<u8>, Error>)
        requires
            encodable(self.packet()),
        ensures
            encoded_as(r, encoding(self.packet())),
    ;
}

impl PacketValue for SetHumidifierMode {
    open spec fn spec_kind() -> PacketKind {
        PacketKind::SetHumidifierMode
    }

    open spec fn packet(&self) -> Packet {
        Packet::SetHumidifierMode(*self)
    }

    proof fn lemma_kind(&self) {
    }

    fn kind() -> (r: PacketKind) {
        PacketKind::SetHumidifierMode
    }

    fn is_encodable(&self) -> (r: bool) {
        true
    }

    fn encode_value(&self) -> (r: Result<Vec<u8>, Error>) {
        self.encode()
    }
}

impl PacketValue for NotifyHumidifierMode {
    open spec fn spec_kind() -> PacketKind {
        PacketKind::NotifyHumidifierMode
    }

    open spec fn packet(&self) -> Packet {
        Packet::NotifyHumidifierMode(*self)
    }

    proof fn lemma_kind(&self) {
    }

    fn kind() -> (r: PacketKind) {
        PacketKind::NotifyHumidifierMode
    }

    fn is_encodable(&self) -> (r: bool) {
        true
    }

    fn encode_value(&self) -> (r: Result<Vec<u8>, Error>) {
        self.encode()
    }
}

impl PacketValue for HumidifierAutoMode {
    open spec fn spec_kind() -> PacketKind {
        PacketKind::HumidifierAutoMode
    }

    open spec fn packet(&self) -> Packet {
        Packet::NotifyHumidifierAutoMode(*self)
    }

    proof fn lemma_kind(&self) {
    }

    fn kind() -> (r: PacketKind) {
        PacketKind::HumidifierAutoMode
    }

    fn is_encodable(&self) -> (r: bool) {
        true
    }

    fn encode_value(&self) -> (r: Result<Vec<u8>, Error>) {
        self.encode()
    }
}

impl PacketValue for NotifyHumidifierNightlightParams {
    open spec fn spec_kind() -> PacketKind {
        PacketKind::NotifyHumidifierNightlightParams
    }

    open spec fn packet(&self) -> Packet {
        Packet::NotifyHumidifierNightlight(*self)
    }

    proof fn lemma_kind(&self) {
    }

    fn kind() -> (r: PacketKind) {
        PacketKind::NotifyHumidifierNightlightParams
    }

    fn is_encodable(&self) -> (r: bool) {
        true
    }

    fn encode_value(&self) -> (r: Result<Vec<u8>, Error>) {
        self.encode()
    }
}

impl PacketValue for SetHumidifierNightlightParams {
    open spec fn spec_kind() -> PacketKind {
        PacketKind::SetHumidifierNightlightParams
    }

    open spec fn packet(&self) -> Packet {
        Packet::SetHumidifierNightlight(*self)
    }

    proof fn lemma_kind(&self) {
    }

    fn kind() -> (r: PacketKind) {
        PacketKind::SetHumidifierNightlightParams
    }

    fn is_encodable(&self) -> (r: bool) {
        true
    }

    fn encode_value(&self) -> (r: Result<Vec<u8>, Error>) {
        self.encode()
    }
}

impl PacketValue for H5086PowerReading {
    open spec fn spec_kind() -> PacketKind {
        PacketKind::H5086PowerReading
    }

    open spec fn packet(&self) -> Packet {
        Packet::H5086PowerReading(*self)
    }

    proof fn lemma_kind(&self) {
    }

    fn kind() -> (r: PacketKind) {
        PacketKind::H5086PowerReading
    }

    fn is_encodable(&self) -> (r: bool) {
        true
    }

    fn encode_value(&self) -> (r: Result<Vec<u8>, Error>) {
        self.encode()
    }
}

impl PacketValue for SetH7105FanSpeed {
    open spec fn spec_kind() -> PacketKind {
        PacketKind::SetH7105FanSpeed
    }

    open spec fn packet(&self) -> Packet {
        Packet::SetH7105FanSpeed(*self)
    }

    proof fn lemma_kind(&self) {
    }

    fn kind() -> (r: PacketKind) {
        PacketKind::SetH7105FanSpeed
    }

    fn is_encodable(&self) -> (r: bool) {
        true
    }

    fn encode_value(&self) -> (r: Result<Vec<u8>, Error>) {
        self.encode()
    }
}

impl PacketValue for NotifyH7105FanSpeed {
    open spec fn spec_kind() -> PacketKind {
        PacketKind::NotifyH7105FanSpeed
    }

    open spec fn packet(&self) -> Packet {
        Packet::NotifyH7105FanSpeed(*self)
    }

    proof fn lemma_kind(&self) {
    }

    fn kind() -> (r: PacketKind) {
        PacketKind::NotifyH7105FanSpeed
    }

    fn is_encodable(&self) -> (r: bool) {
        true
    }

    fn encode_value(&self) -> (r: Result<Vec<u8>, Error>) {
        self.encode()
    }
}

impl PacketValue for SetH7105FanMode {
    open spec fn spec_kind() -> PacketKind {
        PacketKind::SetH7105FanMode
    }

    open spec fn packet(&self) -> Packet {
        Packet::SetH7105FanMode(*self)
    }

    proof fn lemma_kind(&self) {
    }

    fn kind() -> (r: PacketKind) {
        PacketKind::SetH7105FanMode
    }

    fn is_encodable(&self) -> (r: bool) {
        true
    }

    fn encode_value(&self) -> (r: Result<Vec<u8>, Error>) {
        self.encode()
    }
}

impl PacketValue for NotifyH7105FanMode {
    open spec fn spec_kind() -> PacketKind {
        PacketKind::NotifyH7105FanMode
    }

    open spec fn packet(&self) -> Packet {
        Packet::NotifyH7105FanMode(*self)
    }

    proof fn lemma_kind(&self) {
    }

    fn kind() -> (r: PacketKind) {
        PacketKind::NotifyH7105FanMode
    }

    fn is_encodable(&self) -> (r: bool) {
        true
    }

    fn encode_value(&self) -> (r: Result<Vec<u8>, Error>) {
        self.encode()
    }
}

impl PacketValue for SetH7105NightlightPower {
    open spec fn spec_kind() -> PacketKind {
        PacketKind::SetH7105NightlightPower
    }

    open spec fn packet(&self) -> Packet {
        Packet::SetH7105NightlightPower(*self)
    }

    proof fn lemma_kind(&self) {
    }

    fn kind() -> (r: PacketKind) {
        PacketKind::SetH7105NightlightPower
    }

    fn is_encodable(&self) -> (r: bool) {
        true
    }

    fn encode_value(&self) -> (r: Result<Vec<u8>, Error>) {
        self.encode()
    }
}

impl PacketValue for SetH7105NightlightBrightness {
    open spec fn spec_kind() -> PacketKind {
        PacketKind::SetH7105NightlightBrightness
    }

    open spec fn packet(&self) -> Packet {
        Packet::SetH7105NightlightBrightness(*self)
    }

    proof fn lemma_kind(&self) {
    }

    fn kind() -> (r: PacketKind) {
        PacketKind::SetH7105NightlightBrightness
    }

    fn is_encodable(&self) -> (r: bool) {
        true
    }

    fn encode_value(&self) -> (r: Result<Vec<u8>, Error>) {
        self.encode()
    }
}

impl PacketValue for SetH7105NightlightColor {
    open spec fn spec_kind() -> PacketKind {
        PacketKind::SetH7105NightlightColor
    }

    open spec fn packet(&self) -> Packet {
        Packet::SetH7105NightlightColor(*self)
    }

    proof fn lemma_kind(&self) {
    }

    fn kind() -> (r: PacketKind) {
        PacketKind::SetH7105NightlightColor
    }

    fn is_encodable(&self) -> (r: bool) {
        true
    }

    fn encode_value(&self) -> (r: Result<Vec<u8>, Error>) {
        self.encode()
    }
}

impl PacketValue for NotifyH7105NightlightState {
    open spec fn spec_kind() -> PacketKind {
        PacketKind::NotifyH7105NightlightState
    }

    open spec fn packet(&self) -> Packet {
        Packet::NotifyH7105NightlightState(*self)
    }

    proof fn lemma_kind(&self) {
    }

    fn kind() -> (r: PacketKind) {
        PacketKind::NotifyH7105NightlightState
    }

    fn is_encodable(&self) -> (r: bool) {
        true
    }

    fn encode_value(&self) -> (r: Result<Vec<u8>, Error>) {
        self.encode()
    }
}

impl PacketValue for NotifyH7105NightlightColor {
    open spec fn spec_kind() -> PacketKind {
        PacketKind::NotifyH7105NightlightColor
    }

    open spec fn packet(&self) -> Packet {
        Packet::NotifyH7105NightlightColor(*self)
    }

    proof fn lemma_kind(&self) {
    }

    fn kind() -> (r: PacketKind) {
        PacketKind::NotifyH7105NightlightColor
    }

    fn is_encodable(&self) -> (r: bool) {
        true
    }

    fn encode_value(&self) -> (r: Result<Vec<u8>, Error>) {
        self.encode()
    }
}

impl PacketValue for SetH7105Oscillation {
    open spec fn spec_kind() -> PacketKind {
        PacketKind::SetH7105Oscillation
    }

    open spec fn packet(&self) -> Packet {
        Packet::SetH7105Oscillation(*self)
    }

    proof fn lemma_kind(&self) {
    }

    fn kind() -> (r: PacketKind) {
        PacketKind::SetH7105Oscillation
    }

    fn is_encodable(&self) -> (r: bool) {
        true
    }

    fn encode_value(&self) -> (r: Result<Vec<u8>, Error>) {
        self.encode()
    }
}

impl PacketValue for NotifyH7105Oscillation {
    open spec fn spec_kind() -> PacketKind {
        PacketKind::NotifyH7105Oscillation
    }

    open spec fn packet(&self) -> Packet {
        Packet::NotifyH7105Oscillation(*self)
    }

    proof fn lemma_kind(&self) {
    }

    fn kind() -> (r: PacketKind) {
        PacketKind::NotifyH7105Oscillation
    }

    fn is_encodable(&self) -> (r: bool) {
        true
    }

    fn encode_value(&self) -> (r: Result<Vec<u8>, Error>) {
        self.encode()
    }
}

impl PacketValue for SetSceneCode {
    open spec fn spec_kind() -> PacketKind {
        PacketKind::SetSceneCode
    }

    open spec fn packet(&self) -> Packet {
        Packet::SetSceneCode(self.spec_code(), self.spec_param())
    }

    proof fn lemma_kind(&self) {
    }

    fn kind() -> (r: PacketKind) {
        PacketKind::SetSceneCode
    }

    fn is_encodable(&self) -> (r: bool) {
        self.fits()
    }

    fn encode_value(&self) -> (r: Result<Vec<u8>, Error>) {
        self.encode()
    }
}

impl PacketValue for SetDevicePower {
    open spec fn spec_kind() -> PacketKind {
        PacketKind::SetDevicePower
    }

    open spec fn packet(&self) -> Packet {
        Packet::SetDevicePower(*self)
    }

    proof fn lemma_kind(&self) {
    }

    fn kind() -> (r: PacketKind) {
        PacketKind::SetDevicePower
    }

    fn is_encodable(&self) -> (r: bool) {
        true
    }

    fn encode_value(&self) -> (r: Result<Vec<u8>, Error>) {
        self.encode()
    }
}

} // verus!
