//! Codecs: which product understands which values, and how they are read.

use crate::error::Error;
use crate::fan_packets::{
    NotifyH7105FanMode, NotifyH7105FanSpeed, SetH7105FanMode, SetH7105FanSpeed,
};
use crate::h5086::H5086PowerReading;
use crate::humidifier::{
    HumidifierAutoMode, NotifyHumidifierMode, NotifyHumidifierNightlightParams, SetHumidifierMode,
    SetHumidifierNightlightParams,
};
use crate::kind::PacketKind;
use crate::nightlight::{
    NotifyH7105NightlightColor, NotifyH7105NightlightState, SetH7105NightlightBrightness,
    SetH7105NightlightColor, SetH7105NightlightPower,
};
use crate::oscillation::{NotifyH7105Oscillation, SetH7105Oscillation};
use crate::packet::{
    decoded_as, decoding, encodable, encoded_as, encoding, GoveeBlePacket, PacketValue,
};
use crate::power::SetDevicePower;
use crate::scene::SetSceneCode;
use crate::text::same_text;
use vstd::prelude::*;

verus! {

/// What a codec is: the type of value that it is for, and the products that
/// understand them.
#[verifier::ext_equal]
pub struct Codec {
    pub kind: PacketKind,
    pub skus: Seq<Seq<char>>,
}

/// The texts of a list of product numbers.
pub open spec fn texts(skus: Seq<&'static str>) -> Seq<Seq<char>> {
    Seq::new(skus.len(), |i: int| skus[i]@)
}

/// How values of one type travel, and which products understand them.
pub struct PacketCodec {
    supported_skus: &'static [&'static str],
    kind: PacketKind,
}

impl View for PacketCodec {
    type V = Codec;

    closed spec fn view(&self) -> Codec {
        Codec { kind: self.kind, skus: texts(self.supported_skus@) }
    }
}

impl PacketCodec {
    /// The codec for values of type `T`, which the products `supported_skus` understand.
    pub fn new<T: PacketValue>(supported_skus: &'static [&'static str]) -> (r: Self)
        ensures
            r@ == (Codec { kind: T::spec_kind(), skus: texts(supported_skus@) }),
    {
        PacketCodec { supported_skus, kind: T::kind() }
    }

    /// The type of value that the codec is for.
    pub fn kind(&self) -> (r: PacketKind)
        ensures
            r == self@.kind,
    {
        self.kind
    }

    /// Whether the product `sku` understands the values.
    pub fn supports_sku(&self, sku: &str) -> (r: bool)
        ensures
            r == self@.skus.contains(sku@),
    {
        let mut i: usize = 0;
        while i < self.supported_skus.len()
            invariant
                i <= self.supported_skus.len(),
                forall|j: int| 0 <= j < i ==> #[trigger] self.supported_skus@[j]@ != sku@,
            decreases self.supported_skus.len() - i,
        {
            if same_text(self.supported_skus[i], sku) {
                assert(self@.skus[i as int] == sku@);
                return true;
            }
            i = i + 1;
        }
        false
    }

    /// Encodes a value, which must have the type that the codec is for.
    pub fn encode<T: PacketValue>(&self, value: &T) -> (r: Result<Vec<u8>, Error>)
        requires
            T::spec_kind() == self@.kind ==> encodable(value.packet()),
        ensures
            if T::spec_kind() == self@.kind {
                encoded_as(r, encoding(value.packet()))
            } else {
                r == Err::<Vec<u8>, Error>(Error::WrongType { kind: self@.kind })
            },
    {
        if T::kind() != self.kind {
            return Err(Error::WrongType { kind: self.kind });
        }
        value.encode_value()
    }

    /// Encodes a value, or returns `None` where it is too long to be encoded.
    pub fn try_encode<T: PacketValue>(&self, value: &T) -> (r: Option<Result<Vec<u8>, Error>>)
        ensures
            r is None <==> T::spec_kind() == self@.kind && !encodable(value.packet()),
            r is Some ==> if T::spec_kind() == self@.kind {
                encoded_as(r->Some_0, encoding(value.packet()))
            } else {
                r->Some_0 == Err::<Vec<u8>, Error>(Error::WrongType { kind: self@.kind })
            },
    {
        if T::kind() == self.kind && !value.is_encodable() {
            return None;
        }
        Some(self.encode(value))
    }

    /// Decodes a received packet.
    pub fn decode(&self, data: &[u8]) -> (r: Result<GoveeBlePacket, Error>)
        ensures
            decoded_as(r, decoding(self@.kind, data@)),
    {
        match self.kind {
            PacketKind::SetHumidifierMode => SetHumidifierMode::decode(data),
            PacketKind::NotifyHumidifierMode => NotifyHumidifierMode::decode(data),
            PacketKind::HumidifierAutoMode => HumidifierAutoMode::decode(data),
            PacketKind::NotifyHumidifierNightlightParams => NotifyHumidifierNightlightParams::decode(data),
            PacketKind::SetHumidifierNightlightParams => SetHumidifierNightlightParams::decode(data),
            PacketKind::H5086PowerReading => H5086PowerReading::decode(data),
            PacketKind::SetH7105FanSpeed => SetH7105FanSpeed::decode(data),
            PacketKind::NotifyH7105FanSpeed => NotifyH7105FanSpeed::decode(data),
            PacketKind::SetH7105FanMode => SetH7105FanMode::decode(data),
            PacketKind::NotifyH7105FanMode => NotifyH7105FanMode::decode(data),
            PacketKind::SetH7105NightlightPower => SetH7105NightlightPower::decode(data),
            PacketKind::SetH7105NightlightBrightness => SetH7105NightlightBrightness::decode(data),
            PacketKind::SetH7105NightlightColor => SetH7105NightlightColor::decode(data),
            PacketKind::NotifyH7105NightlightState => NotifyH7105NightlightState::decode(data),
            PacketKind::NotifyH7105NightlightColor => NotifyH7105NightlightColor::decode(data),
            PacketKind::SetH7105Oscillation => SetH7105Oscillation::decode(data),
            PacketKind::NotifyH7105Oscillation => NotifyH7105Oscillation::decode(data),
            PacketKind::SetSceneCode => SetSceneCode::decode(data),
            PacketKind::SetDevicePower => SetDevicePower::decode(data),
        }
    }
}

/// The products of a codec are the texts of its list, in order.
pub proof fn law_texts_of_list(skus: Seq<&'static str>, i: int)
    ensures
        texts(skus).len() == skus.len(),
        0 <= i < skus.len() ==> texts(skus)[i] == skus[i]@,
{
}

} // verus!
