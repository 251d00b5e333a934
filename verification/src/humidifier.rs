//! Packets of the H7160 humidifier.

use crate::error::Error;
use crate::frame::{bool_byte, finish, frame};
use crate::packet::GoveeBlePacket;
use crate::param::{
    content, drop_checksum, expect_padding, expect_prefix, layout_error, DecodePacketParam,
};
use vstd::prelude::*;

verus! {

/// A relative humidity. The byte is offset by 128 with increments of 1%, so 0%
/// is 128 and 100% is 228.
#[derive(Default, Debug, Clone, Copy, PartialEq, Eq)]
pub struct TargetHumidity(u8);

impl TargetHumidity {
    /// The byte that stands for the humidity.
    pub closed spec fn byte(self) -> u8 {
        self.0
    }

    /// The humidity that `byte` stands for.
    pub closed spec fn of(byte: u8) -> Self {
        TargetHumidity(byte)
    }

    /// A humidity and its byte determine each other.
    pub proof fn lemma_byte(self, byte: u8)
        ensures
            Self::of(self.byte()) == self,
            Self::of(byte).byte() == byte,
    {
    }

    /// The humidity in percent.
    pub open spec fn spec_percent(self) -> u8 {
        (self.byte() % 128) as u8
    }

    /// The humidity in percent.
    pub fn as_percent(&self) -> (r: u8)
        ensures
            r == self.spec_percent(),
            r == self.byte() % 128,
            r <= 127,
            self.byte() == r || self.byte() == r + 128,
    {
        let byte = self.0;
        assert(byte & 0x7f == byte % 128) by (bit_vector);
        byte & 0x7f
    }

    /// The byte that stands for the humidity.
    pub fn into_inner(self) -> (r: u8)
        ensures
            r == self.byte(),
    {
        self.0
    }

    /// The humidity of `percent` percent.
    pub fn from_percent(percent: u8) -> (r: Self)
        requires
            percent <= 127,
        ensures
            r.byte() == percent + 128,
            r.spec_percent() == percent,
    {
        TargetHumidity(percent + 128)
    }
}

/// A humidity that was made from a percentage has that percentage.
pub proof fn law_percent_round_trip(humidity: TargetHumidity, percent: u8)
    requires
        percent <= 127,
        humidity.byte() == percent + 128,
    ensures
        humidity.byte() % 128 == percent,
{
}

impl From<TargetHumidity> for u8 {
    fn from(val: TargetHumidity) -> (r: Self) {
        val.0
    }
}

impl vstd::std_specs::convert::FromSpecImpl<TargetHumidity> for u8 {
    open spec fn obeys_from_spec() -> bool {
        true
    }

    open spec fn from_spec(val: TargetHumidity) -> Self {
        val.byte()
    }
}

impl DecodePacketParam for TargetHumidity {
    open spec fn param_len() -> nat {
        1
    }

    open spec fn param_bytes(self) -> Seq<u8> {
        seq![self.byte()]
    }

    open spec fn param_value(data: Seq<u8>) -> Result<Self, Error> {
        if data.len() < 1 {
            Err(Error::Eof)
        } else {
            Ok(TargetHumidity::of(data[0]))
        }
    }

    proof fn law_param_round_trip(self, rest: Seq<u8>) {
    }

    fn decode_param<'a>(&mut self, data: &'a [u8]) -> (r: Result<&'a [u8], Error>) {
        self.0.decode_param(data)
    }

    fn encode_param(&self, target: &mut Vec<u8>) {
        target.push(self.0);
    }
}

/// Selects a working mode.
#[derive(Clone, Default, Debug, PartialEq, Eq)]
pub struct SetHumidifierMode {
    pub mode: u8,
    pub param: u8,
}

impl SetHumidifierMode {
    /// The content of the frame that carries the value.
    pub open spec fn wire(self) -> Seq<u8> {
        seq![0x33u8, 0x05, self.mode, self.param]
    }

    /// The value that a received packet carries.
    pub open spec fn parsed(data: Seq<u8>) -> Result<Self, Error> {
        match layout_error(content(data), seq![0x33u8, 0x05], 2) {
            Some(e) => Err(e),
            None => Ok(SetHumidifierMode { mode: data[2], param: data[3] }),
        }
    }

    /// Encodes the value into a frame.
    pub fn encode(&self) -> (r: Result<Vec<u8>, Error>)
        ensures
            r is Ok,
            r->Ok_0@ == frame(self.wire()),
    {
        let mut bytes: Vec<u8> = vec![0x33, 0x05];
        self.mode.encode_param(&mut bytes);
        self.param.encode_param(&mut bytes);
        assert(bytes@ =~= self.wire());
        Ok(finish(bytes))
    }

    /// Decodes a received packet. The checksum is not looked at.
    pub fn decode(data: &[u8]) -> (r: Result<GoveeBlePacket, Error>)
        ensures
            match Self::parsed(data@) {
                Ok(value) => r == Ok::<GoveeBlePacket, Error>(GoveeBlePacket::SetHumidifierMode(value)),
                Err(e) => r == Err::<GoveeBlePacket, Error>(e),
            },
    {
        let mut value = SetHumidifierMode { mode: 0, param: 0 };
        let prefix: [u8; 2] = [0x33, 0x05];
        assert(prefix@ =~= seq![0x33u8, 0x05]);
        let rest = expect_prefix(drop_checksum(data), prefix.as_slice())?;
        let rest = value.mode.decode_param(rest)?;
        let rest = value.param.decode_param(rest)?;
        assert(rest@ =~= content(data@).skip(4));
        expect_padding(rest)?;
        Ok(GoveeBlePacket::SetHumidifierMode(value))
    }
}

/// Tells the working mode.
#[derive(Clone, Default, Debug, PartialEq, Eq)]
pub struct NotifyHumidifierMode {
    pub mode: u8,
    pub param: u8,
}

impl NotifyHumidifierMode {
    /// The content of the frame that carries the value.
    pub open spec fn wire(self) -> Seq<u8> {
        seq![0xaau8, 0x05, 0x00, self.mode, self.param]
    }

    /// The value that a received packet carries.
    pub open spec fn parsed(data: Seq<u8>) -> Result<Self, Error> {
        match layout_error(content(data), seq![0xaau8, 0x05, 0x00], 2) {
            Some(e) => Err(e),
            None => Ok(NotifyHumidifierMode { mode: data[3], param: data[4] }),
        }
    }

    /// Encodes the value into a frame.
    pub fn encode(&self) -> (r: Result<Vec<u8>, Error>)
        ensures
            r is Ok,
            r->Ok_0@ == frame(self.wire()),
    {
        let mut bytes: Vec<u8> = vec![0xaa, 0x05, 0x00];
        self.mode.encode_param(&mut bytes);
        self.param.encode_param(&mut bytes);
        assert(bytes@ =~= self.wire());
        Ok(finish(bytes))
    }

    /// Decodes a received packet. The checksum is not looked at.
    pub fn decode(data: &[u8]) -> (r: Result<GoveeBlePacket, Error>)
        ensures
            match Self::parsed(data@) {
                Ok(value) => r == Ok::<GoveeBlePacket, Error>(GoveeBlePacket::NotifyHumidifierMode(value)),
                Err(e) => r == Err::<GoveeBlePacket, Error>(e),
            },
    {
        let mut value = NotifyHumidifierMode { mode: 0, param: 0 };
        let prefix: [u8; 3] = [0xaa, 0x05, 0x00];
        assert(prefix@ =~= seq![0xaau8, 0x05, 0x00]);
        let rest = expect_prefix(drop_checksum(data), prefix.as_slice())?;
        let rest = value.mode.decode_param(rest)?;
        let rest = value.param.decode_param(rest)?;
        assert(rest@ =~= content(data@).skip(5));
        expect_padding(rest)?;
        Ok(GoveeBlePacket::NotifyHumidifierMode(value))
    }
}

/// Tells the humidity that the automatic mode aims at.
#[derive(Clone, Default, Debug, PartialEq, Eq)]
pub struct HumidifierAutoMode {
    pub target_humidity: TargetHumidity,
}

impl HumidifierAutoMode {
    /// The content of the frame that carries the value.
    pub open spec fn wire(self) -> Seq<u8> {
        seq![0xaau8, 0x05, 0x03, self.target_humidity.byte()]
    }

    /// The value that a received packet carries.
    pub open spec fn parsed(data: Seq<u8>) -> Result<Self, Error> {
        match layout_error(content(data), seq![0xaau8, 0x05, 0x03], 1) {
            Some(e) => Err(e),
            None => Ok(HumidifierAutoMode { target_humidity: TargetHumidity::of(data[3]) }),
        }
    }

    /// Encodes the value into a frame.
    pub fn encode(&self) -> (r: Result<Vec<u8>, Error>)
        ensures
            r is Ok,
            r->Ok_0@ == frame(self.wire()),
    {
        let mut bytes: Vec<u8> = vec![0xaa, 0x05, 0x03];
        self.target_humidity.encode_param(&mut bytes);
        assert(bytes@ =~= self.wire());
        Ok(finish(bytes))
    }

    /// Decodes a received packet. The checksum is not looked at.
    pub fn decode(data: &[u8]) -> (r: Result<GoveeBlePacket, Error>)
        ensures
            match Self::parsed(data@) {
                Ok(value) => r == Ok::<GoveeBlePacket, Error>(GoveeBlePacket::NotifyHumidifierAutoMode(value)),
                Err(e) => r == Err::<GoveeBlePacket, Error>(e),
            },
    {
        let mut value = HumidifierAutoMode { target_humidity: TargetHumidity(0) };
        let prefix: [u8; 3] = [0xaa, 0x05, 0x03];
        assert(prefix@ =~= seq![0xaau8, 0x05, 0x03]);
        let rest = expect_prefix(drop_checksum(data), prefix.as_slice())?;
        let rest = value.target_humidity.decode_param(rest)?;
        assert(rest@ =~= content(data@).skip(4));
        expect_padding(rest)?;
        Ok(GoveeBlePacket::NotifyHumidifierAutoMode(value))
    }
}

/// Tells the state of the night light.
#[derive(Clone, Copy, Debug, PartialEq, Eq, Default)]
pub struct NotifyHumidifierNightlightParams {
    pub on: bool,
    pub r: u8,
    pub g: u8,
    pub b: u8,
    pub brightness: u8,
}

impl NotifyHumidifierNightlightParams {
    /// The content of the frame that carries the value.
    pub open spec fn wire(self) -> Seq<u8> {
        seq![0xaau8, 0x1b, bool_byte(self.on), self.brightness, self.r, self.g, self.b]
    }

    /// The value that a received packet carries.
    pub open spec fn parsed(data: Seq<u8>) -> Result<Self, Error> {
        match layout_error(content(data), seq![0xaau8, 0x1b], 5) {
            Some(e) => Err(e),
            None => Ok(NotifyHumidifierNightlightParams { on: data[2] != 0, brightness: data[3], r: data[4], g: data[5], b: data[6] }),
        }
    }

    /// Encodes the value into a frame.
    pub fn encode(&self) -> (r: Result<Vec<u8>, Error>)
        ensures
            r is Ok,
            r->Ok_0@ == frame(self.wire()),
    {
        let mut bytes: Vec<u8> = vec![0xaa, 0x1b];
        self.on.encode_param(&mut bytes);
        self.brightness.encode_param(&mut bytes);
        self.r.encode_param(&mut bytes);
        self.g.encode_param(&mut bytes);
        self.b.encode_param(&mut bytes);
        assert(bytes@ =~= self.wire());
        Ok(finish(bytes))
    }

    /// Decodes a received packet. The checksum is not looked at.
    pub fn decode(data: &[u8]) -> (r: Result<GoveeBlePacket, Error>)
        ensures
            match Self::parsed(data@) {
                Ok(value) => r == Ok::<GoveeBlePacket, Error>(GoveeBlePacket::NotifyHumidifierNightlight(value)),
                Err(e) => r == Err::<GoveeBlePacket, Error>(e),
            },
    {
        let mut value = NotifyHumidifierNightlightParams { on: false, brightness: 0, r: 0, g: 0, b: 0 };
        let prefix: [u8; 2] = [0xaa, 0x1b];
        assert(prefix@ =~= seq![0xaau8, 0x1b]);
        let rest = expect_prefix(drop_checksum(data), prefix.as_slice())?;
        let rest = value.on.decode_param(rest)?;
        let rest = value.brightness.decode_param(rest)?;
        let rest = value.r.decode_param(rest)?;
        let rest = value.g.decode_param(rest)?;
        let rest = value.b.decode_param(rest)?;
        assert(rest@ =~= content(data@).skip(7));
        expect_padding(rest)?;
        Ok(GoveeBlePacket::NotifyHumidifierNightlight(value))
    }
}

/// Sets the night light.
#[derive(Clone, Copy, Debug, PartialEq, Eq, Default)]
pub struct SetHumidifierNightlightParams {
    pub on: bool,
    pub r: u8,
    pub g: u8,
    pub b: u8,
    pub brightness: u8,
}

impl SetHumidifierNightlightParams {
    /// The content of the frame that carries the value.
    pub open spec fn wire(self) -> Seq<u8> {
        seq![0x33u8, 0x1b, bool_byte(self.on), self.brightness, self.r, self.g, self.b]
    }

    /// The value that a received packet carries.
    pub open spec fn parsed(data: Seq<u8>) -> Result<Self, Error> {
        match layout_error(content(data), seq![0x33u8, 0x1b], 5) {
            Some(e) => Err(e),
            None => Ok(SetHumidifierNightlightParams { on: data[2] != 0, brightness: data[3], r: data[4], g: data[5], b: data[6] }),
        }
    }

    /// Encodes the value into a frame.
    pub fn encode(&self) -> (r: Result<Vec<u8>, Error>)
        ensures
            r is Ok,
            r->Ok_0@ == frame(self.wire()),
    {
        let mut bytes: Vec<u8> = vec![0x33, 0x1b];
        self.on.encode_param(&mut bytes);
        self.brightness.encode_param(&mut bytes);
        self.r.encode_param(&mut bytes);
        self.g.encode_param(&mut bytes);
        self.b.encode_param(&mut bytes);
        assert(bytes@ =~= self.wire());
        Ok(finish(bytes))
    }

    /// Decodes a received packet. The checksum is not looked at.
    pub fn decode(data: &[u8]) -> (r: Result<GoveeBlePacket, Error>)
        ensures
            match Self::parsed(data@) {
                Ok(value) => r == Ok::<GoveeBlePacket, Error>(GoveeBlePacket::SetHumidifierNightlight(value)),
                Err(e) => r == Err::<GoveeBlePacket, Error>(e),
            },
    {
        let mut value = SetHumidifierNightlightParams { on: false, brightness: 0, r: 0, g: 0, b: 0 };
        let prefix: [u8; 2] = [0x33, 0x1b];
        assert(prefix@ =~= seq![0x33u8, 0x1b]);
        let rest = expect_prefix(drop_checksum(data), prefix.as_slice())?;
        let rest = value.on.decode_param(rest)?;
        let rest = value.brightness.decode_param(rest)?;
        let rest = value.r.decode_param(rest)?;
        let rest = value.g.decode_param(rest)?;
        let rest = value.b.decode_param(rest)?;
        assert(rest@ =~= content(data@).skip(7));
        expect_padding(rest)?;
        Ok(GoveeBlePacket::SetHumidifierNightlight(value))
    }
}

/// The command that brings about the state that was notified.
pub open spec fn nightlight_command(
    val: NotifyHumidifierNightlightParams,
) -> SetHumidifierNightlightParams {
    SetHumidifierNightlightParams {
        on: val.on,
        r: val.r,
        g: val.g,
        b: val.b,
        brightness: val.brightness,
    }
}

impl From<NotifyHumidifierNightlightParams> for SetHumidifierNightlightParams {
    fn from(val: NotifyHumidifierNightlightParams) -> (r: Self) {
        SetHumidifierNightlightParams {
            on: val.on,
            r: val.r,
            g: val.g,
            b: val.b,
            brightness: val.brightness,
        }
    }
}

impl vstd::std_specs::convert::FromSpecImpl<NotifyHumidifierNightlightParams>
for SetHumidifierNightlightParams {
    open spec fn obeys_from_spec() -> bool {
        true
    }

    open spec fn from_spec(val: NotifyHumidifierNightlightParams) -> Self {
        nightlight_command(val)
    }
}

/// The command that brings a notified state about is the notification but for
/// the byte that tells commands from notifications.
pub proof fn law_nightlight_command_repeats_notification(val: NotifyHumidifierNightlightParams)
    ensures
        nightlight_command(val).wire() == val.wire().update(0, 0x33),
{
    assert(nightlight_command(val).wire() =~= val.wire().update(0, 0x33));
}

/// A humidity field is one byte, from which the humidity is read as it is.
pub proof fn law_humidity_field(humidity: TargetHumidity, data: Seq<u8>, byte: u8)
    ensures
        humidity.param_bytes() == seq![humidity.byte()],
        TargetHumidity::param_value(seq![byte] + data) is Ok,
        TargetHumidity::param_value(seq![byte] + data)->Ok_0.byte() == byte,
        TargetHumidity::param_value(Seq::<u8>::empty()) == Err::<TargetHumidity, Error>(Error::Eof),
        TargetHumidity::param_len() == 1,
{
}

/// The command for a notified state switches the same way, with the same colour
/// and brightness.
pub proof fn law_nightlight_command_keeps_state(val: NotifyHumidifierNightlightParams)
    ensures
        nightlight_command(val).on == val.on,
        nightlight_command(val).r == val.r,
        nightlight_command(val).g == val.g,
        nightlight_command(val).b == val.b,
        nightlight_command(val).brightness == val.brightness,
{
}

/// A humidity converts to the byte that stands for it, and a notified state to
/// the command that keeps it.
pub proof fn law_conversions(humidity: TargetHumidity, val: NotifyHumidifierNightlightParams)
    ensures
        <u8 as vstd::std_specs::convert::FromSpec<TargetHumidity>>::from_spec(humidity)
            == humidity.byte(),
        <SetHumidifierNightlightParams as vstd::std_specs::convert::FromSpec<
            NotifyHumidifierNightlightParams,
        >>::from_spec(val) == nightlight_command(val),
{
}

/// The percentage is the byte without its highest bit: 128 less where that bit
/// is set, and else the byte itself.
pub proof fn law_percentage_of_byte(humidity: TargetHumidity)
    ensures
        humidity.byte() >= 128 ==> humidity.spec_percent() + 128 == humidity.byte(),
        humidity.byte() < 128 ==> humidity.spec_percent() == humidity.byte(),
{
}

} // verus!
