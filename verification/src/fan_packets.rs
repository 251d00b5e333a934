//! Speed and mode of the H7105 fan.

use crate::error::Error;
use crate::frame::{calculate_checksum, checksum, finish, frame};
use crate::kind::PacketKind;
use crate::packet::GoveeBlePacket;
use crate::param::{
    content, drop_checksum, expect_padding, expect_prefix, layout_error, DecodePacketParam,
};
use crate::text::{equal_ignoring_case, same_but_case};
use vstd::prelude::*;

verus! {

/// Sets the speed of the fan.
#[derive(Clone, Copy, Debug, PartialEq, Eq, Default)]
pub struct SetH7105FanSpeed {
    pub speed: u8,
}

impl SetH7105FanSpeed {
    /// The content of the frame that carries the value.
    pub open spec fn wire(self) -> Seq<u8> {
        seq![0x33u8, 0x05, 0x01, self.speed]
    }

    /// The value that a received packet carries.
    pub open spec fn parsed(data: Seq<u8>) -> Result<Self, Error> {
        match layout_error(content(data), seq![0x33u8, 0x05, 0x01], 1) {
            Some(e) => Err(e),
            None => Ok(SetH7105FanSpeed { speed: data[3] }),
        }
    }

    /// Encodes the value into a frame.
    pub fn encode(&self) -> (r: Result<Vec<u8>, Error>)
        ensures
            r is Ok,
            r->Ok_0@ == frame(self.wire()),
    {
        let mut bytes: Vec<u8> = vec![0x33, 0x05, 0x01];
        self.speed.encode_param(&mut bytes);
        assert(bytes@ =~= self.wire());
        Ok(finish(bytes))
    }

    /// Decodes a received packet. The checksum is not looked at.
    pub fn decode(data: &[u8]) -> (r: Result<GoveeBlePacket, Error>)
        ensures
            match Self::parsed(data@) {
                Ok(value) => r == Ok::<GoveeBlePacket, Error>(GoveeBlePacket::SetH7105FanSpeed(value)),
                Err(e) => r == Err::<GoveeBlePacket, Error>(e),
            },
    {
        let mut value = SetH7105FanSpeed { speed: 0 };
        let prefix: [u8; 3] = [0x33, 0x05, 0x01];
        assert(prefix@ =~= seq![0x33u8, 0x05, 0x01]);
        let rest = expect_prefix(drop_checksum(data), prefix.as_slice())?;
        let rest = value.speed.decode_param(rest)?;
        assert(rest@ =~= content(data@).skip(4));
        expect_padding(rest)?;
        Ok(GoveeBlePacket::SetH7105FanSpeed(value))
    }
}

/// Tells the speed of the fan.
#[derive(Clone, Copy, Default, Debug, PartialEq, Eq)]
pub struct NotifyH7105FanSpeed {
    pub speed: u8,
}

impl NotifyH7105FanSpeed {
    /// The speed that a received packet carries.
    pub open spec fn parsed(data: Seq<u8>) -> Result<Self, Error> {
        if data.len() != 20 {
            Err(Error::H7105Length)
        } else if !(data[0] == 0xaa && data[1] == 0x05 && data[2] == 0x01) {
            Err(Error::NotFanSpeedNotification)
        } else if checksum(data.take(19)) != data[19] {
            Err(Error::Checksum)
        } else if !(1 <= data[3] <= 12) {
            Err(Error::InvalidFanSpeed)
        } else {
            Ok(NotifyH7105FanSpeed { speed: data[3] })
        }
    }

    /// Notifications come from the device: there is no command to encode.
    pub fn encode(&self) -> (r: Result<Vec<u8>, Error>)
        ensures
            r == Err::<Vec<u8>, Error>(Error::DeviceNotification(PacketKind::NotifyH7105FanSpeed)),
    {
        Err(Error::DeviceNotification(PacketKind::NotifyH7105FanSpeed))
    }

    /// Decodes a received packet.
    pub fn decode(data: &[u8]) -> (r: Result<GoveeBlePacket, Error>)
        ensures
            match Self::parsed(data@) {
                Ok(value) => r == Ok::<GoveeBlePacket, Error>(
                    GoveeBlePacket::NotifyH7105FanSpeed(value),
                ),
                Err(e) => r == Err::<GoveeBlePacket, Error>(e),
            },
    {
        if data.len() != 20 {
            return Err(Error::H7105Length);
        }
        if !(data[0] == 0xaa && data[1] == 0x05 && data[2] == 0x01) {
            return Err(Error::NotFanSpeedNotification);
        }
        assert(data@.subrange(0, 19) =~= data@.take(19));
        if calculate_checksum(&data[0..19]) != data[19] {
            return Err(Error::Checksum);
        }
        if !(1 <= data[3] && data[3] <= 12) {
            return Err(Error::InvalidFanSpeed);
        }
        Ok(GoveeBlePacket::NotifyH7105FanSpeed(NotifyH7105FanSpeed { speed: data[3] }))
    }
}

/// The ways in which the fan can blow. The byte that stands for a mode in a
/// packet is [`H7105FanMode::code`]; a cast of the variant counts from zero and
/// is not that byte.
#[derive(Clone, Copy, Default, Debug, PartialEq, Eq, Structural)]
pub enum H7105FanMode {
    #[default]
    Normal,
    Auto,
    Nature,
    Custom,
    Sleep,
}

/// The mode with a given code, if there is one.
pub open spec fn fan_mode_with_code(code: u8) -> Result<H7105FanMode, Error> {
    if code == 1 {
        Ok(H7105FanMode::Normal)
    } else if code == 2 {
        Ok(H7105FanMode::Auto)
    } else if code == 3 {
        Ok(H7105FanMode::Nature)
    } else if code == 4 {
        Ok(H7105FanMode::Custom)
    } else if code == 5 {
        Ok(H7105FanMode::Sleep)
    } else {
        Err(Error::UnknownFanMode(code))
    }
}

impl H7105FanMode {
    /// Every mode, in the order of their codes.
    pub const ALL: [Self; 5] = [
        Self::Normal,
        Self::Auto,
        Self::Nature,
        Self::Custom,
        Self::Sleep,
    ];

    /// The byte that stands for the mode.
    pub open spec fn spec_code(self) -> u8 {
        match self {
            H7105FanMode::Normal => 1,
            H7105FanMode::Auto => 2,
            H7105FanMode::Nature => 3,
            H7105FanMode::Custom => 4,
            H7105FanMode::Sleep => 5,
        }
    }

    /// The name of the mode.
    pub open spec fn spec_name(self) -> Seq<char> {
        match self {
            H7105FanMode::Normal => "Normal"@,
            H7105FanMode::Custom => "Custom"@,
            H7105FanMode::Auto => "Auto"@,
            H7105FanMode::Sleep => "Sleep"@,
            H7105FanMode::Nature => "Nature"@,
        }
    }

    /// The byte that stands for the mode.
    pub fn code(self) -> (r: u8)
        ensures
            r == self.spec_code(),
    {
        match self {
            H7105FanMode::Normal => 1,
            H7105FanMode::Auto => 2,
            H7105FanMode::Nature => 3,
            H7105FanMode::Custom => 4,
            H7105FanMode::Sleep => 5,
        }
    }

    /// The name of the mode.
    pub fn name(self) -> (r: &'static str)
        ensures
            r@ == self.spec_name(),
    {
        match self {
            H7105FanMode::Normal => "Normal",
            H7105FanMode::Custom => "Custom",
            H7105FanMode::Auto => "Auto",
            H7105FanMode::Sleep => "Sleep",
            H7105FanMode::Nature => "Nature",
        }
    }

    /// The mode with this name, in capital or small letters.
    pub fn from_name(name: &str) -> (r: Result<Self, Error>)
        ensures
            match r {
                Ok(mode) => same_but_case(mode.spec_name(), name@),
                Err(e) => {
                    &&& e is UnsupportedFanMode
                    &&& e->UnsupportedFanMode_0@ == name@
                    &&& forall|mode: H7105FanMode| !same_but_case(#[trigger] mode.spec_name(), name@)
                },
            },
    {
        let mut i: usize = 0;
        while i < 5
            invariant
                i <= 5,
                forall|mode: H7105FanMode|
                    mode.spec_code() <= i ==> !same_but_case(#[trigger] mode.spec_name(), name@),
            decreases 5 - i,
        {
            let mode = H7105FanMode::ALL[i];
            assert(mode.spec_code() == i + 1);
            if equal_ignoring_case(mode.name(), name) {
                return Ok(mode);
            }
            i = i + 1;
        }
        Err(Error::UnsupportedFanMode(name.to_owned()))
    }
}

impl TryFrom<u8> for H7105FanMode {
    type Error = Error;

    fn try_from(value: u8) -> (r: Result<Self, Error>) {
        match value {
            1 => Ok(H7105FanMode::Normal),
            2 => Ok(H7105FanMode::Auto),
            3 => Ok(H7105FanMode::Nature),
            4 => Ok(H7105FanMode::Custom),
            5 => Ok(H7105FanMode::Sleep),
            _ => Err(Error::UnknownFanMode(value)),
        }
    }
}

impl vstd::std_specs::convert::TryFromSpecImpl<u8> for H7105FanMode {
    open spec fn obeys_try_from_spec() -> bool {
        true
    }

    open spec fn try_from_spec(value: u8) -> Result<Self, Error> {
        fan_mode_with_code(value)
    }
}

impl DecodePacketParam for H7105FanMode {
    open spec fn param_len() -> nat {
        1
    }

    open spec fn param_bytes(self) -> Seq<u8> {
        seq![self.spec_code()]
    }

    open spec fn param_value(data: Seq<u8>) -> Result<Self, Error> {
        if data.len() < 1 {
            Err(Error::Eof)
        } else {
            fan_mode_with_code(data[0])
        }
    }

    proof fn law_param_round_trip(self, rest: Seq<u8>) {
    }

    fn decode_param<'a>(&mut self, data: &'a [u8]) -> (r: Result<&'a [u8], Error>) {
        let mut value: u8 = 0;
        let remain = value.decode_param(data)?;
        *self = H7105FanMode::try_from(value)?;
        Ok(remain)
    }

    fn encode_param(&self, target: &mut Vec<u8>) {
        target.push(self.code());
    }
}

/// A mode is found by its code, and a code belongs to at most one mode.
pub proof fn law_fan_mode_code_round_trip(mode: H7105FanMode, code: u8)
    ensures
        fan_mode_with_code(mode.spec_code()) == Ok::<H7105FanMode, Error>(mode),
        fan_mode_with_code(code) == Ok::<H7105FanMode, Error>(mode) ==> mode.spec_code() == code,
{
}

/// A text names at most one mode, and the name of a mode names that mode.
pub proof fn law_fan_mode_name_is_unique(name: Seq<char>, a: H7105FanMode, b: H7105FanMode)
    ensures
        same_but_case(a.spec_name(), name) && same_but_case(b.spec_name(), name) ==> a == b,
        same_but_case(a.spec_name(), a.spec_name()),
{
    reveal_strlit("Normal");
    reveal_strlit("Custom");
    reveal_strlit("Auto");
    reveal_strlit("Sleep");
    reveal_strlit("Nature");
    let x = a.spec_name();
    let y = b.spec_name();
    if same_but_case(x, name) && same_but_case(y, name) {
        assert(crate::text::ascii_lower(x[0]) == crate::text::ascii_lower(y[0]));
        assert(crate::text::ascii_lower(x[1]) == crate::text::ascii_lower(y[1]));
    }
}

/// Selects the mode of the fan.
#[derive(Clone, Copy, Default, Debug, PartialEq, Eq)]
pub struct SetH7105FanMode {
    pub mode: H7105FanMode,
}

impl SetH7105FanMode {
    /// The content of the frame that carries the value.
    pub open spec fn wire(self) -> Seq<u8> {
        seq![0x33u8, 0x05, 0x00, self.mode.spec_code()]
    }

    /// The mode that a received packet carries.
    pub open spec fn parsed(data: Seq<u8>) -> Result<Self, Error> {
        if data.len() != 20 {
            Err(Error::H7105Length)
        } else if !(data[0] == 0x33 && data[1] == 0x05 && data[2] == 0x00) {
            Err(Error::NotFanModeCommand)
        } else if checksum(data.take(19)) != data[19] {
            Err(Error::Checksum)
        } else {
            match fan_mode_with_code(data[3]) {
                Ok(mode) => Ok(SetH7105FanMode { mode }),
                Err(e) => Err(e),
            }
        }
    }

    /// Encodes the value into a frame.
    pub fn encode(&self) -> (r: Result<Vec<u8>, Error>)
        ensures
            r is Ok,
            r->Ok_0@ == frame(self.wire()),
    {
        let bytes: Vec<u8> = vec![0x33, 0x05, 0x00, self.mode.code()];
        assert(bytes@ =~= self.wire());
        Ok(finish(bytes))
    }

    /// Decodes a received packet.
    pub fn decode(data: &[u8]) -> (r: Result<GoveeBlePacket, Error>)
        ensures
            match Self::parsed(data@) {
                Ok(value) => r == Ok::<GoveeBlePacket, Error>(
                    GoveeBlePacket::SetH7105FanMode(value),
                ),
                Err(e) => r == Err::<GoveeBlePacket, Error>(e),
            },
    {
        if data.len() != 20 {
            return Err(Error::H7105Length);
        }
        if !(data[0] == 0x33 && data[1] == 0x05 && data[2] == 0x00) {
            return Err(Error::NotFanModeCommand);
        }
        assert(data@.subrange(0, 19) =~= data@.take(19));
        if calculate_checksum(&data[0..19]) != data[19] {
            return Err(Error::Checksum);
        }
        let mode = H7105FanMode::try_from(data[3])?;
        Ok(GoveeBlePacket::SetH7105FanMode(SetH7105FanMode { mode }))
    }
}

/// Tells the mode of the fan.
#[derive(Clone, Copy, Default, Debug, PartialEq, Eq)]
pub struct NotifyH7105FanMode {
    pub mode: H7105FanMode,
}

impl NotifyH7105FanMode {
    /// The mode that a received packet carries.
    pub open spec fn parsed(data: Seq<u8>) -> Result<Self, Error> {
        if data.len() != 20 {
            Err(Error::H7105Length)
        } else if !(data[0] == 0xaa && data[1] == 0x05 && data[2] == 0x00) {
            Err(Error::NotFanModeNotification)
        } else if checksum(data.take(19)) != data[19] {
            Err(Error::Checksum)
        } else {
            match fan_mode_with_code(data[3]) {
                Ok(mode) => Ok(NotifyH7105FanMode { mode }),
                Err(e) => Err(e),
            }
        }
    }

    /// Notifications come from the device: there is no command to encode.
    pub fn encode(&self) -> (r: Result<Vec<u8>, Error>)
        ensures
            r == Err::<Vec<u8>, Error>(Error::DeviceNotification(PacketKind::NotifyH7105FanMode)),
    {
        Err(Error::DeviceNotification(PacketKind::NotifyH7105FanMode))
    }

    /// Decodes a received packet.
    pub fn decode(data: &[u8]) -> (r: Result<GoveeBlePacket, Error>)
        ensures
            match Self::parsed(data@) {
                Ok(value) => r == Ok::<GoveeBlePacket, Error>(
                    GoveeBlePacket::NotifyH7105FanMode(value),
                ),
                Err(e) => r == Err::<GoveeBlePacket, Error>(e),
            },
    {
        if data.len() != 20 {
            return Err(Error::H7105Length);
        }
        if !(data[0] == 0xaa && data[1] == 0x05 && data[2] == 0x00) {
            return Err(Error::NotFanModeNotification);
        }
        assert(data@.subrange(0, 19) =~= data@.take(19));
        if calculate_checksum(&data[0..19]) != data[19] {
            return Err(Error::Checksum);
        }
        let mode = H7105FanMode::try_from(data[3])?;
        Ok(GoveeBlePacket::NotifyH7105FanMode(NotifyH7105FanMode { mode }))
    }
}

/// The modes are numbered from one in the order normal, automatic, nature,
/// custom, sleep, and no other number is a mode.
pub proof fn law_fan_mode_codes(code: u8)
    ensures
        H7105FanMode::Normal.spec_code() == 1,
        H7105FanMode::Auto.spec_code() == 2,
        H7105FanMode::Nature.spec_code() == 3,
        H7105FanMode::Custom.spec_code() == 4,
        H7105FanMode::Sleep.spec_code() == 5,
        1 <= code <= 5 ==> fan_mode_with_code(code) is Ok && fan_mode_with_code(
            code,
        )->Ok_0.spec_code() == code,
        !(1 <= code <= 5) ==> fan_mode_with_code(code) == Err::<H7105FanMode, Error>(
            Error::UnknownFanMode(code),
        ),
{
}

/// Each mode is called by its own word.
pub proof fn law_fan_mode_names()
    ensures
        H7105FanMode::Normal.spec_name() == "Normal"@,
        H7105FanMode::Auto.spec_name() == "Auto"@,
        H7105FanMode::Nature.spec_name() == "Nature"@,
        H7105FanMode::Custom.spec_name() == "Custom"@,
        H7105FanMode::Sleep.spec_name() == "Sleep"@,
{
}

/// The list of all modes holds each of them, in the order of their codes.
pub proof fn law_all_fan_modes(i: int)
    requires
        0 <= i < 5,
    ensures
        H7105FanMode::ALL[i].spec_code() == i + 1,
{
}

/// A mode field is the code of the mode, and is read by the code.
pub proof fn law_fan_mode_field(mode: H7105FanMode, data: Seq<u8>, byte: u8)
    ensures
        mode.param_bytes() == seq![mode.spec_code()],
        H7105FanMode::param_value(seq![byte] + data) == Ok::<H7105FanMode, Error>(mode) <==> byte
            == mode.spec_code(),
        !(1 <= byte <= 5) ==> H7105FanMode::param_value(seq![byte] + data) == Err::<
            H7105FanMode,
            Error,
        >(Error::UnknownFanMode(byte)),
        H7105FanMode::param_value(Seq::<u8>::empty()) == Err::<H7105FanMode, Error>(Error::Eof),
        H7105FanMode::param_len() == 1,
{
}

/// A byte converts to the mode that it is the code of, if there is one.
pub proof fn law_conversion_to_mode(code: u8, mode: H7105FanMode)
    ensures
        <H7105FanMode as vstd::std_specs::convert::TryFromSpec<u8>>::try_from_spec(code) == Ok::<
            H7105FanMode,
            Error,
        >(mode) <==> mode.spec_code() == code,
        !(1 <= code <= 5) ==> <H7105FanMode as vstd::std_specs::convert::TryFromSpec<
            u8,
        >>::try_from_spec(code) == Err::<H7105FanMode, Error>(Error::UnknownFanMode(code)),
{
}

} // verus!
