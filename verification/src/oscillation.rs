//! Oscillation of the H7105 fan.

use crate::error::Error;
use crate::frame::{bool_byte, btoi, calculate_checksum, checksum, finish, frame};
use crate::h5086::u16_be;
use crate::kind::PacketKind;
use crate::packet::GoveeBlePacket;
use vstd::prelude::*;

verus! {

/// Switches the oscillation and sets its range.
#[derive(Clone, Copy, Default, Debug, PartialEq, Eq)]
pub struct SetH7105Oscillation {
    pub oscillating: bool,
    pub params: [u8; 5],
}

impl SetH7105Oscillation {
    /// The content of the frame that carries the value.
    pub open spec fn wire(self) -> Seq<u8> {
        seq![0x3au8, 0x1d, bool_byte(self.oscillating)] + self.params@
    }

    /// The value that a received packet carries.
    pub open spec fn parsed(data: Seq<u8>) -> Result<Self, Error> {
        if data.len() != 20 {
            Err(Error::H7105Length)
        } else if !(data[0] == 0x3a && data[1] == 0x1d) {
            Err(Error::NotOscillationCommand)
        } else if !(data[2] == 0 || data[2] == 1) {
            Err(Error::InvalidOscillationValue)
        } else if checksum(data.take(19)) != data[19] {
            Err(Error::Checksum)
        } else {
            Ok(
                SetH7105Oscillation {
                    oscillating: data[2] == 1,
                    params: [data[3], data[4], data[5], data[6], data[7]],
                },
            )
        }
    }

    /// Encodes the value into a frame.
    pub fn encode(&self) -> (r: Result<Vec<u8>, Error>)
        ensures
            r is Ok,
            r->Ok_0@ == frame(self.wire()),
    {
        let mut bytes: Vec<u8> = vec![0x3a, 0x1d, btoi(self.oscillating)];
        bytes.extend_from_slice(self.params.as_slice());
        assert(bytes@ =~= self.wire());
        Ok(finish(bytes))
    }

    /// Decodes a received packet.
    pub fn decode(data: &[u8]) -> (r: Result<GoveeBlePacket, Error>)
        ensures
            match Self::parsed(data@) {
                Ok(value) => r == Ok::<GoveeBlePacket, Error>(
                    GoveeBlePacket::SetH7105Oscillation(value),
                ),
                Err(e) => r == Err::<GoveeBlePacket, Error>(e),
            },
    {
        if data.len() != 20 {
            return Err(Error::H7105Length);
        }
        if !(data[0] == 0x3a && data[1] == 0x1d) {
            return Err(Error::NotOscillationCommand);
        }
        if !(data[2] == 0 || data[2] == 1) {
            return Err(Error::InvalidOscillationValue);
        }
        assert(data@.subrange(0, 19) =~= data@.take(19));
        if calculate_checksum(&data[0..19]) != data[19] {
            return Err(Error::Checksum);
        }
        Ok(
            GoveeBlePacket::SetH7105Oscillation(
                SetH7105Oscillation {
                    oscillating: data[2] == 1,
                    params: [data[3], data[4], data[5], data[6], data[7]],
                },
            ),
        )
    }
}

/// Tells whether the fan oscillates, and in which range.
#[derive(Clone, Copy, Default, Debug, PartialEq, Eq)]
pub struct NotifyH7105Oscillation {
    pub oscillating: bool,
    pub params: [u8; 5],
}

impl NotifyH7105Oscillation {
    /// The value that a received packet carries.
    pub open spec fn parsed(data: Seq<u8>) -> Result<Self, Error> {
        if data.len() != 20 {
            Err(Error::H7105Length)
        } else if !(data[0] == 0xaa && data[1] == 0x1d && (data[2] == 0 || data[2] == 1)) {
            Err(Error::NotOscillationNotification)
        } else if checksum(data.take(19)) != data[19] {
            Err(Error::Checksum)
        } else {
            Ok(
                NotifyH7105Oscillation {
                    oscillating: data[2] == 1,
                    params: [data[3], data[4], data[5], data[6], data[7]],
                },
            )
        }
    }

    /// Notifications come from the device: there is no command to encode.
    pub fn encode(&self) -> (r: Result<Vec<u8>, Error>)
        ensures
            r == Err::<Vec<u8>, Error>(
                Error::DeviceNotification(PacketKind::NotifyH7105Oscillation),
            ),
    {
        Err(Error::DeviceNotification(PacketKind::NotifyH7105Oscillation))
    }

    /// Decodes a received packet.
    pub fn decode(data: &[u8]) -> (r: Result<GoveeBlePacket, Error>)
        ensures
            match Self::parsed(data@) {
                Ok(value) => r == Ok::<GoveeBlePacket, Error>(
                    GoveeBlePacket::NotifyH7105Oscillation(value),
                ),
                Err(e) => r == Err::<GoveeBlePacket, Error>(e),
            },
    {
        if data.len() != 20 {
            return Err(Error::H7105Length);
        }
        if !(data[0] == 0xaa && data[1] == 0x1d && (data[2] == 0 || data[2] == 1)) {
            return Err(Error::NotOscillationNotification);
        }
        assert(data@.subrange(0, 19) =~= data@.take(19));
        if calculate_checksum(&data[0..19]) != data[19] {
            return Err(Error::Checksum);
        }
        Ok(
            GoveeBlePacket::NotifyH7105Oscillation(
                NotifyH7105Oscillation {
                    oscillating: data[2] == 1,
                    params: [data[3], data[4], data[5], data[6], data[7]],
                },
            ),
        )
    }
}

/// The range that the fan swings through, in degrees from the centre.
#[derive(Clone, Copy, Debug, PartialEq, Eq)]
pub struct H7105OscillationConfig {
    pub speed: u8,
    pub start_degrees: i8,
    pub end_degrees: i8,
    pub flags: u8,
}

/// The position of the centre, in tenths of a degree, as the two bytes say it
/// when they are read as a signed number.
pub open spec fn center_tenths(params: [u8; 5]) -> int {
    let position = params[2] * 256 + params[3];
    900 - if position >= 32768 {
        position - 65536
    } else {
        position
    }
}

/// Where the range starts, in tenths of a degree.
pub open spec fn start_tenths(params: [u8; 5]) -> int {
    center_tenths(params) - params[1] * 5
}

/// Where the range ends, in tenths of a degree.
pub open spec fn end_tenths(params: [u8; 5]) -> int {
    center_tenths(params) + params[1] * 5
}

/// Whether centre, start and end of the range all fit in 16 bits.
pub open spec fn tenths_fit(params: [u8; 5]) -> bool {
    &&& i16::MIN <= start_tenths(params)
    &&& end_tenths(params) <= i16::MAX
}

impl H7105OscillationConfig {
    /// The configuration that the parameters of a packet say.
    pub open spec fn of_params(params: [u8; 5]) -> Result<Self, Error> {
        let start = start_tenths(params);
        let end = end_tenths(params);
        if !(params[0] == 1 || params[0] == 3) {
            Err(Error::OscillationSpeed)
        } else if !(params[4] == 0 || params[4] == 1) {
            Err(Error::SymmetryFlag)
        } else if !(start % 10 == 0 && end % 10 == 0) {
            Err(Error::NotWholeDegrees)
        } else if !(-128 <= start / 10 <= 127 && -128 <= end / 10 <= 127) {
            Err(Error::DegreesOverflow)
        } else if !(-75 <= start / 10 <= 75 && -75 <= end / 10 <= 75) {
            Err(Error::DegreesOutOfRange)
        } else {
            Ok(
                H7105OscillationConfig {
                    speed: params[0],
                    start_degrees: (start / 10) as i8,
                    end_degrees: (end / 10) as i8,
                    flags: params[4],
                },
            )
        }
    }

    /// The parameters of a packet that say this configuration.
    pub open spec fn spec_params(self) -> Result<[u8; 5], Error> {
        let span = self.end_degrees - self.start_degrees;
        let position = 900 - (self.start_degrees + self.end_degrees) * 5;
        if !(self.speed == 1 || self.speed == 3) {
            Err(Error::OscillationSpeed)
        } else if !(-75 <= self.start_degrees <= 75 && -75 <= self.end_degrees <= 75) {
            Err(Error::DegreesOutOfRange)
        } else if self.start_degrees >= self.end_degrees {
            Err(Error::StartNotBelowEnd)
        } else {
            Ok([
                self.speed,
                span as u8,
                (position / 256) as u8,
                (position % 256) as u8,
                self.flags,
            ])
        }
    }

    /// Whether the parameters are near enough for [`H7105OscillationConfig::from_params`].
    pub fn fits(params: [u8; 5]) -> (r: bool)
        ensures
            r == tenths_fit(params),
    {
        let unsigned = u16_be(params[2], params[3]) as i32;
        let position: i32 = if unsigned >= 32768 {
            unsigned - 65536
        } else {
            unsigned
        };
        let center: i32 = 900 - position;
        let half: i32 = params[1] as i32 * 5;
        center - half >= i16::MIN as i32 && center + half <= i16::MAX as i32
    }

    /// Reads the parameters of a packet.
    pub fn from_params(params: [u8; 5]) -> (r: Result<Self, Error>)
        requires
            tenths_fit(params),
        ensures
            r == Self::of_params(params),
    {
        let speed = params[0];
        let span = params[1] as i16;
        let unsigned = u16_be(params[2], params[3]);
        let position = unsigned as i16;
        assert(position == if unsigned >= 32768 { unsigned - 65536 } else { unsigned as int }) by {
            assert(unsigned >= 32768 ==> (unsigned as i16) == unsigned - 65536) by (bit_vector);
            assert(unsigned < 32768 ==> (unsigned as i16) == unsigned) by (bit_vector);
        }
        let center_tenths: i16 = 900 - position;
        let start_tenths: i16 = center_tenths - span * 5;
        let end_tenths: i16 = center_tenths + span * 5;
        if !(speed == 1 || speed == 3) {
            return Err(Error::OscillationSpeed);
        }
        if !(params[4] == 0 || params[4] == 1) {
            return Err(Error::SymmetryFlag);
        }
        if !(start_tenths % 10 == 0 && end_tenths % 10 == 0) {
            return Err(Error::NotWholeDegrees);
        }
        let start: i16 = start_tenths / 10;
        let end: i16 = end_tenths / 10;
        if !(-128 <= start && start <= 127 && -128 <= end && end <= 127) {
            return Err(Error::DegreesOverflow);
        }
        if !(-75 <= start && start <= 75 && -75 <= end && end <= 75) {
            return Err(Error::DegreesOutOfRange);
        }
        Ok(
            H7105OscillationConfig {
                speed,
                start_degrees: start as i8,
                end_degrees: end as i8,
                flags: params[4],
            },
        )
    }

    /// The parameters of a packet that say this configuration.
    pub fn to_params(self) -> (r: Result<[u8; 5], Error>)
        ensures
            r == self.spec_params(),
    {
        if !(self.speed == 1 || self.speed == 3) {
            return Err(Error::OscillationSpeed);
        }
        if !(-75 <= self.start_degrees && self.start_degrees <= 75 && -75 <= self.end_degrees
            && self.end_degrees <= 75) {
            return Err(Error::DegreesOutOfRange);
        }
        if self.start_degrees >= self.end_degrees {
            return Err(Error::StartNotBelowEnd);
        }
        let span: i16 = self.end_degrees as i16 - self.start_degrees as i16;
        let position: i16 = 900 - (self.start_degrees as i16 + self.end_degrees as i16) * 5;
        let position: u16 = position as u16;
        Ok([
            self.speed,
            span as u8,
            (position / 256) as u8,
            (position % 256) as u8,
            self.flags,
        ])
    }
}

/// The parameters that say a configuration are read back as it, if its flag is
/// one that may be read.
pub proof fn law_config_round_trip(config: H7105OscillationConfig)
    requires
        config.spec_params() is Ok,
        config.flags <= 1,
    ensures
        tenths_fit(config.spec_params()->Ok_0),
        H7105OscillationConfig::of_params(config.spec_params()->Ok_0) == Ok::<
            H7105OscillationConfig,
            Error,
        >(config),
{
}

/// A configuration that was read is said by the parameters it was read from, if
/// they span a range at all.
pub proof fn law_params_round_trip(params: [u8; 5])
    requires
        H7105OscillationConfig::of_params(params) is Ok,
        params[1] > 0,
    ensures
        tenths_fit(params),
        H7105OscillationConfig::of_params(params)->Ok_0.spec_params() == Ok::<[u8; 5], Error>(
            params,
        ),
{
    let config = H7105OscillationConfig::of_params(params)->Ok_0;
    assert(config.spec_params()->Ok_0 =~= params);
}

/// Parameters that span no range are read, but what was read cannot be sent.
pub proof fn law_empty_range_is_not_sent(params: [u8; 5])
    requires
        H7105OscillationConfig::of_params(params) is Ok,
        params[1] == 0,
    ensures
        H7105OscillationConfig::of_params(params)->Ok_0.spec_params() == Err::<[u8; 5], Error>(
            Error::StartNotBelowEnd,
        ),
{
}

/// A configuration that can be sent, or that was read, lies within 75 degrees of
/// the centre on either side.
pub proof fn law_range_is_bounded(config: H7105OscillationConfig, params: [u8; 5])
    requires
        config.spec_params() is Ok || H7105OscillationConfig::of_params(params) == Ok::<
            H7105OscillationConfig,
            Error,
        >(config),
    ensures
        -75 <= config.start_degrees <= config.end_degrees <= 75,
{
}

/// A range that was read spans as many degrees as the second parameter says. Its
/// ends lie around the point that the third and fourth say, in tenths of a degree
/// down from 90 degrees. Speed and flag are taken over.
pub proof fn law_range_that_was_read(params: [u8; 5], config: H7105OscillationConfig)
    requires
        H7105OscillationConfig::of_params(params) == Ok::<H7105OscillationConfig, Error>(config),
    ensures
        config.end_degrees - config.start_degrees == params[1],
        5 * (config.start_degrees + config.end_degrees) == 900 - (256 * params[2] + params[3]),
        config.speed == params[0],
        config.flags == params[4],
        config.speed == 1 || config.speed == 3,
        config.flags == 0 || config.flags == 1,
        -75 <= config.start_degrees,
        config.end_degrees <= 75,
{
}

/// Every range of whole degrees within 75 degrees of the centre can be read, at
/// low and at high speed and with either flag.
pub proof fn law_ranges_that_can_be_read(params: [u8; 5], start: int, end: int)
    requires
        params[0] == 1 || params[0] == 3,
        params[4] == 0 || params[4] == 1,
        -75 <= start <= end <= 75,
        end - start == params[1],
        5 * (start + end) == 900 - (256 * params[2] + params[3]),
    ensures
        tenths_fit(params),
        H7105OscillationConfig::of_params(params) is Ok,
        H7105OscillationConfig::of_params(params)->Ok_0.start_degrees == start,
        H7105OscillationConfig::of_params(params)->Ok_0.end_degrees == end,
{
}

/// Why parameters are refused. Speed comes first, then the flag, then ends that
/// are not whole degrees, then ends that are too far away.
pub proof fn law_ranges_that_are_refused(params: [u8; 5])
    ensures
        ({
            let word = 256 * params[2] + params[3];
            let position = if word < 32768 {
                word
            } else {
                word - 65536
            };
            let low = 900 - position - 5 * params[1];
            let high = 900 - position + 5 * params[1];
            let speed = params[0] == 1 || params[0] == 3;
            let flag = params[4] == 0 || params[4] == 1;
            let whole = low % 10 == 0 && high % 10 == 0;
            let r = H7105OscillationConfig::of_params(params);
            &&& tenths_fit(params) <==> low >= -32768 && high <= 32767
            &&& !speed <==> r == Err::<H7105OscillationConfig, Error>(Error::OscillationSpeed)
            &&& speed && !flag <==> r == Err::<H7105OscillationConfig, Error>(Error::SymmetryFlag)
            &&& speed && flag && !whole <==> r == Err::<H7105OscillationConfig, Error>(
                Error::NotWholeDegrees,
            )
            &&& speed && flag && whole && (low < -1280 || high > 1270 || low > 1270 || high
                < -1280) <==> r == Err::<H7105OscillationConfig, Error>(Error::DegreesOverflow)
            &&& speed && flag && whole && -1280 <= low && high <= 1270 && (low < -750 || high
                > 750) <==> r == Err::<H7105OscillationConfig, Error>(Error::DegreesOutOfRange)
            &&& speed && flag && whole && -750 <= low && high <= 750 <==> r is Ok
        }),
{
}

/// The parameters of a configuration say its speed, how many degrees it spans,
/// where its middle is and its flag.
pub proof fn law_params_of_range(config: H7105OscillationConfig, params: [u8; 5])
    requires
        config.spec_params() == Ok::<[u8; 5], Error>(params),
    ensures
        params[0] == config.speed,
        params[1] == config.end_degrees - config.start_degrees,
        256 * params[2] + params[3] == 900 - 5 * (config.start_degrees + config.end_degrees),
        params[4] == config.flags,
{
}

/// Why a configuration is refused. Speed comes first, then ends that are too far
/// away, then a start that is not below the end. Everything else can be sent.
pub proof fn law_ranges_that_are_not_sent(config: H7105OscillationConfig)
    ensures
        ({
            let speed = config.speed == 1 || config.speed == 3;
            let near = -75 <= config.start_degrees <= 75 && -75 <= config.end_degrees <= 75;
            let r = config.spec_params();
            &&& !speed <==> r == Err::<[u8; 5], Error>(Error::OscillationSpeed)
            &&& speed && !near <==> r == Err::<[u8; 5], Error>(Error::DegreesOutOfRange)
            &&& speed && near && config.start_degrees >= config.end_degrees <==> r == Err::<
                [u8; 5],
                Error,
            >(Error::StartNotBelowEnd)
            &&& speed && near && config.start_degrees < config.end_degrees <==> r is Ok
        }),
{
}

} // verus!
