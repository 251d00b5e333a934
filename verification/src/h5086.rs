//! Power readings of the H5086 smart plug.

use crate::error::Error;
use crate::frame::{calculate_checksum, checksum};
use crate::kind::PacketKind;
use crate::packet::GoveeBlePacket;
use vstd::prelude::*;

verus! {

/// The 24-bit big-endian number at position `i`.
pub open spec fn u24_at(data: Seq<u8>, i: int) -> u32 {
    (data[i] * 65536 + data[i + 1] * 256 + data[i + 2]) as u32
}

/// The 16-bit big-endian number at position `i`.
pub open spec fn u16_at(data: Seq<u8>, i: int) -> u16 {
    (data[i] * 256 + data[i + 1]) as u16
}

/// The 16-bit number with these two bytes.
pub fn u16_be(hi: u8, lo: u8) -> (r: u16)
    ensures
        r == hi * 256 + lo,
{
    hi as u16 * 256 + lo as u16
}

/// What a plug measures.
#[derive(Clone, Copy, Default, Debug, PartialEq, Eq)]
pub struct H5086PowerReading {
    pub powered_on_seconds: u32,
    pub energy_deci_watt_hours: u32,
    pub voltage_centivolts: u16,
    pub current_centi_amps: u16,
    pub power_centi_watts: u32,
    pub power_factor_percent: u8,
}

impl H5086PowerReading {
    /// The reading that a received packet carries.
    pub open spec fn parsed(data: Seq<u8>) -> Result<Self, Error> {
        if data.len() != 20 {
            Err(Error::H5086Length)
        } else if !((data[0] == 0xaa || data[0] == 0xee) && data[1] == 0x19) {
            Err(Error::NotH5086PowerReading)
        } else if checksum(data.take(19)) != data[19] {
            Err(Error::H5086Checksum)
        } else {
            Ok(
                H5086PowerReading {
                    powered_on_seconds: u24_at(data, 2),
                    energy_deci_watt_hours: u24_at(data, 5),
                    voltage_centivolts: u16_at(data, 8),
                    current_centi_amps: u16_at(data, 10),
                    power_centi_watts: u24_at(data, 12),
                    power_factor_percent: data[15],
                },
            )
        }
    }

    /// The 24-bit big-endian number that `data` starts with.
    pub fn u24_be(data: &[u8]) -> (r: u32)
        requires
            data@.len() >= 3,
        ensures
            r == data@[0] * 65536 + data@[1] * 256 + data@[2],
    {
        data[0] as u32 * 65536 + data[1] as u32 * 256 + data[2] as u32
    }

    /// Readings come from the device: there is no command to encode.
    pub fn encode(&self) -> (r: Result<Vec<u8>, Error>)
        ensures
            r == Err::<Vec<u8>, Error>(Error::DeviceNotification(PacketKind::H5086PowerReading)),
    {
        Err(Error::DeviceNotification(PacketKind::H5086PowerReading))
    }

    /// Decodes a received packet.
    pub fn decode(data: &[u8]) -> (r: Result<GoveeBlePacket, Error>)
        ensures
            match Self::parsed(data@) {
                Ok(value) => r == Ok::<GoveeBlePacket, Error>(
                    GoveeBlePacket::H5086PowerReading(value),
                ),
                Err(e) => r == Err::<GoveeBlePacket, Error>(e),
            },
    {
        if data.len() != 20 {
            return Err(Error::H5086Length);
        }
        if !((data[0] == 0xaa || data[0] == 0xee) && data[1] == 0x19) {
            return Err(Error::NotH5086PowerReading);
        }
        assert(data@.subrange(0, 19) =~= data@.take(19));
        if calculate_checksum(&data[0..19]) != data[19] {
            return Err(Error::H5086Checksum);
        }
        Ok(
            GoveeBlePacket::H5086PowerReading(
                H5086PowerReading {
                    powered_on_seconds: Self::u24_be(&data[2..5]),
                    energy_deci_watt_hours: Self::u24_be(&data[5..8]),
                    voltage_centivolts: u16_be(data[8], data[9]),
                    current_centi_amps: u16_be(data[10], data[11]),
                    power_centi_watts: Self::u24_be(&data[12..15]),
                    power_factor_percent: data[15],
                },
            ),
        )
    }

    /// The power factor in percent: a reading above 100 counts as 100.
    pub open spec fn spec_power_factor(self) -> u8 {
        if self.power_factor_percent > 100 {
            100
        } else {
            self.power_factor_percent
        }
    }

    /// The power factor in percent: a reading above 100 counts as 100.
    pub fn power_factor_percent(self) -> (r: u8)
        ensures
            r == self.spec_power_factor(),
            r <= 100,
            self.power_factor_percent <= 100 ==> r == self.power_factor_percent,
            self.power_factor_percent >= 100 ==> r == 100,
    {
        if self.power_factor_percent > 100 {
            100
        } else {
            self.power_factor_percent
        }
    }
}

/// A power factor of up to 100 is taken over, and any other counts as 100.
pub proof fn law_power_factor_is_capped(reading: H5086PowerReading)
    ensures
        reading.power_factor_percent <= 100 ==> reading.spec_power_factor()
            == reading.power_factor_percent,
        reading.power_factor_percent >= 100 ==> reading.spec_power_factor() == 100,
{
}

/// Numbers of several bytes have their highest byte in front.
pub proof fn law_numbers_in_packets(data: Seq<u8>, i: int)
    ensures
        u24_at(data, i) == 65536 * data[i] + 256 * data[i + 1] + data[i + 2],
        u16_at(data, i) == 256 * data[i] + data[i + 1],
{
}

} // verus!
