//! The night light of the H7105 fan.

use crate::error::Error;
use crate::frame::{bool_byte, finish, frame};
use crate::packet::GoveeBlePacket;
use crate::param::{
    content, drop_checksum, expect_padding, expect_prefix, layout_error, DecodePacketParam,
};
use vstd::prelude::*;

verus! {

/// Switches the night light on or off.
#[derive(Clone, Copy, Debug, PartialEq, Eq, Default)]
pub struct SetH7105NightlightPower {
    pub on: bool,
}

impl SetH7105NightlightPower {
    /// The content of the frame that carries the value.
    pub open spec fn wire(self) -> Seq<u8> {
        seq![0x3au8, 0x1b, 0x01, 0x01, bool_byte(self.on)]
    }

    /// The value that a received packet carries.
    pub open spec fn parsed(data: Seq<u8>) -> Result<Self, Error> {
        match layout_error(content(data), seq![0x3au8, 0x1b, 0x01, 0x01], 1) {
            Some(e) => Err(e),
            None => Ok(SetH7105NightlightPower { on: data[4] != 0 }),
        }
    }

    /// Encodes the value into a frame.
    pub fn encode(&self) -> (r: Result<Vec<u8>, Error>)
        ensures
            r is Ok,
            r->Ok_0@ == frame(self.wire()),
    {
        let mut bytes: Vec<u8> = vec![0x3a, 0x1b, 0x01, 0x01];
        self.on.encode_param(&mut bytes);
        assert(bytes@ =~= self.wire());
        Ok(finish(bytes))
    }

    /// Decodes a received packet. The checksum is not looked at.
    pub fn decode(data: &[u8]) -> (r: Result<GoveeBlePacket, Error>)
        ensures
            match Self::parsed(data@) {
                Ok(value) => r == Ok::<GoveeBlePacket, Error>(GoveeBlePacket::SetH7105NightlightPower(value)),
                Err(e) => r == Err::<GoveeBlePacket, Error>(e),
            },
    {
        let mut value = SetH7105NightlightPower { on: false };
        let prefix: [u8; 4] = [0x3a, 0x1b, 0x01, 0x01];
        assert(prefix@ =~= seq![0x3au8, 0x1b, 0x01, 0x01]);
        let rest = expect_prefix(drop_checksum(data), prefix.as_slice())?;
        let rest = value.on.decode_param(rest)?;
        assert(rest@ =~= content(data@).skip(5));
        expect_padding(rest)?;
        Ok(GoveeBlePacket::SetH7105NightlightPower(value))
    }
}

/// Sets the brightness of the night light.
#[derive(Clone, Copy, Debug, PartialEq, Eq, Default)]
pub struct SetH7105NightlightBrightness {
    pub brightness: u8,
}

impl SetH7105NightlightBrightness {
    /// The content of the frame that carries the value.
    pub open spec fn wire(self) -> Seq<u8> {
        seq![0x3au8, 0x1b, 0x01, 0x02, self.brightness]
    }

    /// The value that a received packet carries.
    pub open spec fn parsed(data: Seq<u8>) -> Result<Self, Error> {
        match layout_error(content(data), seq![0x3au8, 0x1b, 0x01, 0x02], 1) {
            Some(e) => Err(e),
            None => Ok(SetH7105NightlightBrightness { brightness: data[4] }),
        }
    }

    /// Encodes the value into a frame.
    pub fn encode(&self) -> (r: Result<Vec<u8>, Error>)
        ensures
            r is Ok,
            r->Ok_0@ == frame(self.wire()),
    {
        let mut bytes: Vec<u8> = vec![0x3a, 0x1b, 0x01, 0x02];
        self.brightness.encode_param(&mut bytes);
        assert(bytes@ =~= self.wire());
        Ok(finish(bytes))
    }

    /// Decodes a received packet. The checksum is not looked at.
    pub fn decode(data: &[u8]) -> (r: Result<GoveeBlePacket, Error>)
        ensures
            match Self::parsed(data@) {
                Ok(value) => r == Ok::<GoveeBlePacket, Error>(GoveeBlePacket::SetH7105NightlightBrightness(value)),
                Err(e) => r == Err::<GoveeBlePacket, Error>(e),
            },
    {
        let mut value = SetH7105NightlightBrightness { brightness: 0 };
        let prefix: [u8; 4] = [0x3a, 0x1b, 0x01, 0x02];
        assert(prefix@ =~= seq![0x3au8, 0x1b, 0x01, 0x02]);
        let rest = expect_prefix(drop_checksum(data), prefix.as_slice())?;
        let rest = value.brightness.decode_param(rest)?;
        assert(rest@ =~= content(data@).skip(5));
        expect_padding(rest)?;
        Ok(GoveeBlePacket::SetH7105NightlightBrightness(value))
    }
}

/// Sets the colour of the night light.
#[derive(Clone, Copy, Debug, PartialEq, Eq, Default)]
pub struct SetH7105NightlightColor {
    pub r: u8,
    pub g: u8,
    pub b: u8,
}

impl SetH7105NightlightColor {
    /// The content of the frame that carries the value.
    pub open spec fn wire(self) -> Seq<u8> {
        seq![0x3au8, 0x1b, 0x05, 0x0d, self.r, self.g, self.b]
    }

    /// The value that a received packet carries.
    pub open spec fn parsed(data: Seq<u8>) -> Result<Self, Error> {
        match layout_error(content(data), seq![0x3au8, 0x1b, 0x05, 0x0d], 3) {
            Some(e) => Err(e),
            None => Ok(SetH7105NightlightColor { r: data[4], g: data[5], b: data[6] }),
        }
    }

    /// Encodes the value into a frame.
    pub fn encode(&self) -> (r: Result<Vec<u8>, Error>)
        ensures
            r is Ok,
            r->Ok_0@ == frame(self.wire()),
    {
        let mut bytes: Vec<u8> = vec![0x3a, 0x1b, 0x05, 0x0d];
        self.r.encode_param(&mut bytes);
        self.g.encode_param(&mut bytes);
        self.b.encode_param(&mut bytes);
        assert(bytes@ =~= self.wire());
        Ok(finish(bytes))
    }

    /// Decodes a received packet. The checksum is not looked at.
    pub fn decode(data: &[u8]) -> (r: Result<GoveeBlePacket, Error>)
        ensures
            match Self::parsed(data@) {
                Ok(value) => r == Ok::<GoveeBlePacket, Error>(GoveeBlePacket::SetH7105NightlightColor(value)),
                Err(e) => r == Err::<GoveeBlePacket, Error>(e),
            },
    {
        let mut value = SetH7105NightlightColor { r: 0, g: 0, b: 0 };
        let prefix: [u8; 4] = [0x3a, 0x1b, 0x05, 0x0d];
        assert(prefix@ =~= seq![0x3au8, 0x1b, 0x05, 0x0d]);
        let rest = expect_prefix(drop_checksum(data), prefix.as_slice())?;
        let rest = value.r.decode_param(rest)?;
        let rest = value.g.decode_param(rest)?;
        let rest = value.b.decode_param(rest)?;
        assert(rest@ =~= content(data@).skip(7));
        expect_padding(rest)?;
        Ok(GoveeBlePacket::SetH7105NightlightColor(value))
    }
}

/// Tells whether the night light is on, and how bright it is.
#[derive(Clone, Copy, Debug, PartialEq, Eq, Default)]
pub struct NotifyH7105NightlightState {
    pub on: bool,
    pub brightness: u8,
}

impl NotifyH7105NightlightState {
    /// The content of the frame that carries the value.
    pub open spec fn wire(self) -> Seq<u8> {
        seq![0xaau8, 0x1b, 0x01, bool_byte(self.on), self.brightness]
    }

    /// The value that a received packet carries.
    pub open spec fn parsed(data: Seq<u8>) -> Result<Self, Error> {
        match layout_error(content(data), seq![0xaau8, 0x1b, 0x01], 2) {
            Some(e) => Err(e),
            None => Ok(NotifyH7105NightlightState { on: data[3] != 0, brightness: data[4] }),
        }
    }

    /// Encodes the value into a frame.
    pub fn encode(&self) -> (r: Result<Vec<u8>, Error>)
        ensures
            r is Ok,
            r->Ok_0@ == frame(self.wire()),
    {
        let mut bytes: Vec<u8> = vec![0xaa, 0x1b, 0x01];
        self.on.encode_param(&mut bytes);
        self.brightness.encode_param(&mut bytes);
        assert(bytes@ =~= self.wire());
        Ok(finish(bytes))
    }

    /// Decodes a received packet. The checksum is not looked at.
    pub fn decode(data: &[u8]) -> (r: Result<GoveeBlePacket, Error>)
        ensures
            match Self::parsed(data@) {
                Ok(value) => r == Ok::<GoveeBlePacket, Error>(GoveeBlePacket::NotifyH7105NightlightState(value)),
                Err(e) => r == Err::<GoveeBlePacket, Error>(e),
            },
    {
        let mut value = NotifyH7105NightlightState { on: false, brightness: 0 };
        let prefix: [u8; 3] = [0xaa, 0x1b, 0x01];
        assert(prefix@ =~= seq![0xaau8, 0x1b, 0x01]);
        let rest = expect_prefix(drop_checksum(data), prefix.as_slice())?;
        let rest = value.on.decode_param(rest)?;
        let rest = value.brightness.decode_param(rest)?;
        assert(rest@ =~= content(data@).skip(5));
        expect_padding(rest)?;
        Ok(GoveeBlePacket::NotifyH7105NightlightState(value))
    }
}

/// Tells the colour of the night light.
#[derive(Clone, Copy, Debug, PartialEq, Eq, Default)]
pub struct NotifyH7105NightlightColor {
    pub r: u8,
    pub g: u8,
    pub b: u8,
}

impl NotifyH7105NightlightColor {
    /// The content of the frame that carries the value.
    pub open spec fn wire(self) -> Seq<u8> {
        seq![0xaau8, 0x1b, 0x05, 0x0d, self.r, self.g, self.b]
    }

    /// The value that a received packet carries.
    pub open spec fn parsed(data: Seq<u8>) -> Result<Self, Error> {
        match layout_error(content(data), seq![0xaau8, 0x1b, 0x05, 0x0d], 3) {
            Some(e) => Err(e),
            None => Ok(NotifyH7105NightlightColor { r: data[4], g: data[5], b: data[6] }),
        }
    }

    /// Encodes the value into a frame.
    pub fn encode(&self) -> (r: Result<Vec<u8>, Error>)
        ensures
            r is Ok,
            r->Ok_0@ == frame(self.wire()),
    {
        let mut bytes: Vec<u8> = vec![0xaa, 0x1b, 0x05, 0x0d];
        self.r.encode_param(&mut bytes);
        self.g.encode_param(&mut bytes);
        self.b.encode_param(&mut bytes);
        assert(bytes@ =~= self.wire());
        Ok(finish(bytes))
    }

    /// Decodes a received packet. The checksum is not looked at.
    pub fn decode(data: &[u8]) -> (r: Result<GoveeBlePacket, Error>)
        ensures
            match Self::parsed(data@) {
                Ok(value) => r == Ok::<GoveeBlePacket, Error>(GoveeBlePacket::NotifyH7105NightlightColor(value)),
                Err(e) => r == Err::<GoveeBlePacket, Error>(e),
            },
    {
        let mut value = NotifyH7105NightlightColor { r: 0, g: 0, b: 0 };
        let prefix: [u8; 4] = [0xaa, 0x1b, 0x05, 0x0d];
        assert(prefix@ =~= seq![0xaau8, 0x1b, 0x05, 0x0d]);
        let rest = expect_prefix(drop_checksum(data), prefix.as_slice())?;
        let rest = value.r.decode_param(rest)?;
        let rest = value.g.decode_param(rest)?;
        let rest = value.b.decode_param(rest)?;
        assert(rest@ =~= content(data@).skip(7));
        expect_padding(rest)?;
        Ok(GoveeBlePacket::NotifyH7105NightlightColor(value))
    }
}

} // verus!
