//! The power switch that several products share.

use crate::error::Error;
use crate::frame::{bool_byte, finish, frame};
use crate::packet::GoveeBlePacket;
use crate::param::{
    content, drop_checksum, expect_padding, expect_prefix, layout_error, DecodePacketParam,
};
use vstd::prelude::*;

verus! {

/// Switches the device on or off.
#[derive(Clone, Default, Debug, PartialEq, Eq)]
pub struct SetDevicePower {
    pub on: bool,
}

impl SetDevicePower {
    /// The content of the frame that carries the value.
    pub open spec fn wire(self) -> Seq<u8> {
        seq![0x33u8, 0x01, bool_byte(self.on)]
    }

    /// The value that a received packet carries.
    pub open spec fn parsed(data: Seq<u8>) -> Result<Self, Error> {
        match layout_error(content(data), seq![0x33u8, 0x01], 1) {
            Some(e) => Err(e),
            None => Ok(SetDevicePower { on: data[2] != 0 }),
        }
    }

    /// Encodes the value into a frame.
    pub fn encode(&self) -> (r: Result<Vec<u8>, Error>)
        ensures
            r is Ok,
            r->Ok_0@ == frame(self.wire()),
    {
        let mut bytes: Vec<u8> = vec![0x33, 0x01];
        self.on.encode_param(&mut bytes);
        assert(bytes@ =~= self.wire());
        Ok(finish(bytes))
    }

    /// Decodes a received packet. The checksum is not looked at.
    pub fn decode(data: &[u8]) -> (r: Result<GoveeBlePacket, Error>)
        ensures
            match Self::parsed(data@) {
                Ok(value) => r == Ok::<GoveeBlePacket, Error>(GoveeBlePacket::SetDevicePower(value)),
                Err(e) => r == Err::<GoveeBlePacket, Error>(e),
            },
    {
        let mut value = SetDevicePower { on: false };
        let prefix: [u8; 2] = [0x33, 0x01];
        assert(prefix@ =~= seq![0x33u8, 0x01]);
        let rest = expect_prefix(drop_checksum(data), prefix.as_slice())?;
        let rest = value.on.decode_param(rest)?;
        assert(rest@ =~= content(data@).skip(3));
        expect_padding(rest)?;
        Ok(GoveeBlePacket::SetDevicePower(value))
    }
}

} // verus!
