//! Fields of a packet, and the layout that they stand in.

use crate::error::Error;
use crate::frame::{btoi, itob};
use vstd::prelude::*;

verus! {

/// A value that is a field of a packet.
pub trait DecodePacketParam: Sized {
    /// How many bytes the field takes.
    spec fn param_len() -> nat;

    /// The bytes that stand for this value in a packet.
    spec fn param_bytes(self) -> Seq<u8>;

    /// The value that stands at the front of `data`.
    spec fn param_value(data: Seq<u8>) -> Result<Self, Error>;

    /// What is written is read back, whatever follows.
    proof fn law_param_round_trip(self, rest: Seq<u8>)
        ensures
            self.param_bytes().len() == Self::param_len(),
            Self::param_value(self.param_bytes() + rest) == Ok::<Self, Error>(self),
    ;

    /// Reads the value from the front of `data` and returns what follows.
    /// On failure the value stays as it was.
    fn decode_param<'a>(&mut self, data: &'a [u8]) -> (r: Result<&'a [u8], Error>)
        ensures
            match Self::param_value(data@) {
                Ok(value) => {
                    &&& *final(self) == value
                    &&& r is Ok
                    &&& data@.len() >= Self::param_len()
                    &&& r->Ok_0@ == data@.skip(Self::param_len() as int)
                },
                Err(e) => *final(self) == *old(self) && r == Err::<&'a [u8], Error>(e),
            },
    ;

    /// Writes the value behind what `target` holds.
    fn encode_param(&self, target: &mut Vec<u8>)
        ensures
            final(target)@ == old(target)@ + self.param_bytes(),
    ;
}

impl DecodePacketParam for u8 {
    open spec fn param_len() -> nat {
        1
    }

    open spec fn param_bytes(self) -> Seq<u8> {
        seq![self]
    }

    open spec fn param_value(data: Seq<u8>) -> Result<Self, Error> {
        if data.len() < 1 {
            Err(Error::Eof)
        } else {
            Ok(data[0])
        }
    }

    proof fn law_param_round_trip(self, rest: Seq<u8>) {
    }

    fn decode_param<'a>(&mut self, data: &'a [u8]) -> (r: Result<&'a [u8], Error>) {
        if data.len() < 1 {
            return Err(Error::Eof);
        }
        *self = data[0];
        Ok(&data[1..data.len()])
    }

    fn encode_param(&self, target: &mut Vec<u8>) {
        target.push(*self);
    }
}

/// Little-endian.
impl DecodePacketParam for u16 {
    open spec fn param_len() -> nat {
        2
    }

    open spec fn param_bytes(self) -> Seq<u8> {
        seq![(self % 256) as u8, (self / 256) as u8]
    }

    open spec fn param_value(data: Seq<u8>) -> Result<Self, Error> {
        if data.len() < 2 {
            Err(Error::Eof)
        } else {
            Ok((data[1] * 256 + data[0]) as u16)
        }
    }

    proof fn law_param_round_trip(self, rest: Seq<u8>) {
    }

    fn decode_param<'a>(&mut self, data: &'a [u8]) -> (r: Result<&'a [u8], Error>) {
        if data.len() < 2 {
            return Err(Error::Eof);
        }
        let lo = data[0];
        let hi = data[1];
        *self = ((hi as u16) << 8) | lo as u16;
        assert(((hi as u16) << 8u16) | (lo as u16) == (hi as u16) * 256 + (lo as u16))
            by (bit_vector);
        Ok(&data[2..data.len()])
    }

    fn encode_param(&self, target: &mut Vec<u8>) {
        let value = *self;
        let hi = (value >> 8) as u8;
        let lo = (value & 0xff) as u8;
        assert((value >> 8u16) == value / 256) by (bit_vector);
        assert((value & 0xff) == value % 256) by (bit_vector);
        target.push(lo);
        target.push(hi);
    }
}

/// Written as zero or one; every byte but zero reads as on.
impl DecodePacketParam for bool {
    open spec fn param_len() -> nat {
        1
    }

    open spec fn param_bytes(self) -> Seq<u8> {
        seq![crate::frame::bool_byte(self)]
    }

    open spec fn param_value(data: Seq<u8>) -> Result<Self, Error> {
        if data.len() < 1 {
            Err(Error::Eof)
        } else {
            Ok(data[0] != 0)
        }
    }

    proof fn law_param_round_trip(self, rest: Seq<u8>) {
    }

    fn decode_param<'a>(&mut self, data: &'a [u8]) -> (r: Result<&'a [u8], Error>) {
        let mut byte: u8 = 0;
        let remain = byte.decode_param(data)?;
        *self = itob(&byte);
        Ok(remain)
    }

    fn encode_param(&self, target: &mut Vec<u8>) {
        target.push(btoi(*self));
    }
}

/// What a received packet holds in front of its checksum.
pub open spec fn content(data: Seq<u8>) -> Seq<u8> {
    if data.len() == 0 {
        data
    } else {
        data.drop_last()
    }
}

/// The first disagreement between `data` and `prefix`, from the byte at `from` on.
pub open spec fn prefix_error(data: Seq<u8>, prefix: Seq<u8>, from: int) -> Option<Error>
    decreases prefix.len() - from,
{
    if from < 0 || from >= prefix.len() {
        None
    } else if from >= data.len() {
        Some(Error::UnexpectedByte { expected: prefix[from], got: None })
    } else if data[from] != prefix[from] {
        Some(Error::UnexpectedByte { expected: prefix[from], got: Some(data[from]) })
    } else {
        prefix_error(data, prefix, from + 1)
    }
}

/// The first byte that is not zero, from the byte at `from` on.
pub open spec fn first_nonzero(data: Seq<u8>, from: int) -> Option<u8>
    decreases data.len() - from,
{
    if from < 0 || from >= data.len() {
        None
    } else if data[from] != 0 {
        Some(data[from])
    } else {
        first_nonzero(data, from + 1)
    }
}

/// Why `data` does not have the layout: the bytes of `prefix`, then `fields`
/// bytes of any value, then nothing but zeros.
pub open spec fn layout_error(data: Seq<u8>, prefix: Seq<u8>, fields: nat) -> Option<Error> {
    if prefix_error(data, prefix, 0) is Some {
        prefix_error(data, prefix, 0)
    } else if data.len() < prefix.len() + fields {
        Some(Error::Eof)
    } else {
        match first_nonzero(data.skip((prefix.len() + fields) as int), 0) {
            Some(byte) => Some(Error::NonZeroPadding(byte)),
            None => None,
        }
    }
}

/// Drops the checksum from a received packet. An empty packet stays empty.
pub fn drop_checksum(data: &[u8]) -> (r: &[u8])
    ensures
        r@ == content(data@),
{
    if data.len() == 0 {
        data
    } else {
        &data[0..data.len() - 1]
    }
}

/// Checks that `data` starts with `prefix` and returns what follows.
pub fn expect_prefix<'a>(data: &'a [u8], prefix: &[u8]) -> (r: Result<&'a [u8], Error>)
    ensures
        match prefix_error(data@, prefix@, 0) {
            None => {
                &&& r is Ok
                &&& data@.len() >= prefix@.len()
                &&& r->Ok_0@ == data@.skip(prefix@.len() as int)
            },
            Some(e) => r == Err::<&'a [u8], Error>(e),
        },
{
    let mut i: usize = 0;
    while i < prefix.len()
        invariant
            i <= prefix.len(),
            i <= data.len(),
            prefix_error(data@, prefix@, 0) == prefix_error(data@, prefix@, i as int),
        decreases prefix.len() - i,
    {
        if i >= data.len() {
            return Err(Error::UnexpectedByte { expected: prefix[i], got: None });
        }
        if data[i] != prefix[i] {
            return Err(Error::UnexpectedByte { expected: prefix[i], got: Some(data[i]) });
        }
        i = i + 1;
    }
    Ok(&data[i..data.len()])
}

/// Checks that nothing but zeros is left.
pub fn expect_padding(data: &[u8]) -> (r: Result<(), Error>)
    ensures
        r == match first_nonzero(data@, 0) {
            None => Ok::<(), Error>(()),
            Some(byte) => Err(Error::NonZeroPadding(byte)),
        },
{
    let mut i: usize = 0;
    while i < data.len()
        invariant
            i <= data.len(),
            first_nonzero(data@, 0) == first_nonzero(data@, i as int),
        decreases data.len() - i,
    {
        if data[i] != 0 {
            return Err(Error::NonZeroPadding(data[i]));
        }
        i = i + 1;
    }
    Ok(())
}

/// There is no disagreement exactly where the data starts with the prefix.
pub proof fn lemma_prefix_error(data: Seq<u8>, prefix: Seq<u8>, from: int)
    requires
        0 <= from,
    ensures
        prefix_error(data, prefix, from) is None <==> {
            &&& prefix.len() <= data.len() || prefix.len() <= from
            &&& forall|i: int| from <= i < prefix.len() ==> data[i] == prefix[i]
        },
    decreases prefix.len() - from,
{
    if from < prefix.len() && from < data.len() && data[from] == prefix[from] {
        lemma_prefix_error(data, prefix, from + 1);
    }
}

/// There is no such byte exactly where every byte is zero.
pub proof fn lemma_first_nonzero(data: Seq<u8>, from: int)
    requires
        0 <= from,
    ensures
        first_nonzero(data, from) is None <==> forall|i: int|
            from <= i < data.len() ==> data[i] == 0,
    decreases data.len() - from,
{
    if from < data.len() && data[from] == 0 {
        lemma_first_nonzero(data, from + 1);
    }
}

/// A frame around `prefix`, then field bytes, has the layout.
pub proof fn lemma_frame_has_layout(prefix: Seq<u8>, fields: Seq<u8>)
    requires
        prefix.len() + fields.len() <= 19,
    ensures
        layout_error(content(crate::frame::frame(prefix + fields)), prefix, fields.len()) is None,
{
    let data = content(crate::frame::frame(prefix + fields));
    assert(data =~= crate::frame::padded(prefix + fields));
    lemma_prefix_error(data, prefix, 0);
    lemma_first_nonzero(data.skip((prefix.len() + fields.len()) as int), 0);
}

/// A byte field is its byte, a word field its low byte and then its high byte,
/// and a switch is one for on and zero for off.
pub proof fn law_field_bytes(byte: u8, word: u16, on: bool)
    ensures
        byte.param_bytes() == seq![byte],
        word.param_bytes().len() == 2,
        word.param_bytes()[0] + 256 * word.param_bytes()[1] == word,
        on.param_bytes().len() == 1,
        on.param_bytes()[0] == 1 <==> on,
        on.param_bytes()[0] == 0 <==> !on,
        u8::param_len() == 1,
        u16::param_len() == 2,
        bool::param_len() == 1,
{
}

/// Fields are read from the front: a byte as it is, a word from its low and then
/// its high byte, a switch as on unless the byte is zero. Where there are not
/// enough bytes nothing is read.
pub proof fn law_fields_from_bytes(data: Seq<u8>, lo: u8, hi: u8)
    ensures
        u8::param_value(seq![lo] + data) == Ok::<u8, Error>(lo),
        u16::param_value(seq![lo, hi] + data) is Ok,
        u16::param_value(seq![lo, hi] + data)->Ok_0 == lo + 256 * hi,
        bool::param_value(seq![lo] + data) is Ok,
        bool::param_value(seq![lo] + data)->Ok_0 <==> lo != 0,
        data.len() < 1 ==> u8::param_value(data) == Err::<u8, Error>(Error::Eof),
        data.len() < 2 ==> u16::param_value(data) == Err::<u16, Error>(Error::Eof),
        data.len() < 1 ==> bool::param_value(data) == Err::<bool, Error>(Error::Eof),
{
}

/// The content of a received packet is all of it but the last byte.
pub proof fn law_content_drops_last_byte(data: Seq<u8>, last: u8)
    ensures
        content(data.push(last)) == data,
        content(Seq::<u8>::empty()) == Seq::<u8>::empty(),
{
    assert(data.push(last).drop_last() =~= data);
}

/// Bytes that agree with the prefix are passed over.
proof fn lemma_prefix_skip(data: Seq<u8>, prefix: Seq<u8>, from: int, i: int)
    requires
        0 <= from <= i <= prefix.len(),
        i <= data.len(),
        forall|j: int| from <= j < i ==> #[trigger] prefix[j] == data[j],
    ensures
        prefix_error(data, prefix, from) == prefix_error(data, prefix, i),
    decreases i - from,
{
    if from < i {
        assert(prefix[from] == data[from]);
        lemma_prefix_skip(data, prefix, from + 1, i);
    }
}

/// Zeros are passed over.
proof fn lemma_zero_skip(data: Seq<u8>, from: int, i: int)
    requires
        0 <= from <= i <= data.len(),
        forall|j: int| from <= j < i ==> #[trigger] data[j] == 0,
    ensures
        first_nonzero(data, from) == first_nonzero(data, i),
    decreases i - from,
{
    if from < i {
        assert(data[from] == 0);
        lemma_zero_skip(data, from + 1, i);
    }
}

/// Where the bytes in front of position `i` are those of the prefix, a missing or
/// different byte at `i` is the fault, with the byte that was expected and the
/// one that was found.
pub proof fn law_wrong_byte_is_reported(data: Seq<u8>, prefix: Seq<u8>, fields: nat, i: int)
    requires
        0 <= i < prefix.len(),
        i <= data.len(),
        forall|j: int| 0 <= j < i ==> #[trigger] prefix[j] == data[j],
    ensures
        i == data.len() ==> layout_error(data, prefix, fields) == Some(
            Error::UnexpectedByte { expected: prefix[i], got: None },
        ),
        i < data.len() && data[i] != prefix[i] ==> layout_error(data, prefix, fields) == Some(
            Error::UnexpectedByte { expected: prefix[i], got: Some(data[i]) },
        ),
{
    lemma_prefix_skip(data, prefix, 0, i);
}

/// Where the prefix agrees, a packet that ends within the fields is too short,
/// and else the first byte behind the fields that is not zero is the fault. A
/// packet without such a byte has the layout.
pub proof fn law_rest_is_reported(data: Seq<u8>, prefix: Seq<u8>, fields: nat, p: int)
    requires
        prefix.len() <= data.len(),
        forall|j: int| 0 <= j < prefix.len() ==> #[trigger] prefix[j] == data[j],
    ensures
        data.len() < prefix.len() + fields ==> layout_error(data, prefix, fields) == Some(
            Error::Eof,
        ),
        prefix.len() + fields <= p < data.len() && data[p] != 0 && (forall|j: int|
            prefix.len() + fields <= j < p ==> #[trigger] data[j] == 0) ==> layout_error(
            data,
            prefix,
            fields,
        ) == Some(Error::NonZeroPadding(data[p])),
        prefix.len() + fields <= data.len() && (forall|j: int|
            prefix.len() + fields <= j < data.len() ==> #[trigger] data[j] == 0) ==> layout_error(
            data,
            prefix,
            fields,
        ) is None,
{
    lemma_prefix_skip(data, prefix, 0, prefix.len() as int);
    let n = (prefix.len() + fields) as int;
    if n <= data.len() {
        let rest = data.skip(n);
        assert(forall|j: int| 0 <= j < rest.len() ==> #[trigger] rest[j] == data[n + j]);
        if n <= p < data.len() && (forall|j: int| n <= j < p ==> #[trigger] data[j] == 0) {
            lemma_zero_skip(rest, 0, p - n);
        }
        if forall|j: int| n <= j < data.len() ==> #[trigger] data[j] == 0 {
            lemma_zero_skip(rest, 0, rest.len() as int);
        }
    }
}

/// A received packet has a layout exactly if it starts with the prefix, has a
/// byte for every field and one more, and holds nothing but zeros between its
/// fields and its last byte.
pub proof fn law_layout_of_packet(data: Seq<u8>, prefix: Seq<u8>, fields: nat)
    requires
        prefix.len() > 0,
    ensures
        layout_error(content(data), prefix, fields) is None <==> {
            &&& data.len() > prefix.len() + fields
            &&& forall|i: int| 0 <= i < prefix.len() ==> data[i] == prefix[i]
            &&& forall|i: int| prefix.len() + fields <= i < data.len() - 1 ==> data[i] == 0
        },
{
    let c = content(data);
    lemma_prefix_error(c, prefix, 0);
    let n = (prefix.len() + fields) as int;
    if c.len() >= n {
        let rest = c.skip(n);
        lemma_first_nonzero(rest, 0);
        assert(forall|j: int| 0 <= j < rest.len() ==> #[trigger] rest[j] == data[n + j]);
        assert(forall|i: int| n <= i < data.len() - 1 ==> rest[i - n] == #[trigger] data[i]);
    }
    assert(forall|i: int| 0 <= i < c.len() ==> #[trigger] c[i] == data[i]);
    if data.len() > 0 && forall|i: int| 0 <= i < prefix.len() ==> data[i] == prefix[i] {
        if prefix.len() <= c.len() {
            assert(forall|i: int| 0 <= i < prefix.len() ==> c[i] == prefix[i]);
        }
    }
    if prefix_error(c, prefix, 0) is None {
        assert(forall|i: int| 0 <= i < prefix.len() ==> c[i] == prefix[i]);
        assert(forall|i: int| 0 <= i < prefix.len() ==> data[i] == c[i]);
    }
}

} // verus!
