//! Frames: nineteen bytes of content and their checksum.

use vstd::prelude::*;

verus! {

/// The exclusive or of all bytes.
pub open spec fn checksum(data: Seq<u8>) -> u8
    decreases data.len(),
{
    if data.len() == 0 {
        0
    } else {
        checksum(data.drop_last()) ^ data.last()
    }
}

/// `data` cut or filled with zeros to exactly nineteen bytes.
pub open spec fn padded(data: Seq<u8>) -> Seq<u8> {
    Seq::new(19, |i: int| if i < data.len() { data[i] } else { 0 })
}

/// The frame that carries `data`: the padded content and the checksum of all of `data`.
pub open spec fn frame(data: Seq<u8>) -> Seq<u8> {
    padded(data).push(checksum(data))
}

/// Twenty bytes, the last of which is the checksum of the others.
pub open spec fn is_frame(bytes: Seq<u8>) -> bool {
    bytes.len() == 20 && bytes[19] == checksum(bytes.take(19))
}

/// A byte that says whether something is on.
pub open spec fn bool_byte(on: bool) -> u8 {
    if on {
        1
    } else {
        0
    }
}

/// The exclusive or of all bytes of `data`.
pub fn calculate_checksum(data: &[u8]) -> (r: u8)
    ensures
        r == checksum(data@),
{
    let mut sum: u8 = 0;
    let mut i: usize = 0;
    while i < data.len()
        invariant
            i <= data.len(),
            sum == checksum(data@.take(i as int)),
        decreases data.len() - i,
    {
        sum = sum ^ data[i];
        assert(data@.take(i + 1).drop_last() =~= data@.take(i as int));
        i = i + 1;
    }
    assert(data@.take(data.len() as int) =~= data@);
    sum
}

/// Completes `data` to a frame.
///
/// The checksum covers every byte of `data`, also those behind the nineteenth,
/// which the frame has no room for.
pub fn finish(data: Vec<u8>) -> (r: Vec<u8>)
    ensures
        r@ == frame(data@),
{
    let mut framed = data;
    let sum = calculate_checksum(framed.as_slice());
    framed.resize(19, 0);
    assert(framed@ =~= padded(data@)) by {
        if data.len() < 19 {
            assert forall|i: int| 0 <= i < data.len() implies framed@[i] == data@[i] by {
                assert(framed@.subrange(0, data.len() as int)[i] == data@[i]);
            }
        }
    }
    framed.push(sum);
    framed
}

/// The byte for `on`.
pub fn btoi(on: bool) -> (r: u8)
    ensures
        r == bool_byte(on),
{
    if on {
        1
    } else {
        0
    }
}

/// Whether the byte means on: every byte but zero does.
pub fn itob(i: &u8) -> (r: bool)
    ensures
        r == (*i != 0),
{
    *i != 0
}

/// Zeros behind the content leave the checksum as it is.
proof fn lemma_checksum_of_zeros(data: Seq<u8>, n: nat)
    ensures
        checksum(data + Seq::new(n, |i: int| 0u8)) == checksum(data),
    decreases n,
{
    let zeros = Seq::new(n, |i: int| 0u8);
    if n == 0 {
        assert(data + zeros =~= data);
    } else {
        let fewer = Seq::new((n - 1) as nat, |i: int| 0u8);
        lemma_checksum_of_zeros(data, (n - 1) as nat);
        assert((data + zeros).drop_last() =~= data + fewer);
        let sum = checksum(data);
        assert(sum ^ 0u8 == sum) by (bit_vector);
    }
}

/// Content of at most nineteen bytes gets a frame whose last byte is the
/// checksum of the other nineteen.
pub proof fn law_finished_frame_is_valid(data: Seq<u8>)
    requires
        data.len() <= 19,
    ensures
        is_frame(frame(data)),
{
    lemma_checksum_of_zeros(data, (19 - data.len()) as nat);
    assert(frame(data).take(19) =~= data + Seq::new((19 - data.len()) as nat, |i: int| 0u8));
}

/// The bytes of a valid frame cancel out: their exclusive or is zero.
pub proof fn law_valid_frame_cancels_out(bytes: Seq<u8>)
    ensures
        is_frame(bytes) ==> checksum(bytes) == 0,
{
    if is_frame(bytes) {
        assert(bytes.drop_last() =~= bytes.take(19));
        let sum = bytes[19];
        assert(sum ^ sum == 0u8) by (bit_vector);
    }
}

/// A frame keeps the content that it was made from, as far as it has room.
pub proof fn law_frame_keeps_content(data: Seq<u8>)
    requires
        data.len() <= 19,
    ensures
        frame(data).take(data.len() as int) == data,
        forall|i: int| data.len() <= i < 19 ==> frame(data)[i] == 0,
{
    assert(frame(data).take(data.len() as int) =~= data);
}

/// The checksum is the exclusive or of the bytes: that of nothing is zero, that
/// of one byte is the byte, and that of two parts is the exclusive or of theirs.
pub proof fn law_checksum_is_exclusive_or(a: Seq<u8>, b: Seq<u8>, byte: u8)
    ensures
        checksum(Seq::<u8>::empty()) == 0,
        checksum(seq![byte]) == byte,
        checksum(a.push(byte)) == checksum(a) ^ byte,
        checksum(a + b) == checksum(a) ^ checksum(b),
    decreases b.len(),
{
    assert(seq![byte].drop_last() =~= Seq::<u8>::empty());
    assert(checksum(seq![byte]) == checksum(seq![byte].drop_last()) ^ byte);
    assert(0u8 ^ byte == byte) by (bit_vector);
    assert(a.push(byte).drop_last() =~= a);
    let x = checksum(a);
    if b.len() == 0 {
        assert(a + b =~= a);
        assert(x ^ 0u8 == x) by (bit_vector);
    } else {
        law_checksum_is_exclusive_or(a, b.drop_last(), byte);
        assert((a + b).drop_last() =~= a + b.drop_last());
        let y = checksum(b.drop_last());
        let z = b.last();
        assert((x ^ y) ^ z == x ^ (y ^ z)) by (bit_vector);
    }
}

/// The order of the bytes makes no difference to their checksum, and a byte that
/// stands in it twice cancels out.
pub proof fn law_checksum_of_swapped_bytes(a: Seq<u8>, x: u8, y: u8)
    ensures
        checksum(a.push(x).push(y)) == checksum(a.push(y).push(x)),
        checksum(a.push(x).push(x)) == checksum(a),
{
    law_checksum_is_exclusive_or(a, a, x);
    law_checksum_is_exclusive_or(a, a, y);
    law_checksum_is_exclusive_or(a.push(x), a, y);
    law_checksum_is_exclusive_or(a.push(y), a, x);
    law_checksum_is_exclusive_or(a.push(x), a, x);
    let s = checksum(a);
    assert((s ^ x) ^ y == (s ^ y) ^ x) by (bit_vector);
    assert((s ^ x) ^ x == s) by (bit_vector);
}

/// A frame has twenty bytes: the first nineteen of the content, zeros where the
/// content has ended, and the checksum of all of the content.
pub proof fn law_bytes_of_frame(data: Seq<u8>, i: int)
    ensures
        frame(data).len() == 20,
        0 <= i < 19 && i < data.len() ==> frame(data)[i] == data[i],
        data.len() <= i < 19 ==> frame(data)[i] == 0,
        frame(data)[19] == checksum(data),
{
}

/// A valid frame is twenty bytes that end in the checksum of the rest.
pub proof fn law_valid_frames(bytes: Seq<u8>, last: u8)
    ensures
        is_frame(bytes) ==> bytes.len() == 20,
        bytes.len() == 19 ==> (is_frame(bytes.push(last)) <==> last == checksum(bytes)),
{
    if bytes.len() == 19 {
        assert(bytes.push(last).take(19) =~= bytes);
    }
}

/// On is written as one, off as zero.
pub proof fn law_switch_byte(on: bool)
    ensures
        bool_byte(on) == 1 <==> on,
        bool_byte(on) == 0 <==> !on,
{
}

} // verus!
