//! Raw bytes of packets, and their base64 text.

use crate::base64::{base64_bytes, base64_decode, base64_encode, base64_text};
use crate::error::{Base64Error, Error};
use crate::frame::{finish, frame};
use crate::kind::PacketKind;
use crate::manager::{no_codec, packet_for_sku, registered, PacketManager};
use crate::packet::{decoding, encodable, encoding, GoveeBlePacket, PacketValue};
use crate::text::{digit, digit_text};
use vstd::prelude::*;
use vstd::string::StringExecFns;
use vstd::utf8::encode_utf8;

verus! {

/// Two hexadecimal digits for a byte.
pub open spec fn hex_digits(byte: u8) -> Seq<char> {
    seq![digit(byte as int / 16), digit(byte as int % 16)]
}

/// The first `n` bytes in hexadecimal, with a comma and a space between them.
pub open spec fn hex_list(bytes: Seq<u8>, n: nat) -> Seq<char>
    decreases n,
{
    if n == 0 {
        Seq::empty()
    } else if n == 1 {
        hex_digits(bytes[0])
    } else {
        hex_list(bytes, (n - 1) as nat) + seq![',', ' '] + hex_digits(bytes[n - 1])
    }
}

/// All bytes in hexadecimal, between square brackets.
pub open spec fn hex_text(bytes: Seq<u8>) -> Seq<char> {
    seq!['['] + hex_list(bytes, bytes.len()) + seq![']']
}

/// Bytes that are shown in hexadecimal.
#[derive(Clone, PartialEq, Eq)]
pub struct HexBytes(Vec<u8>);

impl View for HexBytes {
    type V = Seq<u8>;

    closed spec fn view(&self) -> Seq<u8> {
        self.0@
    }
}

impl HexBytes {
    /// Holds `bytes`.
    pub fn new(bytes: Vec<u8>) -> (r: Self)
        ensures
            r@ == bytes@,
    {
        HexBytes(bytes)
    }

    /// The bytes in hexadecimal, such as `[AA, 05]`.
    pub fn hex(&self) -> (r: String)
        ensures
            r@ == hex_text(self@),
    {
        proof {
            reveal_strlit("[");
            reveal_strlit(", ");
            reveal_strlit("]");
        }
        let mut text = "[".to_owned();
        assert(text@ =~= seq!['['] + hex_list(self@, 0));
        let mut i: usize = 0;
        while i < self.0.len()
            invariant
                i <= self.0.len(),
                text@ == seq!['['] + hex_list(self@, i as nat),
            decreases self.0.len() - i,
        {
            proof {
                reveal_strlit(", ");
            }
            let byte = self.0[i];
            if i > 0 {
                text.append(", ");
            }
            text.append(digit_text(byte / 16));
            text.append(digit_text(byte % 16));
            assert(text@ =~= seq!['['] + hex_list(self@, (i + 1) as nat));
            i = i + 1;
        }
        text.append("]");
        assert(text@ =~= seq!['['] + hex_list(self@, self@.len()) + seq![']']);
        text
    }
}

/// The formatter of std.
#[verifier::external_type_specification]
#[verifier::external_body]
pub struct ExFormatter<'a>(core::fmt::Formatter<'a>);

/// The error of std's formatter.
#[verifier::external_type_specification]
#[verifier::external_body]
pub struct ExFmtError(core::fmt::Error);

/// Calls `core::fmt::Formatter::write_str` with the text. Nothing is claimed of
/// what becomes of it: that is up to whoever made the formatter.
#[verifier::external_body]
fn write_text(fmt: &mut core::fmt::Formatter<'_>, text: &str) -> (r: core::fmt::Result) {
    fmt.write_str(text)
}

/// Shows what [`HexBytes::hex`] returns.
impl core::fmt::Debug for HexBytes {
    fn fmt(&self, fmt: &mut core::fmt::Formatter<'_>) -> (r: core::fmt::Result) {
        write_text(fmt, self.hex().as_str())
    }
}

/// How many pieces of at most twenty bytes `len` bytes are cut into.
pub open spec fn piece_count(len: nat) -> nat {
    (len + 19) / 20
}

/// The piece at position `i` of bytes that are cut every twenty bytes.
pub open spec fn piece(bytes: Seq<u8>, i: int) -> Seq<u8> {
    bytes.subrange(
        20 * i,
        if bytes.len() < 20 * (i + 1) {
            bytes.len() as int
        } else {
            20 * (i + 1)
        },
    )
}

/// The first `n` pieces put together again.
pub open spec fn joined(bytes: Seq<u8>, n: nat) -> Seq<u8>
    decreases n,
{
    if n == 0 {
        Seq::empty()
    } else {
        joined(bytes, (n - 1) as nat) + piece(bytes, n - 1)
    }
}

/// The bytes of a command or a notification, which travel as base64 text.
#[derive(Clone, Debug, PartialEq, Eq)]
pub struct Base64HexBytes(HexBytes);

impl View for Base64HexBytes {
    type V = Seq<u8>;

    closed spec fn view(&self) -> Seq<u8> {
        self.0@
    }
}

impl Base64HexBytes {
    /// The bytes that `text` stands for.
    pub fn from_base64(text: &str) -> (r: Result<Self, Base64Error>)
        requires
            encode_utf8(text@).len() <= usize::MAX / 8,
        ensures
            match base64_bytes(text@) {
                Ok(bytes) => r is Ok && r->Ok_0@ == bytes,
                Err(e) => r == Err::<Self, Base64Error>(e),
            },
    {
        match base64_decode(text) {
            Ok(bytes) => Ok(Base64HexBytes(HexBytes(bytes))),
            Err(e) => Err(e),
        }
    }

    /// Decodes the bytes as a packet from the product `sku`.
    pub fn decode_for_sku(&self, sku: &str) -> (r: GoveeBlePacket)
        ensures
            r@ == packet_for_sku(sku@, self@),
            forall|kind: PacketKind|
                registered(kind, sku@) && #[trigger] decoding(kind, self@) is Ok ==> r@ == decoding(
                    kind,
                    self@,
                )->Ok_0,
    {
        PacketManager::new().decode_for_sku(sku, self.bytes())
    }

    /// Encodes a value for the product `sku`.
    pub fn encode_for_sku<T: PacketValue>(sku: &str, value: &T) -> (r: Result<Self, Error>)
        requires
            registered(T::spec_kind(), sku@) ==> encodable(value.packet()),
        ensures
            if registered(T::spec_kind(), sku@) {
                match encoding(value.packet()) {
                    Ok(bytes) => r is Ok && r->Ok_0@ == bytes,
                    Err(e) => r == Err::<Self, Error>(e),
                }
            } else {
                no_codec(r, sku@, T::spec_kind())
            },
    {
        match PacketManager::new().encode_for_sku(sku, value) {
            Ok(bytes) => Ok(Base64HexBytes(HexBytes(bytes))),
            Err(e) => Err(e),
        }
    }

    /// Encodes a value for the product `sku`, or returns `None` where the
    /// product understands the value but it is too long to be encoded.
    pub fn try_encode_for_sku<T: PacketValue>(sku: &str, value: &T) -> (r: Option<Result<Self, Error>>)
        ensures
            r is None <==> registered(T::spec_kind(), sku@) && !encodable(value.packet()),
            r is Some ==> if registered(T::spec_kind(), sku@) {
                match encoding(value.packet()) {
                    Ok(bytes) => r->Some_0 is Ok && r->Some_0->Ok_0@ == bytes,
                    Err(e) => r->Some_0 == Err::<Self, Error>(e),
                }
            } else {
                no_codec(r->Some_0, sku@, T::spec_kind())
            },
    {
        match PacketManager::new().try_encode_for_sku(sku, value) {
            Some(Ok(bytes)) => Some(Ok(Base64HexBytes(HexBytes(bytes)))),
            Some(Err(e)) => Some(Err(e)),
            None => None,
        }
    }

    /// The bytes.
    pub fn bytes(&self) -> (r: &[u8])
        ensures
            r@ == self@,
    {
        self.0.0.as_slice()
    }

    /// The base64 texts of the bytes, one for every twenty of them.
    pub fn base64(&self) -> (r: Vec<String>)
        ensures
            r@.len() == piece_count(self@.len()),
            forall|i: int|
                #![trigger r@[i]]
                0 <= i < r@.len() ==> r@[i]@ == base64_text(piece(self@, i)) && base64_bytes(r@[i]@)
                    == Ok::<Seq<u8>, Base64Error>(piece(self@, i)),
    {
        let bytes = self.bytes();
        let mut result: Vec<String> = Vec::new();
        let mut start: usize = 0;
        while start < bytes.len()
            invariant
                bytes@ == self@,
                start == if 20 * result@.len() < bytes@.len() {
                    20 * result@.len()
                } else {
                    bytes@.len()
                },
                result@.len() == piece_count(start as nat),
                forall|i: int|
                    #![trigger result@[i]]
                    0 <= i < result@.len() ==> result@[i]@ == base64_text(piece(self@, i))
                        && base64_bytes(result@[i]@) == Ok::<Seq<u8>, Base64Error>(piece(self@, i)),
            decreases bytes.len() - start,
        {
            let end: usize = if bytes.len() - start < 20 {
                bytes.len()
            } else {
                start + 20
            };
            let chunk = &bytes[start..end];
            assert(chunk@ =~= piece(self@, result@.len() as int));
            result.push(base64_encode(chunk));
            start = end;
        }
        result
    }

    /// A frame with the given content.
    pub fn with_bytes(bytes: Vec<u8>) -> (r: Self)
        ensures
            r@ == frame(bytes@),
    {
        Base64HexBytes(HexBytes(finish(bytes)))
    }
}

/// The pieces of bytes that are cut every twenty bytes are the bytes, in order.
proof fn lemma_joined(bytes: Seq<u8>, n: nat)
    requires
        n <= piece_count(bytes.len()),
    ensures
        joined(bytes, n) == bytes.take(
            if 20 * n < bytes.len() {
                (20 * n) as int
            } else {
                bytes.len() as int
            },
        ),
    decreases n,
{
    if n == 0 {
        assert(joined(bytes, n) =~= bytes.take(0));
    } else {
        lemma_joined(bytes, (n - 1) as nat);
        assert(joined(bytes, n) =~= bytes.take(
            if 20 * n < bytes.len() {
                (20 * n) as int
            } else {
                bytes.len() as int
            },
        ));
    }
}

/// No byte is lost, added or moved when bytes are cut for their base64 texts.
pub proof fn law_pieces_make_up_bytes(bytes: Seq<u8>)
    ensures
        joined(bytes, piece_count(bytes.len())) == bytes,
{
    lemma_joined(bytes, piece_count(bytes.len()));
    assert(bytes.take(bytes.len() as int) =~= bytes);
}

/// In hexadecimal every byte has two digits, the one for the higher half in
/// front, and a comma and a space stand between two bytes.
pub proof fn law_hexadecimal_text(bytes: Seq<u8>, n: nat, i: int)
    requires
        n <= bytes.len(),
    ensures
        n == 0 ==> hex_list(bytes, n).len() == 0,
        n > 0 ==> hex_list(bytes, n).len() == 4 * n - 2,
        0 <= i < n ==> {
            &&& hex_list(bytes, n)[4 * i] == digit(bytes[i] as int / 16)
            &&& hex_list(bytes, n)[4 * i + 1] == digit(bytes[i] as int % 16)
        },
        0 <= i < n - 1 ==> {
            &&& hex_list(bytes, n)[4 * i + 2] == ','
            &&& hex_list(bytes, n)[4 * i + 3] == ' '
        },
    decreases n,
{
    if n > 1 {
        law_hexadecimal_text(bytes, (n - 1) as nat, i);
    }
}

/// Bytes are cut every twenty bytes: there are just as many pieces as are needed,
/// all but the last have twenty bytes, and each byte keeps its place.
pub proof fn law_pieces_of_bytes(bytes: Seq<u8>, i: int, j: int)
    ensures
        20 * piece_count(bytes.len()) >= bytes.len(),
        20 * piece_count(bytes.len()) < bytes.len() + 20,
        0 <= i < piece_count(bytes.len()) - 1 ==> piece(bytes, i).len() == 20,
        0 <= i == piece_count(bytes.len()) - 1 ==> piece(bytes, i).len() == bytes.len() - 20 * i,
        0 <= i < piece_count(bytes.len()) && 0 <= j < piece(bytes, i).len() ==> piece(bytes, i)[j]
            == bytes[20 * i + j],
{
}

/// The text for bytes is their digits between square brackets.
pub proof fn law_text_for_bytes(bytes: Seq<u8>, i: int)
    ensures
        hex_text(bytes).len() == if bytes.len() == 0 {
            2
        } else {
            4 * bytes.len()
        },
        hex_text(bytes)[0] == '[',
        hex_text(bytes)[hex_text(bytes).len() - 1] == ']',
        0 <= i < bytes.len() ==> {
            &&& hex_text(bytes)[4 * i + 1] == digit(bytes[i] as int / 16)
            &&& hex_text(bytes)[4 * i + 2] == digit(bytes[i] as int % 16)
        },
        0 <= i < bytes.len() - 1 ==> {
            &&& hex_text(bytes)[4 * i + 3] == ','
            &&& hex_text(bytes)[4 * i + 4] == ' '
        },
{
    law_hexadecimal_text(bytes, bytes.len(), i);
}

} // verus!
