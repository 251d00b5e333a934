//! Base64, as the `data_encoding` crate defines it.

use crate::error::{Base64Error, Base64ErrorKind};
use vstd::prelude::*;
use vstd::utf8::encode_utf8;

verus! {

/// The base64 text of `bytes`: what `data_encoding::BASE64.encode` returns for them.
pub uninterp spec fn base64_text(bytes: Seq<u8>) -> Seq<char>;

/// The bytes that `text` stands for, or what is wrong with it: what
/// `data_encoding::BASE64.decode` returns for its UTF-8 bytes.
pub uninterp spec fn base64_bytes(text: Seq<char>) -> Result<Seq<u8>, Base64Error>;

/// Calls `data_encoding::BASE64.encode`, which is free of panics up to the
/// given length. Its text depends on the bytes alone, and decoding that text
/// gives the bytes back.
#[verifier::external_body]
pub(crate) fn base64_encode(bytes: &[u8]) -> (r: String)
    requires
        bytes@.len() <= usize::MAX / 512,
    ensures
        r@ == base64_text(bytes@),
        base64_bytes(r@) is Ok && base64_bytes(r@)->Ok_0 == bytes@,
{
    data_encoding::BASE64.encode(bytes)
}

/// Calls `data_encoding::BASE64.decode` on the UTF-8 bytes of the text, which
/// is free of panics up to the given length. The bytes, or the position and
/// kind of the error, depend on the text alone.
#[verifier::external_body]
pub(crate) fn base64_decode(text: &str) -> (r: Result<Vec<u8>, Base64Error>)
    requires
        encode_utf8(text@).len() <= usize::MAX / 8,
    ensures
        match base64_bytes(text@) {
            Ok(bytes) => r is Ok && r->Ok_0@ == bytes,
            Err(e) => r is Err && r->Err_0 == e,
        },
{
    data_encoding::BASE64.decode(text.as_bytes()).map_err(|e| Base64Error {
        position: e.position,
        kind: match e.kind {
            data_encoding::DecodeKind::Length => Base64ErrorKind::Length,
            data_encoding::DecodeKind::Symbol => Base64ErrorKind::Symbol,
            data_encoding::DecodeKind::Trailing => Base64ErrorKind::Trailing,
            data_encoding::DecodeKind::Padding => Base64ErrorKind::Padding,
        },
    })
}

} // verus!
