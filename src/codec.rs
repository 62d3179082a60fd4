//! What this crate relies on from `encoding_rs`, and the transcoding built on it.
use vstd::prelude::*;
use vstd::utf8::*;

use encoding_rs::Encoding;

verus! {

broadcast use vstd::utf8::group_utf8_lib;

#[verifier::external_type_specification]
#[verifier::external_body]
pub struct ExEncoding(Encoding);

/// The longest input that one call transcodes: the buffers that `encoding_rs`
/// sizes for longer inputs could overflow `usize`.
pub const MAX_CHUNK: usize = usize::MAX / 256;

/// The name of an encoding, as `Encoding::name` gives it. Names are unique
/// among the encodings of `encoding_rs`.
pub uninterp spec fn encoding_name(e: Encoding) -> Seq<char>;

/// The text that `encoding_rs` decodes from `bytes` with the encoding named
/// `encoding`, with its byte order mark sniffing.
pub uninterp spec fn decoded(encoding: Seq<char>, bytes: Seq<u8>) -> Seq<char>;

/// The bytes that `encoding_rs` encodes `text` into with the encoding named
/// `encoding`.
pub uninterp spec fn encoded(encoding: Seq<char>, text: Seq<char>) -> Seq<u8>;

/// The name that `encoding_rs` gives to UTF-8.
pub open spec fn utf8_name() -> Seq<char> {
    seq!['U', 'T', 'F', '-', '8']
}

/// U+FFFD, which decoding puts in place of each malformed sequence.
pub open spec fn replacement_char() -> char {
    '\u{FFFD}'
}

/// `bytes` begins with a UTF-8, UTF-16LE or UTF-16BE byte order mark.
pub open spec fn starts_with_bom(bytes: Seq<u8>) -> bool {
    ||| (bytes.len() >= 3 && bytes[0] == 0xEFu8 && bytes[1] == 0xBBu8 && bytes[2] == 0xBFu8)
    ||| (bytes.len() >= 2 && bytes[0] == 0xFFu8 && bytes[1] == 0xFEu8)
    ||| (bytes.len() >= 2 && bytes[0] == 0xFEu8 && bytes[1] == 0xFFu8)
}

/// Decoding `bytes` as UTF-8 gave `text`: valid input unchanged, malformed
/// input with U+FFFD in it.
pub open spec fn utf8_decoding(bytes: Seq<u8>, text: Seq<char>) -> bool {
    &&& valid_utf8(bytes) ==> text == decode_utf8(bytes)
    &&& !valid_utf8(bytes) ==> text.contains(replacement_char())
}

/// Transcoding `bytes` from the encoding named `from` to the one named `to`:
/// decode them whole, then encode the text whole.
pub open spec fn transcoded(from: Seq<char>, to: Seq<char>, bytes: Seq<u8>) -> Seq<u8> {
    encoded(to, decoded(from, bytes))
}

/// `bytes` stand for `text` in the encoding named `encoding` without loss:
/// they decode to `text`, and `text` encodes back to them.
pub open spec fn lossless(encoding: Seq<char>, text: Seq<char>, bytes: Seq<u8>) -> bool {
    decoded(encoding, bytes) == text && encoded(encoding, text) == bytes
}

/// Round trip: where `bytes` stand for a text without loss in encoding `a`, and
/// that text has a lossless form in encoding `b` too, transcoding `bytes` from
/// `a` to `b` and the result back from `b` to `a` gives `bytes` again.
pub proof fn lemma_round_trip(a: Seq<char>, b: Seq<char>, text: Seq<char>, bytes: Seq<u8>)
    requires
        lossless(a, text, bytes),
        lossless(b, text, encoded(b, text)),
    ensures
        transcoded(b, a, transcoded(a, b, bytes)) == bytes,
{
}

/// Relies on `encoding_rs::UTF_8`, the UTF-8 encoding, whose name is "UTF-8".
#[verifier::external_body]
pub(crate) fn utf8_encoding() -> (r: &'static Encoding)
    ensures
        encoding_name(*r) == utf8_name(),
{
    encoding_rs::UTF_8
}

/// Relies on `Encoding::decode`: decodes the whole input, sniffing a byte order
/// mark, and replaces malformed sequences with U+FFFD. Its output is at most
/// `max_utf8_buffer_length` of a fresh decoder (3 bytes per input byte, plus 3),
/// and it sizes buffers without overflow for inputs up to `MAX_CHUNK`. For UTF-8
/// without a byte order mark, valid input comes back as it is.
#[verifier::external_body]
pub(crate) fn decode(e: &'static Encoding, bytes: &[u8]) -> (r: String)
    requires
        bytes@.len() <= MAX_CHUNK,
    ensures
        r@ == decoded(encoding_name(*e), bytes@),
        encode_utf8(r@).len() <= 3 * bytes@.len() + 3,
        encoding_name(*e) == utf8_name() && !starts_with_bom(bytes@) ==> utf8_decoding(
            bytes@,
            r@,
        ),
{
    let (text, _, _) = e.decode(bytes);
    text.into_owned()
}

/// Relies on `Encoding::encode`: encodes the whole text, replacing unmappable
/// characters with numeric character references; it sizes buffers without
/// overflow for texts up to `usize::MAX / 64` bytes. Into UTF-8 it gives the
/// text's own UTF-8 bytes.
#[verifier::external_body]
pub(crate) fn encode(e: &'static Encoding, text: &str) -> (r: Vec<u8>)
    requires
        encode_utf8(text@).len() <= usize::MAX / 64,
    ensures
        r@ == encoded(encoding_name(*e), text@),
        encoding_name(*e) == utf8_name() ==> r@ == encode_utf8(text@),
{
    let (bytes, _, _) = e.encode(text);
    bytes.into_owned()
}

/// Transcodes `input` from encoding `from` to encoding `to`.
pub fn transcode_bytes(from: &'static Encoding, to: &'static Encoding, input: &[u8]) -> (r: Vec<
    u8,
>)
    requires
        input@.len() <= MAX_CHUNK,
    ensures
        r@ == transcoded(encoding_name(*from), encoding_name(*to), input@),
        encoding_name(*from) == utf8_name() && !starts_with_bom(input@) ==> utf8_decoding(
            input@,
            decoded(utf8_name(), input@),
        ),
        encoding_name(*from) == utf8_name() && encoding_name(*to) == utf8_name() && valid_utf8(
            input@,
        ) && !starts_with_bom(input@) ==> r@ == input@,
{
    let text = decode(from, input);
    let out = encode(to, text.as_str());
    proof {
        if encoding_name(*from) == utf8_name() && encoding_name(*to) == utf8_name() && valid_utf8(
            input@,
        ) && !starts_with_bom(input@) {
            assert(encode_utf8(decode_utf8(input@)) == input@);
        }
    }
    out
}

} // verus!
