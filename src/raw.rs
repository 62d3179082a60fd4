//! Transcoding of a whole byte buffer at once.
use vstd::prelude::*;
use vstd::utf8::*;

use encoding_rs::Encoding;

use crate::codec::{
    decoded, encoding_name, replacement_char, starts_with_bom, transcode_bytes, transcoded,
    utf8_name, MAX_CHUNK,
};
use crate::TranscoderBuilder;

verus! {

/// Transcodes byte buffers from one encoding to another, each call on its own.
pub struct TranscoderRaw {
    decoder: &'static Encoding,
    encoder: &'static Encoding,
}

impl TranscoderRaw {
    /// The encoding that input is decoded from.
    pub closed spec fn source(&self) -> Encoding {
        *self.decoder
    }

    /// The encoding that output is encoded into.
    pub closed spec fn target(&self) -> Encoding {
        *self.encoder
    }

    /// Decodes `input` whole from the source encoding and encodes the text
    /// whole into the target encoding. Nothing is carried from one call to the
    /// next. Malformed input and unmappable characters are replaced, never
    /// reported.
    pub fn transcode(&self, input: &[u8]) -> (r: Vec<u8>)
        requires
            input@.len() <= MAX_CHUNK,
        ensures
            r@ == transcoded(encoding_name(self.source()), encoding_name(self.target()), input@),
            encoding_name(self.source()) == utf8_name() && !starts_with_bom(input@) && !valid_utf8(
                input@,
            ) ==> decoded(utf8_name(), input@).contains(replacement_char()),
            encoding_name(self.source()) == utf8_name() && encoding_name(self.target())
                == utf8_name() && valid_utf8(input@) && !starts_with_bom(input@) ==> r@ == input@,
    {
        transcode_bytes(self.decoder, self.encoder, input)
    }
}

impl TranscoderBuilder {
    /// Builds a `TranscoderRaw` with this builder's two encodings.
    pub fn build_raw(self) -> (r: TranscoderRaw)
        ensures
            r.source() == self.source(),
            r.target() == self.target(),
    {
        TranscoderRaw { decoder: self.from_encoding, encoder: self.to_encoding }
    }
}

} // verus!
