//! Transcoding between character encodings, for whole buffers and for writers.
//!
//! The conversions themselves are done by `encoding_rs`; this crate configures
//! them and adapts them to a byte buffer or to a `std::io::Write` sink.
pub mod codec;
pub mod raw;
pub mod writer;

pub use encoding_rs;

use vstd::prelude::*;

use encoding_rs::Encoding;

use crate::codec::{encoding_name, utf8_encoding, utf8_name};

verus! {

/// A builder for the transcoders of this crate: a source and a target encoding.
pub struct TranscoderBuilder {
    from_encoding: &'static Encoding,
    to_encoding: &'static Encoding,
}

impl TranscoderBuilder {
    /// Creates a builder whose source and target encodings are both UTF-8.
    pub fn new() -> (r: Self)
        ensures
            r.is_default(),
    {
        TranscoderBuilder { from_encoding: utf8_encoding(), to_encoding: utf8_encoding() }
    }

    /// The encoding that input is decoded from.
    pub closed spec fn source(self) -> Encoding {
        *self.from_encoding
    }

    /// The encoding that output is encoded into.
    pub closed spec fn target(self) -> Encoding {
        *self.to_encoding
    }

    /// Both encodings are UTF-8.
    pub open spec fn is_default(self) -> bool {
        &&& encoding_name(self.source()) == utf8_name()
        &&& encoding_name(self.target()) == utf8_name()
    }

    /// Sets the source encoding, keeping the target encoding.
    pub fn from_encoding(self, encoding: &'static Encoding) -> (r: Self)
        ensures
            r.source() == *encoding,
            r.target() == self.target(),
    {
        TranscoderBuilder { from_encoding: encoding, to_encoding: self.to_encoding }
    }

    /// Sets the target encoding, keeping the source encoding.
    pub fn to_encoding(self, encoding: &'static Encoding) -> (r: Self)
        ensures
            r.source() == self.source(),
            r.target() == *encoding,
    {
        TranscoderBuilder { from_encoding: self.from_encoding, to_encoding: encoding }
    }
}

impl Default for TranscoderBuilder {
    fn default() -> (r: Self)
        ensures
            r.is_default(),
    {
        Self::new()
    }
}

} // verus!
