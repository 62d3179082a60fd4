//! A writer that transcodes what it is given before handing it to another writer.
use vstd::prelude::*;

use encoding_rs::Encoding;

use vstd::utf8::*;

use crate::codec::{
    decoded, encoding_name, replacement_char, starts_with_bom, transcode_bytes, transcoded,
    utf8_name, MAX_CHUNK,
};
use crate::TranscoderBuilder;

verus! {

#[verifier::external_type_specification]
#[verifier::external_body]
pub struct ExIoError(std::io::Error);

#[verifier::external_type_specification]
#[verifier::external_body]
pub struct ExSeekFrom(std::io::SeekFrom);

/// Transcodes each chunk written to it and writes the result to `inner`.
///
/// Each chunk is decoded on its own: a multi-byte sequence split over two
/// writes is malformed in both, and is replaced. A write takes at most
/// `MAX_CHUNK` bytes and reports how many it took, as `std::io::Write` allows.
pub struct TranscoderWriter<W> {
    decoder: &'static Encoding,
    encoder: &'static Encoding,
    inner: W,
}

/// How many bytes of a chunk of `len` bytes one write takes.
pub open spec fn chunk_taken(len: nat) -> nat {
    if len <= MAX_CHUNK {
        len
    } else {
        MAX_CHUNK as nat
    }
}

/// What a write reports, given the `consumed` length of the original chunk and
/// the inner writer's `forwarded` result: the original length when the inner
/// write succeeded, whatever the transcoded length was, and the inner error
/// otherwise.
pub fn write_outcome<E>(consumed: usize, forwarded: Result<usize, E>) -> (r: Result<usize, E>)
    ensures
        forwarded is Ok ==> r == Ok::<usize, E>(consumed),
        forwarded is Err ==> r == forwarded,
{
    match forwarded {
        Ok(_) => Ok(consumed),
        Err(e) => Err(e),
    }
}

/// Relies on `std::io::Write::write` of the inner writer.
#[verifier::external_body]
fn forward_write<W: std::io::Write>(inner: &mut W, bytes: &[u8]) -> std::io::Result<usize> {
    inner.write(bytes)
}

/// Relies on `std::io::Write::flush` of the inner writer.
#[verifier::external_body]
fn forward_flush<W: std::io::Write>(inner: &mut W) -> std::io::Result<()> {
    inner.flush()
}

/// Relies on `std::io::Seek::seek` of the inner writer.
#[verifier::external_body]
fn forward_seek<W: std::io::Seek>(inner: &mut W, pos: std::io::SeekFrom) -> std::io::Result<u64> {
    inner.seek(pos)
}

impl<W> TranscoderWriter<W> {
    /// The encoding that chunks are decoded from.
    pub closed spec fn source(&self) -> Encoding {
        *self.decoder
    }

    /// The encoding that chunks are encoded into.
    pub closed spec fn target(&self) -> Encoding {
        *self.encoder
    }

    /// The writer that transcoded chunks go to.
    pub closed spec fn inner(&self) -> W {
        self.inner
    }

    /// Gives back the inner writer, dropping the transcoder.
    pub fn into_inner(self) -> (r: W)
        ensures
            r == self.inner(),
    {
        self.inner
    }

    /// The bytes that a write of `buf` hands to the inner writer: the first
    /// `chunk_taken` bytes of `buf`, transcoded.
    pub fn transcode_chunk(&self, buf: &[u8]) -> (r: Vec<u8>)
        ensures
            r@ == transcoded(
                encoding_name(self.source()),
                encoding_name(self.target()),
                buf@.subrange(0, chunk_taken(buf@.len() as nat) as int),
            ),
            buf@.len() <= MAX_CHUNK && encoding_name(self.source()) == utf8_name()
                && !starts_with_bom(buf@) && !valid_utf8(buf@) ==> decoded(
                utf8_name(),
                buf@,
            ).contains(replacement_char()),
            buf@.len() <= MAX_CHUNK && encoding_name(self.source()) == utf8_name() && encoding_name(
                self.target(),
            ) == utf8_name() && valid_utf8(buf@) && !starts_with_bom(buf@) ==> r@ == buf@,
    {
        let take: usize = if buf.len() <= MAX_CHUNK {
            buf.len()
        } else {
            MAX_CHUNK
        };
        let (head, _) = buf.split_at(take);
        proof {
            if buf@.len() <= MAX_CHUNK {
                assert(head@ =~= buf@);
            }
        }
        transcode_bytes(self.decoder, self.encoder, head)
    }
}

impl TranscoderBuilder {
    /// Builds a `TranscoderWriter` with this builder's two encodings, around
    /// `writer`.
    pub fn build_writer<W>(self, writer: W) -> (r: TranscoderWriter<W>)
        ensures
            r.source() == self.source(),
            r.target() == self.target(),
            r.inner() == writer,
    {
        TranscoderWriter { decoder: self.from_encoding, encoder: self.to_encoding, inner: writer }
    }
}

impl<W: std::io::Write> std::io::Write for TranscoderWriter<W> {
    fn write(&mut self, buf: &[u8]) -> (r: std::io::Result<usize>)
        ensures
            final(self).source() == old(self).source(),
            final(self).target() == old(self).target(),
            r is Ok ==> r->Ok_0 == chunk_taken(buf@.len() as nat),
    {
        let bytes = self.transcode_chunk(buf);
        let consumed: usize = if buf.len() <= MAX_CHUNK {
            buf.len()
        } else {
            MAX_CHUNK
        };
        write_outcome(consumed, forward_write(&mut self.inner, bytes.as_slice()))
    }

    fn flush(&mut self) -> (r: std::io::Result<()>)
        ensures
            final(self).source() == old(self).source(),
            final(self).target() == old(self).target(),
    {
        forward_flush(&mut self.inner)
    }
}

impl<W: std::io::Write + std::io::Seek> std::io::Seek for TranscoderWriter<W> {
    fn seek(&mut self, pos: std::io::SeekFrom) -> (r: std::io::Result<u64>)
        ensures
            final(self).source() == old(self).source(),
            final(self).target() == old(self).target(),
    {
        forward_seek(&mut self.inner, pos)
    }
}

} // verus!
