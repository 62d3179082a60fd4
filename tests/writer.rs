use std::io::{Cursor, Seek, SeekFrom, Write};

use encoding_rs::{UTF_8, WINDOWS_1252};
use encoding_rs_transcode::writer::write_outcome;
use encoding_rs_transcode::TranscoderBuilder;

/// Stores what is written to it in memory.
#[derive(Default)]
pub struct MemWriter {
    pub mem: Vec<u8>,
    pub flushes: usize,
}

impl Write for MemWriter {
    fn write(&mut self, buf: &[u8]) -> std::io::Result<usize> {
        self.mem.append(&mut buf.to_vec());
        Ok(buf.len())
    }

    fn flush(&mut self) -> std::io::Result<()> {
        self.flushes += 1;
        Ok(())
    }
}

/// Refuses every write and flush.
pub struct BrokenWriter;

impl Write for BrokenWriter {
    fn write(&mut self, _buf: &[u8]) -> std::io::Result<usize> {
        Err(std::io::Error::new(std::io::ErrorKind::BrokenPipe, "closed"))
    }

    fn flush(&mut self) -> std::io::Result<()> {
        Err(std::io::Error::new(std::io::ErrorKind::BrokenPipe, "closed"))
    }
}

#[test]
fn utf8_to_win1252() {
    let expectation: [u8; 6] = [233, 224, 231, 234, 226, 238];
    let input = "éàçêâî";

    let mem_writer = MemWriter::default();

    let mut writer = TranscoderBuilder::new()
        .to_encoding(WINDOWS_1252)
        .build_writer(mem_writer);

    writer.write_all(input.as_bytes()).unwrap();

    assert!(writer.into_inner().mem == expectation);
}

#[test]
fn win1252_to_utf8() {
    let input: [u8; 6] = [233, 224, 231, 234, 226, 238];
    let expectation = "éàçêâî";

    let mem_writer = MemWriter::default();

    let mut writer = TranscoderBuilder::new()
        .from_encoding(WINDOWS_1252)
        .build_writer(mem_writer);

    writer.write_all(&input).unwrap();

    assert!(String::from_utf8_lossy(&writer.into_inner().mem) == expectation);
}

#[test]
fn write_reports_original_length_when_output_shrinks() {
    let mut writer = TranscoderBuilder::new()
        .to_encoding(WINDOWS_1252)
        .build_writer(MemWriter::default());
    let n = writer.write("éà".as_bytes()).unwrap();
    assert_eq!(n, 4);
    assert_eq!(writer.into_inner().mem, vec![233, 224]);
}

#[test]
fn write_reports_original_length_when_output_grows() {
    let mut writer = TranscoderBuilder::new()
        .from_encoding(WINDOWS_1252)
        .build_writer(MemWriter::default());
    let n = writer.write(&[233]).unwrap();
    assert_eq!(n, 1);
    assert_eq!(writer.into_inner().mem, vec![0xC3, 0xA9]);
}

#[test]
fn write_of_empty_chunk_reports_zero() {
    let mut writer = TranscoderBuilder::new().build_writer(MemWriter::default());
    assert_eq!(writer.write(&[]).unwrap(), 0);
    assert!(writer.into_inner().mem.is_empty());
}

#[test]
fn inner_write_error_is_passed_on() {
    let mut writer = TranscoderBuilder::new().build_writer(BrokenWriter);
    let err = writer.write(b"abc").unwrap_err();
    assert_eq!(err.kind(), std::io::ErrorKind::BrokenPipe);
}

#[test]
fn flush_goes_to_inner_writer() {
    let mut writer = TranscoderBuilder::new().build_writer(MemWriter::default());
    writer.flush().unwrap();
    writer.flush().unwrap();
    assert_eq!(writer.into_inner().flushes, 2);
}

#[test]
fn flush_error_is_passed_on() {
    let mut writer = TranscoderBuilder::new().build_writer(BrokenWriter);
    let direct = BrokenWriter.flush().unwrap_err().kind();
    assert_eq!(writer.flush().unwrap_err().kind(), direct);
}

#[test]
fn seek_goes_to_inner_writer() {
    let mut direct = Cursor::new(Vec::new());
    direct.write_all(b"abc").unwrap();
    let direct_pos = direct.seek(SeekFrom::Start(1)).unwrap();

    let mut writer = TranscoderBuilder::new()
        .from_encoding(UTF_8)
        .build_writer(Cursor::new(Vec::new()));
    writer.write_all(b"abc").unwrap();
    let pos = writer.seek(SeekFrom::Start(1)).unwrap();
    assert_eq!(pos, direct_pos);
    writer.write_all(b"Z").unwrap();
    assert_eq!(writer.into_inner().into_inner(), b"aZc".to_vec());
}

#[test]
fn seek_from_end_matches_inner_writer() {
    let mut writer = TranscoderBuilder::new().build_writer(Cursor::new(b"hello".to_vec()));
    assert_eq!(writer.seek(SeekFrom::End(-2)).unwrap(), 3);
}

#[test]
fn split_multibyte_sequence_is_replaced_on_both_sides() {
    let mut writer = TranscoderBuilder::new().build_writer(MemWriter::default());
    writer.write_all(&[0xC3]).unwrap();
    writer.write_all(&[0xA9]).unwrap();
    assert_eq!(
        writer.into_inner().mem,
        vec![0xEF, 0xBF, 0xBD, 0xEF, 0xBF, 0xBD]
    );
}

#[test]
fn into_inner_holds_transcoded_not_original_bytes() {
    let input = "àçé";
    let mut writer = TranscoderBuilder::new()
        .to_encoding(WINDOWS_1252)
        .build_writer(MemWriter::default());
    writer.write_all(input.as_bytes()).unwrap();
    let mem = writer.into_inner().mem;
    assert_eq!(mem, vec![224, 231, 233]);
    assert_ne!(mem, input.as_bytes().to_vec());
}

#[test]
fn transcode_chunk_gives_what_write_forwards() {
    let writer = TranscoderBuilder::new()
        .to_encoding(WINDOWS_1252)
        .build_writer(MemWriter::default());
    assert_eq!(writer.transcode_chunk("é".as_bytes()), vec![233]);
}

#[test]
fn write_outcome_reports_consumed_on_success() {
    let r: Result<usize, String> = write_outcome(10, Ok(3));
    assert_eq!(r, Ok(10));
}

#[test]
fn write_outcome_passes_error_on() {
    let r: Result<usize, String> = write_outcome(10, Err("refused".to_string()));
    assert_eq!(r, Err("refused".to_string()));
}
