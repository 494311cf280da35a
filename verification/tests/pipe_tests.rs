use bytepipe::ByteSink;
use bytepipe::ByteSource;
use bytepipe::StreamError;
use bytepipe::mk_pipe;

#[test]
fn test_close_read() {
    let (_, mut a_to_b_write) = mk_pipe();
    assert_eq!(
        a_to_b_write
            .write(b"Hello")
            .expect_err("Write to pipe with no readers succeeded"),
        StreamError::BrokenPipe,
    );
}

#[test]
fn test_close_write() {
    let (mut a_to_b_read, mut a_to_b_write) = mk_pipe();
    let _ = a_to_b_write.write(b"Hi").unwrap();
    std::mem::drop(a_to_b_write);
    assert_eq!(
        a_to_b_read
            .read_exact(5)
            .expect_err(
                format!(
                    "Constant-size read from pipe with insufficient {}",
                    "data succeeded",
                )
                .as_ref()
            ),
        StreamError::UnexpectedEof,
    );
}

#[test]
fn exact_read_returns_written_bytes() {
    let (mut reader, mut writer) = mk_pipe();
    writer.write_all(b"Hello").unwrap();
    let got = reader.read_exact(5).unwrap();
    assert_eq!(got, b"Hello".to_vec());
}

#[test]
fn write_to_dropped_reader_fails_fast() {
    let (reader, mut writer) = mk_pipe();
    std::mem::drop(reader);
    assert_eq!(writer.write_all(b"x"), Err(StreamError::BrokenPipe));
    assert_eq!(writer.write(b"x"), Err(StreamError::BrokenPipe));
}

#[test]
fn exact_read_after_writer_dropped_fails_fast() {
    let (mut reader, mut writer) = mk_pipe();
    writer.write_all(b"Hi").unwrap();
    std::mem::drop(writer);
    assert_eq!(reader.read_exact(5), Err(StreamError::UnexpectedEof));
    // The two buffered bytes are still there for a read that fits.
    assert_eq!(reader.read_exact(2).unwrap(), b"Hi".to_vec());
}

#[test]
fn read_line_splits_at_newlines() {
    let (mut reader, mut writer) = mk_pipe();
    writer.write_all(b"line1\nline2").unwrap();
    std::mem::drop(writer);
    let mut line = String::new();
    assert_eq!(reader.read_line(&mut line).unwrap(), 6);
    assert_eq!(line, "line1\n");
    let mut rest = String::new();
    assert_eq!(reader.read_line(&mut rest).unwrap(), 5);
    assert_eq!(rest, "line2");
}

#[test]
fn read_until_takes_prefix_through_delimiter() {
    let (mut reader, mut writer) = mk_pipe();
    writer.write_all(b"ab:cd").unwrap();
    let mut out = Vec::new();
    assert_eq!(reader.read_until(b':', &mut out).unwrap(), 3);
    assert_eq!(out, b"ab:".to_vec());
    // No delimiter is left; with the writer alive the scan would wait.
    assert_eq!(reader.read_until(b':', &mut out), Err(StreamError::WouldBlock));
    // Once the writer is gone, the scan drains what remains instead.
    std::mem::drop(writer);
    assert_eq!(reader.read_until(b':', &mut out).unwrap(), 2);
    assert_eq!(out, b"ab:cd".to_vec());
}

#[test]
fn order_is_preserved_across_chunked_reads() {
    let (mut reader, mut writer) = mk_pipe();
    writer.write_all(b"ab").unwrap();
    writer.write_all(b"cd").unwrap();
    writer.write_all(b"ef").unwrap();
    std::mem::drop(writer);
    let mut collected = Vec::new();
    collected.extend(reader.read(3).unwrap());
    collected.extend(reader.read(1).unwrap());
    let mut rest = Vec::new();
    reader.read_to_end(&mut rest).unwrap();
    collected.extend(rest);
    assert_eq!(collected, b"abcdef".to_vec());
}

#[test]
fn drain_after_close_is_idempotent() {
    let (mut reader, mut writer) = mk_pipe();
    writer.write_all(b"xyz").unwrap();
    std::mem::drop(writer);
    let mut first = Vec::new();
    assert_eq!(reader.read_to_end(&mut first).unwrap(), 3);
    assert_eq!(first, b"xyz".to_vec());
    let mut again = Vec::new();
    assert_eq!(reader.read_to_end(&mut again).unwrap(), 0);
    assert_eq!(again, Vec::new());
    assert_eq!(reader.read_to_end(&mut again).unwrap(), 0);
}

#[test]
fn empty_reads_wait_while_a_writer_lives() {
    let (mut reader, writer) = mk_pipe();
    assert_eq!(reader.read(4), Err(StreamError::WouldBlock));
    assert_eq!(reader.read_exact(1), Err(StreamError::WouldBlock));
    let mut out = Vec::new();
    assert_eq!(reader.read_until(b'\n', &mut out), Err(StreamError::WouldBlock));
    assert_eq!(reader.read_to_end(&mut out), Err(StreamError::WouldBlock));
    std::mem::drop(writer);
    // With no writer left, an empty pipe reads as ended: zero bytes.
    assert_eq!(reader.read(4).unwrap(), Vec::new());
}

#[test]
fn read_line_rejects_bytes_that_are_not_text() {
    let (mut reader, mut writer) = mk_pipe();
    writer.write_all(&[0xff, 0xfe, b'\n']).unwrap();
    std::mem::drop(writer);
    let mut line = String::new();
    assert_eq!(reader.read_line(&mut line), Err(StreamError::InvalidData));
    assert_eq!(line, "");
}

#[test]
fn read_to_string_keeps_bytes_on_invalid_data() {
    let (mut reader, mut writer) = mk_pipe();
    writer.write_all(&[0xff, 0xfe]).unwrap();
    std::mem::drop(writer);
    let mut text = String::new();
    assert_eq!(reader.read_to_string(&mut text), Err(StreamError::InvalidData));
    // The bytes stay buffered: a raw drain still delivers them.
    let mut raw = Vec::new();
    assert_eq!(reader.read_to_end(&mut raw).unwrap(), 2);
    assert_eq!(raw, vec![0xff, 0xfe]);
}

#[test]
fn read_to_string_appends_decoded_text() {
    let (mut reader, mut writer) = mk_pipe();
    writer.write_all("héllo".as_bytes()).unwrap();
    std::mem::drop(writer);
    let mut text = String::from(">");
    assert_eq!(reader.read_to_string(&mut text).unwrap(), 6);
    assert_eq!(text, ">héllo");
}

#[test]
fn duplicated_writer_keeps_pipe_open() {
    let (mut reader, writer) = mk_pipe();
    let mut second = writer.duplicate();
    std::mem::drop(writer);
    // One write endpoint is gone, but its duplicate still holds the pipe
    // open, so a short read waits rather than reporting the end.
    assert_eq!(reader.read_exact(1), Err(StreamError::WouldBlock));
    second.write_all(b"ok").unwrap();
    assert_eq!(reader.read_exact(2).unwrap(), b"ok".to_vec());
    std::mem::drop(second);
    assert_eq!(reader.read_exact(1), Err(StreamError::UnexpectedEof));
}

#[test]
fn duplicated_reader_keeps_writes_alive() {
    let (reader, mut writer) = mk_pipe();
    let mut second = reader.duplicate();
    std::mem::drop(reader);
    writer.write_all(b"to the duplicate").unwrap();
    assert_eq!(second.read_exact(16).unwrap(), b"to the duplicate".to_vec());
    std::mem::drop(second);
    assert_eq!(writer.write_all(b"x"), Err(StreamError::BrokenPipe));
}

#[test]
fn read_returns_what_is_buffered_up_to_max() {
    let (mut reader, mut writer) = mk_pipe();
    writer.write_all(b"ab").unwrap();
    // Fewer bytes than asked for are returned rather than waiting for more.
    assert_eq!(reader.read(5).unwrap(), b"ab".to_vec());
    writer.write_all(b"cdef").unwrap();
    // More bytes than asked for stay buffered for the next read.
    assert_eq!(reader.read(3).unwrap(), b"cde".to_vec());
    assert_eq!(reader.read(3).unwrap(), b"f".to_vec());
}

#[test]
fn write_reports_count_and_flush_does_nothing() {
    let (mut reader, mut writer) = mk_pipe();
    assert_eq!(writer.write(b"abc").unwrap(), 3);
    writer.flush().unwrap();
    assert_eq!(reader.read_exact(3).unwrap(), b"abc".to_vec());
}
