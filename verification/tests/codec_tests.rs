use bytepipe::ByteSink;
use bytepipe::StreamError;
use bytepipe::VecSink;
use bytepipe::VecSource;

#[test]
fn writes_8u8() -> Result<(), String> {
    let v = 8u8;
    let mut c = VecSink::new();
    bytepipe::write_u8(&mut c, v).map_err(|e| format!("{:?}", e))?;
    let buf = c.into_inner();
    match buf.get(0) {
        Some(8u8) => Ok(()),
        Some(x) => Err(format!(
            "Expected first byte in buffer to be {}, found {}",
            v, x
        )),
        None => Err(String::from("Write failed")),
    }
}

#[test]
fn writes_8u8_le() -> Result<(), String> {
    let v = 8u8;
    let mut c = VecSink::new();
    bytepipe::write_u8_le(&mut c, v).map_err(|e| format!("{:?}", e))?;
    let buf = c.into_inner();
    match buf.get(0) {
        Some(8u8) => Ok(()),
        Some(x) => Err(format!(
            "Expected first byte in buffer to be {}, found {}",
            v, x
        )),
        None => Err(String::from("Write failed")),
    }
}

#[test]
fn writes_4660u16() -> Result<(), String> {
    let v = 0x1234u16;
    let high_bits = 0x12u8;
    let low_bits = 0x34u8;
    let mut c = VecSink::new();
    bytepipe::write_u16(&mut c, v).map_err(|e| format!("{:?}", e))?;
    let buf = c.into_inner();
    match &buf[..2] {
        &[0x12u8, 0x34u8] => Ok(()),
        &[x, y] => Err(format!(
            "Expected buffer contents to be [{}, {}], found [{}, {}]",
            high_bits, low_bits, x, y
        )),
        slice => Err(format!(
            "Expected buffer contents to be [{}, {}], found {:?}",
            high_bits, low_bits, slice
        )),
    }
}

#[test]
fn writes_4660u16_le() -> Result<(), String> {
    let v = 0x1234u16;
    let high_bits = 0x12u8;
    let low_bits = 0x34u8;
    let mut c = VecSink::new();
    bytepipe::write_u16_le(&mut c, v).map_err(|e| format!("{:?}", e))?;
    let buf = c.into_inner();
    match &buf[..2] {
        &[0x34u8, 0x12u8] => Ok(()),
        &[y, x] => Err(format!(
            "Expected buffer contents to be [{}, {}], found [{}, {}]",
            low_bits, high_bits, y, x
        )),
        slice => Err(format!(
            "Expected buffer contents to be [{}, {}], found {:?}",
            low_bits, high_bits, slice
        )),
    }
}

#[test]
fn reads_big_endian_values() {
    let mut src = VecSource::new(vec![0x12, 0x34, 0x56, 0x78, 0x9a, 0xbc]);
    assert_eq!(bytepipe::read_u16(&mut src).unwrap(), 0x1234);
    assert_eq!(bytepipe::read_u32(&mut src).unwrap(), 0x56789abc);
    assert_eq!(
        bytepipe::read_u16(&mut src),
        Err(StreamError::UnexpectedEof)
    );
}

#[test]
fn reads_little_endian_values() {
    let mut src = VecSource::new(vec![0x34, 0x12, 0xbc, 0x9a, 0x78, 0x56]);
    assert_eq!(bytepipe::read_u16_le(&mut src).unwrap(), 0x1234);
    assert_eq!(bytepipe::read_u32_le(&mut src).unwrap(), 0x56789abc);
}

#[test]
fn reads_native_endian_values() {
    let bytes = 0x1234u16.to_ne_bytes();
    let mut src = VecSource::new(bytes.to_vec());
    assert_eq!(bytepipe::read_u16_ne(&mut src).unwrap(), 0x1234);
    let bytes = 0x89ab_cdef_0123_4567u64.to_ne_bytes();
    let mut src = VecSource::new(bytes.to_vec());
    assert_eq!(
        bytepipe::read_u64_ne(&mut src).unwrap(),
        0x89ab_cdef_0123_4567
    );
}

#[test]
fn writes_native_endian_values() {
    let mut sink = VecSink::new();
    bytepipe::write_u32_ne(&mut sink, 0xdead_beef).unwrap();
    assert_eq!(sink.into_inner(), 0xdead_beefu32.to_ne_bytes().to_vec());
}

#[test]
fn signed_values_round_trip() {
    let mut sink = VecSink::new();
    bytepipe::write_i16(&mut sink, -2).unwrap();
    bytepipe::write_i32_le(&mut sink, -123456).unwrap();
    bytepipe::write_i64(&mut sink, i64::MIN).unwrap();
    bytepipe::write_i128_le(&mut sink, -1).unwrap();
    bytepipe::write_i8(&mut sink, -128).unwrap();
    let mut src = VecSource::new(sink.into_inner());
    assert_eq!(bytepipe::read_i16(&mut src).unwrap(), -2);
    assert_eq!(bytepipe::read_i32_le(&mut src).unwrap(), -123456);
    assert_eq!(bytepipe::read_i64(&mut src).unwrap(), i64::MIN);
    assert_eq!(bytepipe::read_i128_le(&mut src).unwrap(), -1);
    assert_eq!(bytepipe::read_i8(&mut src).unwrap(), -128);
}

#[test]
fn wide_values_round_trip() {
    let v = 0x0123_4567_89ab_cdef_fedc_ba98_7654_3210u128;
    let mut sink = VecSink::new();
    bytepipe::write_u128(&mut sink, v).unwrap();
    bytepipe::write_u128_le(&mut sink, v).unwrap();
    bytepipe::write_u128_ne(&mut sink, v).unwrap();
    let bytes = sink.into_inner();
    assert_eq!(bytes.len(), 48);
    assert_eq!(&bytes[0..16], v.to_be_bytes().as_slice());
    assert_eq!(&bytes[16..32], v.to_le_bytes().as_slice());
    assert_eq!(&bytes[32..48], v.to_ne_bytes().as_slice());
    let mut src = VecSource::new(bytes);
    assert_eq!(bytepipe::read_u128(&mut src).unwrap(), v);
    assert_eq!(bytepipe::read_u128_le(&mut src).unwrap(), v);
    assert_eq!(bytepipe::read_u128_ne(&mut src).unwrap(), v);
}

#[test]
fn read_bytes_stops_at_stream_end() {
    let mut src = VecSource::new(vec![1, 2, 3, 4, 5]);
    assert_eq!(bytepipe::read_bytes(&mut src, 3).unwrap(), vec![1, 2, 3]);
    assert_eq!(bytepipe::read_bytes(&mut src, 10).unwrap(), vec![4, 5]);
    assert_eq!(bytepipe::read_bytes(&mut src, 4).unwrap(), Vec::new());
}

#[test]
fn write_bytes_and_slice_agree() {
    let mut sink = VecSink::new();
    bytepipe::write_bytes(&mut sink, vec![1, 2, 3]).unwrap();
    bytepipe::write_byte_slice(&mut sink, &[4, 5]).unwrap();
    assert_eq!(sink.data(), &vec![1, 2, 3, 4, 5]);
}

#[test]
fn read_t_parses_a_trimmed_line() {
    let mut src = VecSource::new(b"  42 \n7\nnope\n".to_vec());
    let first: u32 = bytepipe::read_t(&mut src).unwrap();
    assert_eq!(first, 42);
    let second: i64 = bytepipe::read_t(&mut src).unwrap();
    assert_eq!(second, 7);
    let third: Result<u8, StreamError> = bytepipe::read_t(&mut src);
    assert_eq!(third, Err(StreamError::InvalidData));
}

#[test]
fn read_t_reads_lines_from_a_pipe() {
    let (mut reader, mut writer) = bytepipe::mk_pipe();
    writer.write_all(b"123\n").unwrap();
    let parsed: u16 = bytepipe::read_t(&mut reader).unwrap();
    assert_eq!(parsed, 123);
}

#[test]
fn index_of_finds_first_occurrence() {
    assert_eq!(bytepipe::index_of(b'c', b"abcabc"), Some(2));
    assert_eq!(bytepipe::index_of(b'z', b"abcabc"), None);
}

#[test]
fn read_line_from_works_on_memory_sources() {
    let mut src = VecSource::new(b"one\ntwo".to_vec());
    let mut line = String::new();
    assert_eq!(bytepipe::read_line_from(&mut src, &mut line).unwrap(), 4);
    assert_eq!(line, "one\n");
    let mut rest = String::new();
    assert_eq!(bytepipe::read_line_from(&mut src, &mut rest).unwrap(), 3);
    assert_eq!(rest, "two");
}
