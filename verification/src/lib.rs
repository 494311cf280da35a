//! Byte-stream utilities: endian-aware integer codecs over byte sources and
//! sinks, and an in-process byte pipe with duplicable reader and writer
//! endpoints.

pub mod codec;
pub mod pipe;
pub mod stream;

pub use codec::read_bytes;
pub use codec::read_i128;
pub use codec::read_i128_le;
pub use codec::read_i128_ne;
pub use codec::read_i16;
pub use codec::read_i16_le;
pub use codec::read_i16_ne;
pub use codec::read_i32;
pub use codec::read_i32_le;
pub use codec::read_i32_ne;
pub use codec::read_i64;
pub use codec::read_i64_le;
pub use codec::read_i64_ne;
pub use codec::read_i8;
pub use codec::read_i8_le;
pub use codec::read_i8_ne;
pub use codec::read_t;
pub use codec::read_u128;
pub use codec::read_u128_le;
pub use codec::read_u128_ne;
pub use codec::read_u16;
pub use codec::read_u16_le;
pub use codec::read_u16_ne;
pub use codec::read_u32;
pub use codec::read_u32_le;
pub use codec::read_u32_ne;
pub use codec::read_u64;
pub use codec::read_u64_le;
pub use codec::read_u64_ne;
pub use codec::read_u8;
pub use codec::read_u8_le;
pub use codec::read_u8_ne;
pub use codec::write_byte_slice;
pub use codec::write_bytes;
pub use codec::write_i128;
pub use codec::write_i128_le;
pub use codec::write_i128_ne;
pub use codec::write_i16;
pub use codec::write_i16_le;
pub use codec::write_i16_ne;
pub use codec::write_i32;
pub use codec::write_i32_le;
pub use codec::write_i32_ne;
pub use codec::write_i64;
pub use codec::write_i64_le;
pub use codec::write_i64_ne;
pub use codec::write_i8;
pub use codec::write_i8_le;
pub use codec::write_i8_ne;
pub use codec::write_u128;
pub use codec::write_u128_le;
pub use codec::write_u128_ne;
pub use codec::write_u16;
pub use codec::write_u16_le;
pub use codec::write_u16_ne;
pub use codec::write_u32;
pub use codec::write_u32_le;
pub use codec::write_u32_ne;
pub use codec::write_u64;
pub use codec::write_u64_le;
pub use codec::write_u64_ne;
pub use codec::write_u8;
pub use codec::write_u8_le;
pub use codec::write_u8_ne;
pub use pipe::PipeRead;
pub use pipe::PipeWrite;
pub use pipe::mk_pipe;
pub use stream::ByteSink;
pub use stream::ByteSource;
pub use stream::StreamError;
pub use stream::VecSink;
pub use stream::VecSource;
pub use stream::index_of;
pub use stream::read_line_from;
