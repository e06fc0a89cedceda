//! Tests of the bounded decompression guard over implode and zlib streams.

use std::io::Write;

use broodrep::{ChunkReader, DecompressionConfig, DecompressionError, SafeDecompressor};

struct BitWriter {
    bytes: Vec<u8>,
    nbits: usize,
}

impl BitWriter {
    fn new() -> Self {
        BitWriter { bytes: Vec::new(), nbits: 0 }
    }

    fn push_bit(&mut self, b: bool) {
        if self.nbits % 8 == 0 {
            self.bytes.push(0);
        }
        if b {
            let i = self.bytes.len() - 1;
            self.bytes[i] |= 1 << (self.nbits % 8);
        }
        self.nbits += 1;
    }

    fn push_bits_lsb(&mut self, v: u32, n: usize) {
        for i in 0..n {
            self.push_bit((v >> i) & 1 == 1);
        }
    }

    fn push_code_inverted(&mut self, code: u32, len: usize) {
        for i in (0..len).rev() {
            self.push_bit((code >> i) & 1 == 0);
        }
    }
}

/// Implode-compresses `data` using only uncoded literals.
fn implode_stored(data: &[u8]) -> Vec<u8> {
    let mut w = BitWriter::new();
    w.bytes.push(0);
    w.bytes.push(4);
    w.nbits = 16;
    for &b in data {
        w.push_bit(false);
        w.push_bits_lsb(b as u32, 8);
    }
    w.push_bit(true);
    w.push_code_inverted(127, 7);
    w.push_bits_lsb(255, 8);
    w.bytes
}

/// An imploded stream that expands to at least `min_out` zero bytes from a
/// few kilobytes of input: one literal, then maximal back-references.
fn implode_bomb(min_out: usize) -> Vec<u8> {
    let mut w = BitWriter::new();
    w.bytes.push(0);
    w.bytes.push(4);
    w.nbits = 16;
    w.push_bit(false);
    w.push_bits_lsb(0, 8);
    let mut produced: usize = 1;
    while produced < min_out {
        w.push_bit(true);
        w.push_code_inverted(127, 7); // length symbol 15
        w.push_bits_lsb(252, 8); // 264 + 252 = 516 bytes
        w.push_code_inverted(0, 2); // distance symbol 0
        w.push_bits_lsb(0, 4); // distance 1
        produced += 516;
    }
    w.push_bit(true);
    w.push_code_inverted(127, 7);
    w.push_bits_lsb(255, 8);
    w.bytes
}

fn create_zlib_bomb() -> Vec<u8> {
    let mut encoder = flate2::write::ZlibEncoder::new(Vec::new(), flate2::Compression::default());
    let data = vec![0u8; 1024 * 1024];
    encoder.write_all(&data).unwrap();
    encoder.finish().unwrap()
}

fn unbounded() -> DecompressionConfig {
    DecompressionConfig {
        max_decompressed_size: u64::MAX,
        max_compression_ratio: u64::MAX,
        max_decompression_time: None,
    }
}

#[test]
fn implode_bomb_size() {
    let bomb = implode_bomb(1024 * 1024);
    let config = DecompressionConfig {
        max_decompressed_size: 1000 * 1024, // slightly less than 1MB
        max_compression_ratio: u64::MAX,
        ..Default::default()
    };
    let len = bomb.len() as u64;
    let mut safe = SafeDecompressor::new(ChunkReader::implode(bomb), config, Some(len));
    let mut out = Vec::new();
    let result = safe.read_to_end(&mut out);
    assert!(result.is_err());
    let err = result.unwrap_err();
    assert!(matches!(err, DecompressionError::SizeLimitExceeded));
    assert!(out.len() as u64 <= 1000 * 1024);
}

#[test]
fn implode_bomb_ratio() {
    let bomb = implode_bomb(1024 * 1024);
    let config = DecompressionConfig { max_compression_ratio: 100, ..Default::default() };
    let len = bomb.len() as u64;
    let mut safe = SafeDecompressor::new(ChunkReader::implode(bomb), config, Some(len));
    let mut out = Vec::new();
    let result = safe.read_to_end(&mut out);
    assert!(result.is_err());
    let err = result.unwrap_err();
    assert!(matches!(err, DecompressionError::CompressionRatioExceeded));
}

#[test]
fn zlib_bomb_size() {
    let config = DecompressionConfig {
        max_decompressed_size: 1000 * 1024, // slightly less than 1MB
        max_compression_ratio: u64::MAX,
        ..Default::default()
    };
    let data = create_zlib_bomb();
    let len = data.len() as u64;
    let mut safe = SafeDecompressor::new(ChunkReader::zlib(data), config, Some(len));
    let mut out = Vec::new();
    let result = safe.read_to_end(&mut out);
    assert!(result.is_err());
    let err = result.unwrap_err();
    assert!(matches!(err, DecompressionError::SizeLimitExceeded));
    assert!(out.len() as u64 <= 1000 * 1024);
}

#[test]
fn zlib_bomb_ratio() {
    let config = DecompressionConfig { max_compression_ratio: 1000, ..Default::default() };
    let data = create_zlib_bomb();
    // a megabyte of zeros compresses far better than 1000:1
    let len = data.len() as u64;
    let mut safe = SafeDecompressor::new(ChunkReader::zlib(data), config, Some(len));
    let mut out = Vec::new();
    let result = safe.read_to_end(&mut out);
    assert!(result.is_err());
    let err = result.unwrap_err();
    assert!(matches!(err, DecompressionError::CompressionRatioExceeded));
}

#[test]
fn implode_roundtrip() {
    let original: Vec<u8> = (0..=255u8).cycle().take(2000).collect();
    let compressed = implode_stored(&original);
    let mut safe = SafeDecompressor::new(
        ChunkReader::implode(compressed.clone()),
        unbounded(),
        Some(compressed.len() as u64),
    );
    let mut out = Vec::new();
    safe.read_to_end(&mut out).unwrap();
    assert_eq!(out, original);
}

#[test]
fn zlib_roundtrip() {
    let original: Vec<u8> = (0..=255u8).cycle().take(2000).collect();
    let mut enc = flate2::write::ZlibEncoder::new(Vec::new(), flate2::Compression::default());
    enc.write_all(&original).unwrap();
    let compressed = enc.finish().unwrap();
    assert_ne!(compressed, original);
    let mut safe = SafeDecompressor::new(
        ChunkReader::zlib(compressed.clone()),
        unbounded(),
        Some(compressed.len() as u64),
    );
    let mut out = Vec::new();
    safe.read_to_end(&mut out).unwrap();
    assert_eq!(out, original);
}

#[test]
fn decoding_twice_is_identical() {
    let bomb = implode_bomb(100 * 1024);
    let mut out1 = Vec::new();
    let mut safe1 =
        SafeDecompressor::new(ChunkReader::implode(bomb.clone()), unbounded(), Some(bomb.len() as u64));
    safe1.read_to_end(&mut out1).unwrap();
    let mut out2 = Vec::new();
    let mut safe2 =
        SafeDecompressor::new(ChunkReader::implode(bomb.clone()), unbounded(), Some(bomb.len() as u64));
    safe2.read_to_end(&mut out2).unwrap();
    assert_eq!(out1, out2);
}

#[test]
fn exact_fit_at_the_cap_succeeds() {
    let original = vec![7u8; 4096];
    let compressed = implode_stored(&original);
    let config = DecompressionConfig {
        max_decompressed_size: 4096, // exactly the decoded size
        max_compression_ratio: u64::MAX,
        max_decompression_time: None,
    };
    let len = compressed.len() as u64;
    let mut safe = SafeDecompressor::new(ChunkReader::implode(compressed), config, Some(len));
    let mut out = Vec::new();
    safe.read_to_end(&mut out).unwrap();
    assert_eq!(out, original);
}

#[test]
fn corrupt_stream_is_an_io_error() {
    // a truncated imploded stream: the end code never arrives
    let mut data = implode_stored(&[1, 2, 3, 4, 5]);
    data.truncate(3);
    let len = data.len() as u64;
    let mut safe = SafeDecompressor::new(ChunkReader::implode(data), unbounded(), Some(len));
    let mut out = Vec::new();
    let result = safe.read_to_end(&mut out);
    assert!(matches!(result, Err(DecompressionError::Io)));
}

#[test]
fn unknown_input_size_skips_ratio_check() {
    let bomb = implode_bomb(100 * 1024);
    let config = DecompressionConfig {
        max_decompressed_size: u64::MAX,
        max_compression_ratio: 1, // would trip instantly if enforced
        max_decompression_time: None,
    };
    let mut safe = SafeDecompressor::new(ChunkReader::implode(bomb), config, None);
    let mut out = Vec::new();
    assert!(safe.read_to_end(&mut out).is_ok());
    assert!(out.len() >= 100 * 1024);
}
