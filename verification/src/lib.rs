//! A decoder for StarCraft: Brood War replay containers.
//!
//! The container is parsed from an in-memory byte source: the format family is
//! detected from magic bytes, a single indexing pass records the byte offset of
//! every section, the header section is decoded and parsed eagerly, and any
//! other section can be materialized on demand. All decompression runs behind
//! a guard that bounds output size, compression ratio and elapsed time, so a
//! hostile replay cannot exhaust memory or time ("decompression bombs").

pub mod bytes;
pub mod compression;
pub mod errors;
pub mod header;
pub mod replay;
pub mod shieldbattery;
pub mod strings;
pub mod types;

pub use bytes::ByteStream;
pub use compression::{ChunkReader, DecompressionConfig, SafeDecompressor};
pub use errors::{BroodrepError, DecompressionError, ShieldBatteryDataError};
pub use header::parse_replay_header;
pub use replay::{Replay, SectionOffsetTable};
pub use shieldbattery::{parse_shieldbattery_section, ShieldBatteryData};
pub use strings::format_duration;
pub use types::{Engine, GameSpeed, GameType, Player, PlayerType, Race, ReplayFormat,
    ReplayHeader, ReplaySection};
