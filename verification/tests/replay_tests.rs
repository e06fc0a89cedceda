//! End-to-end tests of the replay facade over synthetic containers.

use std::io::Write;

use broodrep::{
    BroodrepError, ByteStream, DecompressionConfig, DecompressionError, Engine, GameSpeed,
    GameType, Player, PlayerType, Race, Replay, ReplayFormat, ReplaySection,
};

// --- a minimal implode (PKWARE) encoder: uncoded literals plus the end code ---

struct BitWriter {
    bytes: Vec<u8>,
    nbits: usize,
}

impl BitWriter {
    fn new() -> Self {
        BitWriter { bytes: Vec::new(), nbits: 0 }
    }

    fn push_bit(&mut self, b: bool) {
        if self.nbits % 8 == 0 {
            self.bytes.push(0);
        }
        if b {
            let i = self.bytes.len() - 1;
            self.bytes[i] |= 1 << (self.nbits % 8);
        }
        self.nbits += 1;
    }

    fn push_bits_lsb(&mut self, v: u32, n: usize) {
        for i in 0..n {
            self.push_bit((v >> i) & 1 == 1);
        }
    }

    // a canonical Huffman code, most significant code bit first; on the wire
    // each code bit is inverted
    fn push_code_inverted(&mut self, code: u32, len: usize) {
        for i in (0..len).rev() {
            self.push_bit((code >> i) & 1 == 0);
        }
    }
}

/// Implode-compresses `data` using only uncoded literals, ending with the
/// end-of-stream code (length symbol 15 with all extra bits set).
fn implode_stored(data: &[u8]) -> Vec<u8> {
    let mut w = BitWriter::new();
    w.bytes.push(0); // literals are uncoded
    w.bytes.push(4); // dictionary size: 4 extra distance bits
    w.nbits = 16;
    for &b in data {
        w.push_bit(false);
        w.push_bits_lsb(b as u32, 8);
    }
    w.push_bit(true);
    w.push_code_inverted(127, 7); // length symbol 15
    w.push_bits_lsb(255, 8); // 264 + 255 = 519: end of stream
    w.bytes
}

fn zlib_compress(data: &[u8]) -> Vec<u8> {
    let mut enc = flate2::write::ZlibEncoder::new(Vec::new(), flate2::Compression::default());
    enc.write_all(data).unwrap();
    enc.finish().unwrap()
}

// --- container builders ---

fn push_u32(out: &mut Vec<u8>, v: u32) {
    out.extend_from_slice(&v.to_le_bytes());
}

/// A legacy-style section made of the given pre-compressed chunks.
fn legacy_section(chunks: &[Vec<u8>]) -> Vec<u8> {
    let mut out = Vec::new();
    push_u32(&mut out, 0); // checksum (unchecked)
    push_u32(&mut out, chunks.len() as u32);
    for c in chunks {
        push_u32(&mut out, c.len() as u32);
        out.extend_from_slice(c);
    }
    out
}

/// A legacy-style section with no chunks at all, used where only the walk
/// matters.
fn empty_section() -> Vec<u8> {
    legacy_section(&[])
}

fn write_bytes(buf: &mut [u8], at: usize, bytes: &[u8]) {
    buf[at..at + bytes.len()].copy_from_slice(bytes);
}

struct HeaderSpec<'a> {
    engine: u8,
    frames: u32,
    start_time: u32,
    title: &'a str,
    map_width: u16,
    map_height: u16,
    available_slots: u8,
    speed: u8,
    game_type: u16,
    game_sub_type: u16,
    host_name: &'a str,
    map_name: &'a str,
    // (slot_id, network_id, player_type, race, team, name)
    slots: Vec<(u16, u8, u8, u8, u8, &'a str)>,
}

/// Builds the 633-byte decoded header blob.
fn build_header(h: &HeaderSpec) -> Vec<u8> {
    let mut buf = vec![0u8; 0x279];
    buf[0] = h.engine;
    write_bytes(&mut buf, 1, &h.frames.to_le_bytes());
    write_bytes(&mut buf, 8, &h.start_time.to_le_bytes());
    write_bytes(&mut buf, 24, h.title.as_bytes());
    write_bytes(&mut buf, 52, &h.map_width.to_le_bytes());
    write_bytes(&mut buf, 54, &h.map_height.to_le_bytes());
    buf[57] = h.available_slots;
    buf[58] = h.speed;
    write_bytes(&mut buf, 60, &h.game_type.to_le_bytes());
    write_bytes(&mut buf, 62, &h.game_sub_type.to_le_bytes());
    write_bytes(&mut buf, 72, h.host_name.as_bytes());
    write_bytes(&mut buf, 97, h.map_name.as_bytes());
    for (i, slot) in h.slots.iter().enumerate() {
        let base = 161 + 36 * i;
        write_bytes(&mut buf, base, &slot.0.to_le_bytes());
        buf[base + 4] = slot.1;
        buf[base + 8] = slot.2;
        buf[base + 9] = slot.3;
        buf[base + 10] = slot.4;
        write_bytes(&mut buf, base + 11, slot.5.as_bytes());
    }
    buf
}

fn empty_slots() -> Vec<(u16, u8, u8, u8, u8, &'static str)> {
    (0..12).map(|i| (i as u16, 0, 0, 6, 0, "")).collect()
}

fn legacy_header_spec() -> HeaderSpec<'static> {
    let mut slots = empty_slots();
    slots[0] = (0, 0, 2, 1, 1, "neiv");
    HeaderSpec {
        engine: 1,
        frames: 894,
        start_time: 1477230422,
        title: "neiv",
        map_width: 128,
        map_height: 128,
        available_slots: 4,
        speed: 6,
        game_type: 15,
        game_sub_type: 2,
        host_name: "neiv",
        map_name: "Shadowlands",
        slots,
    }
}

fn modern_header_spec() -> HeaderSpec<'static> {
    let mut slots = empty_slots();
    slots[0] = (0, 0, 2, 1, 1, "u");
    slots[1] = (1, 255, 1, 2, 1, "Sargas Tribe");
    HeaderSpec {
        engine: 1,
        frames: 715,
        start_time: 1578881288,
        title: "u",
        map_width: 128,
        map_height: 112,
        available_slots: 2,
        speed: 6,
        game_type: 2,
        game_sub_type: 1,
        host_name: "",
        map_name: "\u{0007}제3세계(Third World) \u{0005}",
        slots,
    }
}

/// Assembles a legacy container: magic section with `reRS`, the imploded
/// header section, then the fixed walk sections.
fn build_legacy_replay(header: &[u8]) -> Vec<u8> {
    let mut out = Vec::new();
    push_u32(&mut out, 0); // checksum of the magic section
    push_u32(&mut out, 1); // one chunk
    push_u32(&mut out, 4); // of four bytes
    out.extend_from_slice(b"reRS");
    out.extend_from_slice(&legacy_section(&[implode_stored(header)]));
    for _ in 0..5 {
        out.extend_from_slice(&empty_section());
    }
    out
}

/// Assembles a modern (1.18-1.21) container: `reRS` magic with a
/// zlib-compressed header whose signature byte sits at offset 28.
fn build_modern_replay(header: &[u8]) -> Vec<u8> {
    let mut out = Vec::new();
    push_u32(&mut out, 0);
    push_u32(&mut out, 1);
    push_u32(&mut out, 4);
    out.extend_from_slice(b"reRS");
    out.extend_from_slice(&legacy_section(&[zlib_compress(header)]));
    for _ in 0..5 {
        out.extend_from_slice(&empty_section());
    }
    out
}

/// Assembles a 1.21+ container: `seRS` magic, the extra offset-hint field,
/// a zlib-compressed header, the fixed walk sections (PlayerNames carrying
/// real compressed content), then the given tagged sections.
fn build_modern121_replay(header: &[u8], tagged: &[(&[u8; 4], Vec<u8>)]) -> Vec<u8> {
    let mut out = Vec::new();
    push_u32(&mut out, 0);
    push_u32(&mut out, 1);
    push_u32(&mut out, 4);
    out.extend_from_slice(b"seRS");
    push_u32(&mut out, 0); // offset hint, unused by the walk
    out.extend_from_slice(&legacy_section(&[zlib_compress(header)]));
    out.extend_from_slice(&empty_section()); // size companion of Commands
    out.extend_from_slice(&empty_section()); // Commands
    out.extend_from_slice(&empty_section()); // size companion of MapData
    out.extend_from_slice(&empty_section()); // MapData
    // PlayerNames, with a body that really decompresses
    out.extend_from_slice(&legacy_section(&[zlib_compress(&vec![0u8; 5000])]));
    for (tag, body) in tagged {
        out.extend_from_slice(&tag[..]);
        push_u32(&mut out, body.len() as u32);
        out.extend_from_slice(body);
    }
    out
}

// --- format detection ---

#[test]
fn test_replay_format_invalid() {
    let not_a_replay = vec![0u8; 100];
    let r = Replay::new(ByteStream::new(not_a_replay));
    assert!(matches!(r, Err(BroodrepError::MalformedHeader(_))));
}

#[test]
fn short_buffer_is_malformed() {
    let r = Replay::new(ByteStream::new(vec![0u8; 10]));
    assert!(matches!(r, Err(BroodrepError::MalformedHeader(_))));
}

#[test]
fn test_replay_format_legacy() {
    let data = build_legacy_replay(&build_header(&legacy_header_spec()));
    let replay = Replay::new(ByteStream::new(data)).unwrap();
    assert_eq!(replay.format, ReplayFormat::Legacy);
}

#[test]
fn test_replay_format_legacy_empty() {
    // a legacy container whose twelve slots are all unoccupied
    let mut spec = legacy_header_spec();
    spec.slots = empty_slots();
    spec.host_name = "";
    let data = build_legacy_replay(&build_header(&spec));
    let replay = Replay::new(ByteStream::new(data)).unwrap();
    assert_eq!(replay.format, ReplayFormat::Legacy);
    assert!(replay.players().is_empty());
    // name matching is literal: an empty host name matches the first
    // unoccupied slot
    assert_eq!(replay.host_player().unwrap().name, "");
}

#[test]
fn test_replay_format_scr_old() {
    let data = build_modern_replay(&build_header(&modern_header_spec()));
    let replay = Replay::new(ByteStream::new(data)).unwrap();
    assert_eq!(replay.format, ReplayFormat::Modern);
}

#[test]
fn test_replay_format_scr_121() {
    let data = build_modern121_replay(&build_header(&modern_header_spec()), &[]);
    let replay = Replay::new(ByteStream::new(data)).unwrap();
    assert_eq!(replay.format, ReplayFormat::Modern121);
}

// --- header parsing ---

#[test]
fn replay_header_legacy() {
    let data = build_legacy_replay(&build_header(&legacy_header_spec()));
    let replay = Replay::new(ByteStream::new(data)).unwrap();

    assert_eq!(replay.header.engine, Engine::BroodWar);
    assert_eq!(replay.header.frames, 894);
    assert_eq!(replay.header.start_time, 1477230422);
    assert_eq!(replay.header.title, "neiv");
    assert_eq!(replay.header.map_width, 128);
    assert_eq!(replay.header.map_height, 128);
    assert_eq!(replay.header.available_slots, 4);
    assert_eq!(replay.header.speed, GameSpeed::Fastest);
    assert_eq!(replay.header.game_type, GameType::TopVsBottom);
    assert_eq!(replay.header.game_sub_type, 2);
    assert_eq!(replay.header.host_name, "neiv");
    assert_eq!(replay.header.map_name, "Shadowlands");
}

#[test]
fn replay_header_scr_121() {
    let data = build_modern121_replay(&build_header(&modern_header_spec()), &[]);
    let replay = Replay::new(ByteStream::new(data)).unwrap();

    assert_eq!(replay.header.engine, Engine::BroodWar);
    assert_eq!(replay.header.frames, 715);
    assert_eq!(replay.header.start_time, 1578881288);
    assert_eq!(replay.header.title, "u");
    assert_eq!(replay.header.map_width, 128);
    assert_eq!(replay.header.map_height, 112);
    assert_eq!(replay.header.available_slots, 2);
    assert_eq!(replay.header.speed, GameSpeed::Fastest);
    assert_eq!(replay.header.game_type, GameType::Melee);
    assert_eq!(replay.header.game_sub_type, 1);
    assert_eq!(replay.header.host_name, "");
    assert_eq!(replay.header.map_name, "\u{0007}제3세계(Third World) \u{0005}");

    assert_eq!(replay.header.slots.len(), 12);
    assert_eq!(
        replay.header.slots[0],
        Player {
            slot_id: 0,
            network_id: 0,
            player_type: PlayerType::Human,
            name: "u".into(),
            race: Race::Terran,
            team: 1,
        }
    );
    assert!(!replay.header.slots[0].is_observer());
    assert_eq!(
        replay.header.slots[1],
        Player {
            slot_id: 1,
            network_id: 255,
            player_type: PlayerType::Computer,
            name: "Sargas Tribe".into(),
            race: Race::Protoss,
            team: 1,
        }
    );
    assert!(replay.header.slots[2].is_empty());

    let occupied = replay.header.players();
    assert_eq!(occupied.len(), 2);
    let observers = replay.header.observers();
    assert_eq!(observers.len(), 0);
}

#[test]
fn observers_are_classified_by_network_id() {
    let mut spec = modern_header_spec();
    // network ids 128..=131 are observers; 255 is a computer
    spec.slots[2] = (2, 128, 2, 6, 2, "watcher");
    let data = build_modern121_replay(&build_header(&spec), &[]);
    let replay = Replay::new(ByteStream::new(data)).unwrap();
    let observers = replay.observers();
    assert_eq!(observers.len(), 1);
    assert_eq!(observers[0].name, "watcher");
    assert!(observers[0].is_observer());
    assert_eq!(replay.players().len(), 2);
}

#[test]
fn host_player_is_found_by_name() {
    let data = build_legacy_replay(&build_header(&legacy_header_spec()));
    let replay = Replay::new(ByteStream::new(data)).unwrap();
    let host = replay.host_player().unwrap();
    assert_eq!(host.name, "neiv");
    assert_eq!(host.player_type, PlayerType::Human);
}

#[test]
fn invalid_game_speed_is_malformed() {
    let mut spec = legacy_header_spec();
    spec.speed = 7;
    let data = build_legacy_replay(&build_header(&spec));
    assert!(matches!(
        Replay::new(ByteStream::new(data)),
        Err(BroodrepError::MalformedHeader(_))
    ));
}

#[test]
fn invalid_player_type_is_malformed() {
    let mut spec = legacy_header_spec();
    spec.slots[3].2 = 9;
    let data = build_legacy_replay(&build_header(&spec));
    assert!(matches!(
        Replay::new(ByteStream::new(data)),
        Err(BroodrepError::MalformedHeader(_))
    ));
}

// --- section indexing and retrieval ---

#[test]
fn replay_sections_legacy() {
    let header = build_header(&legacy_header_spec());
    let hsec_len = 8 + 4 + implode_stored(&header).len() as u64;
    let data = build_legacy_replay(&header);
    let replay = Replay::new(ByteStream::new(data)).unwrap();

    // magic section is 16 bytes; each empty walk section is 8 bytes
    assert_eq!(replay.section_offset(ReplaySection::Header), Some(16));
    assert_eq!(replay.section_offset(ReplaySection::Commands), Some(16 + hsec_len + 8));
    assert_eq!(replay.section_offset(ReplaySection::MapData), Some(16 + hsec_len + 24));
    assert_eq!(replay.section_offset(ReplaySection::PlayerNames), Some(16 + hsec_len + 32));
    assert_eq!(replay.section_offset(ReplaySection::Skins), None);
    assert_eq!(replay.section_offset(ReplaySection::Limits), None);
    assert_eq!(replay.section_offset(ReplaySection::Bfix), None);
    assert_eq!(replay.section_offset(ReplaySection::CustomColors), None);
    assert_eq!(replay.section_offset(ReplaySection::Gcfg), None);
    assert_eq!(replay.section_offset(ReplaySection::ShieldBattery), None);
}

#[test]
fn replay_sections_scr_121() {
    let header = build_header(&modern_header_spec());
    let hsec_len = 8 + 4 + zlib_compress(&header).len() as u64;
    let names_len = 8 + 4 + zlib_compress(&vec![0u8; 5000]).len() as u64;
    let data = build_modern121_replay(
        &header,
        &[(b"SKIN", vec![1, 2, 3]), (b"LMTS", vec![9; 8]), (b"ZZZZ", vec![5])],
    );
    let replay = Replay::new(ByteStream::new(data)).unwrap();

    let walk = 20 + hsec_len; // magic (16) + offset hint (4) + header section
    assert_eq!(replay.section_offset(ReplaySection::Header), Some(20));
    assert_eq!(replay.section_offset(ReplaySection::Commands), Some(walk + 8));
    assert_eq!(replay.section_offset(ReplaySection::MapData), Some(walk + 24));
    assert_eq!(replay.section_offset(ReplaySection::PlayerNames), Some(walk + 32));
    let tagged = walk + 32 + names_len;
    assert_eq!(replay.section_offset(ReplaySection::Skins), Some(tagged + 4));
    assert_eq!(replay.section_offset(ReplaySection::Limits), Some(tagged + 4 + 7 + 4));
    assert_eq!(
        replay.section_offset(ReplaySection::Custom(b'Z', b'Z', b'Z', b'Z')),
        Some(tagged + 4 + 7 + 4 + 12 + 4)
    );
    assert_eq!(replay.section_offset(ReplaySection::Gcfg), None);
    assert_eq!(replay.section_offset(ReplaySection::ShieldBattery), None);
}

#[test]
fn absent_section_is_none_not_an_error() {
    let data = build_modern121_replay(&build_header(&modern_header_spec()), &[]);
    let mut replay = Replay::new(ByteStream::new(data)).unwrap();
    let r = replay.get_raw_section(ReplaySection::Skins);
    assert!(matches!(r, Ok(None)));
}

#[test]
fn modern_section_bytes_come_back_raw() {
    let body = vec![1u8, 2, 3, 4, 5, 6, 7];
    let data =
        build_modern121_replay(&build_header(&modern_header_spec()), &[(b"SKIN", body.clone())]);
    let mut replay = Replay::new(ByteStream::new(data)).unwrap();
    let got = replay.get_raw_section(ReplaySection::Skins).unwrap().unwrap();
    assert_eq!(got, body);
}

#[test]
fn legacy_section_is_decompressed_on_demand() {
    let data = build_modern121_replay(&build_header(&modern_header_spec()), &[]);
    let mut replay = Replay::new(ByteStream::new(data)).unwrap();
    let names = replay.get_raw_section(ReplaySection::PlayerNames).unwrap().unwrap();
    assert_eq!(names, vec![0u8; 5000]);
}

#[test]
fn strict_cap_fails_present_section_with_decompression_error() {
    // The cap admits the 633-byte header but not the 5000-byte player-names
    // body, so construction succeeds and only that retrieval fails.
    let config = DecompressionConfig {
        max_decompressed_size: 1000,
        max_compression_ratio: u64::MAX,
        max_decompression_time: None,
    };
    let data = build_modern121_replay(&build_header(&modern_header_spec()), &[]);
    let mut replay = Replay::new_with_decompression_config(ByteStream::new(data), config).unwrap();
    let r = replay.get_raw_section(ReplaySection::PlayerNames);
    assert!(matches!(
        r,
        Err(BroodrepError::Decompression(DecompressionError::SizeLimitExceeded))
    ));
    // the replay stays usable: the header is still there and other sections
    // still resolve
    assert_eq!(replay.header.frames, 715);
    assert!(matches!(replay.get_raw_section(ReplaySection::Skins), Ok(None)));
}

#[test]
fn duplicate_section_fails_indexing() {
    let data = build_modern121_replay(
        &build_header(&modern_header_spec()),
        &[(b"SKIN", vec![1]), (b"SKIN", vec![2])],
    );
    let r = Replay::new(ByteStream::new(data));
    assert!(matches!(r, Err(BroodrepError::DuplicateSection(ReplaySection::Skins))));
}

#[test]
fn truncation_after_header_is_tolerated() {
    let header = build_header(&legacy_header_spec());
    let full = build_legacy_replay(&header);
    let hsec_len = 8 + 4 + implode_stored(&header).len();
    // cut the container right after the header section
    let data = full[..16 + hsec_len].to_vec();
    let replay = Replay::new(ByteStream::new(data)).unwrap();
    assert_eq!(replay.header.title, "neiv");
    assert_eq!(replay.section_offset(ReplaySection::Header), Some(16));
    assert_eq!(replay.section_offset(ReplaySection::Commands), None);
}

// --- the embedded-metadata section ---

fn build_sb_record() -> Vec<u8> {
    let mut b = vec![0u8; 88];
    b[0] = 1; // version 1
    write_bytes(&mut b, 2, &13515u32.to_le_bytes());
    write_bytes(&mut b, 6, b"10.1.0");
    // team_game_main_players at 22..26 stay zero
    let races: [u8; 12] = [2, 1, 0, 1, 1, 0, 1, 1, 0, 0, 0, 0];
    write_bytes(&mut b, 26, &races);
    write_bytes(&mut b, 38, &56542772156747381282200559102402795521u128.to_le_bytes());
    let ids: [u32; 8] = [101, 112, 1, 113, 0, 0, 0, 0];
    for (i, id) in ids.iter().enumerate() {
        write_bytes(&mut b, 54 + 4 * i, &id.to_le_bytes());
    }
    write_bytes(&mut b, 86, &3u16.to_le_bytes());
    b
}

#[test]
fn shieldbattery_section_v1() {
    let data =
        build_modern121_replay(&build_header(&modern_header_spec()), &[(b"Sbat", build_sb_record())]);
    let mut replay = Replay::new(ByteStream::new(data)).unwrap();

    assert!(replay.section_offset(ReplaySection::ShieldBattery).is_some());

    let data = replay.get_shieldbattery_section();
    assert!(data.is_ok());
    let data = data.unwrap();
    assert!(data.is_some());
    let data = data.unwrap();

    assert_eq!(data.starcraft_exe_build, 13515);
    assert_eq!(data.shieldbattery_version, "10.1.0");
    assert_eq!(data.team_game_main_players, [0, 0, 0, 0]);
    assert_eq!(
        data.starting_races,
        [
            Race::Protoss,
            Race::Terran,
            Race::Zerg,
            Race::Terran,
            Race::Terran,
            Race::Zerg,
            Race::Terran,
            Race::Terran,
            Race::Zerg,
            Race::Zerg,
            Race::Zerg,
            Race::Zerg
        ]
    );
    assert_eq!(data.game_id, 56542772156747381282200559102402795521);
    assert_eq!(data.user_ids, [101, 112, 1, 113, 0, 0, 0, 0]);
    assert_eq!(data.game_logic_version, Some(3));
}

#[test]
fn shieldbattery_section_missing() {
    let data = build_modern121_replay(&build_header(&modern_header_spec()), &[]);
    let mut replay = Replay::new(ByteStream::new(data)).unwrap();

    assert_eq!(replay.section_offset(ReplaySection::ShieldBattery), None);

    let data = replay.get_shieldbattery_section();
    assert!(data.is_ok());
    let data = data.unwrap();
    assert!(data.is_none());
}

#[test]
fn custom_section_is_retrievable_by_its_tag() {
    let body = vec![0xAAu8, 0xBB, 0xCC];
    let data =
        build_modern121_replay(&build_header(&modern_header_spec()), &[(b"ZZZZ", body.clone())]);
    let mut replay = Replay::new(ByteStream::new(data)).unwrap();
    let got = replay
        .get_raw_section(ReplaySection::Custom(b'Z', b'Z', b'Z', b'Z'))
        .unwrap()
        .unwrap();
    assert_eq!(got, body);
}

#[test]
fn modern_section_overrunning_the_stream_is_an_io_error() {
    // a tagged section whose size field promises more bytes than remain
    let mut data = build_modern121_replay(&build_header(&modern_header_spec()), &[]);
    data.extend_from_slice(b"SKIN");
    push_u32(&mut data, 1000);
    data.extend_from_slice(&[0u8; 10]);
    let mut replay = Replay::new(ByteStream::new(data)).unwrap();
    let r = replay.get_raw_section(ReplaySection::Skins);
    assert!(matches!(r, Err(BroodrepError::IoError)));
}

#[test]
fn small_modern_chunks_pass_through_uncompressed() {
    // a modern container whose player-names section holds a chunk of at most
    // 4 bytes: such a chunk is taken as already uncompressed
    let header = build_header(&modern_header_spec());
    let mut data = Vec::new();
    push_u32(&mut data, 0);
    push_u32(&mut data, 1);
    push_u32(&mut data, 4);
    data.extend_from_slice(b"reRS");
    data.extend_from_slice(&legacy_section(&[zlib_compress(&header)]));
    for _ in 0..4 {
        data.extend_from_slice(&empty_section());
    }
    data.extend_from_slice(&legacy_section(&[vec![9u8, 8, 7]]));
    let mut replay = Replay::new(ByteStream::new(data)).unwrap();
    assert_eq!(replay.format, ReplayFormat::Modern);
    let names = replay.get_raw_section(ReplaySection::PlayerNames).unwrap().unwrap();
    assert_eq!(names, vec![9u8, 8, 7]);
}

#[test]
fn invalid_magic_chunk_count_is_malformed() {
    let mut data = build_legacy_replay(&build_header(&legacy_header_spec()));
    // claim the magic section holds two chunks
    data[4] = 2;
    assert!(matches!(
        Replay::new(ByteStream::new(data)),
        Err(BroodrepError::MalformedHeader(_))
    ));
}

#[test]
fn invalid_magic_chunk_size_is_malformed() {
    let mut data = build_legacy_replay(&build_header(&legacy_header_spec()));
    // claim the magic payload is five bytes long
    data[8] = 5;
    assert!(matches!(
        Replay::new(ByteStream::new(data)),
        Err(BroodrepError::MalformedHeader(_))
    ));
}

#[test]
fn into_inner_gives_the_source_back() {
    let data = build_legacy_replay(&build_header(&legacy_header_spec()));
    let replay = Replay::new(ByteStream::new(data.clone())).unwrap();
    assert_eq!(replay.into_inner().into_inner(), data);
}

#[test]
fn retrieval_is_repeatable() {
    let data = build_modern121_replay(
        &build_header(&modern_header_spec()),
        &[(b"SKIN", vec![3u8, 1, 4, 1, 5])],
    );
    let mut replay = Replay::new(ByteStream::new(data)).unwrap();
    let first = replay.get_raw_section(ReplaySection::PlayerNames).unwrap().unwrap();
    let second = replay.get_raw_section(ReplaySection::PlayerNames).unwrap().unwrap();
    assert_eq!(first, second);
    let a = replay.get_raw_section(ReplaySection::Skins).unwrap().unwrap();
    let b = replay.get_raw_section(ReplaySection::Skins).unwrap().unwrap();
    assert_eq!(a, b);
}

#[test]
fn good_container_constructs_without_a_time_limit() {
    // with no wall-clock limit configured, construction of a clean container
    // is owed success
    let config = DecompressionConfig {
        max_decompressed_size: u64::MAX,
        max_compression_ratio: u64::MAX,
        max_decompression_time: None,
    };
    let data = build_modern121_replay(&build_header(&modern_header_spec()), &[(b"SKIN", vec![1])]);
    let replay = Replay::new_with_decompression_config(ByteStream::new(data), config).unwrap();
    assert_eq!(replay.header.frames, 715);
}
