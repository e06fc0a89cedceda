//! Direct tests of the header parser, the metadata parser, duration
//! formatting and the human-readable labels.

use broodrep::{
    format_duration, parse_replay_header, parse_shieldbattery_section, Engine, GameSpeed,
    GameType, PlayerType, Race, ReplayFormat,
};

fn minimal_header() -> Vec<u8> {
    let mut buf = vec![0u8; 593];
    buf[0] = 1; // engine
    buf[58] = 6; // speed: Fastest
    buf
}

#[test]
fn header_shorter_than_fixed_layout_fails() {
    let buf = vec![0u8; 592];
    assert!(parse_replay_header(&buf).is_err());
    let buf = vec![0u8; 0];
    assert!(parse_replay_header(&buf).is_err());
}

#[test]
fn header_of_exactly_the_fixed_layout_parses() {
    let h = parse_replay_header(&minimal_header()).unwrap();
    assert_eq!(h.engine, Engine::BroodWar);
    assert_eq!(h.speed, GameSpeed::Fastest);
    assert_eq!(h.frames, 0);
    assert_eq!(h.title, "");
    assert_eq!(h.slots.len(), 12);
    assert!(h.slots.iter().all(|p| p.is_empty()));
}

#[test]
fn invalid_utf8_names_are_replaced_not_rejected() {
    let mut buf = minimal_header();
    buf[24] = 0xff; // invalid UTF-8
    buf[25] = b'a';
    let h = parse_replay_header(&buf).unwrap();
    assert_eq!(h.title, "\u{FFFD}a");
}

#[test]
fn name_regions_stop_at_the_first_nul() {
    let mut buf = minimal_header();
    buf[24] = b'a';
    buf[25] = b'b';
    buf[26] = 0;
    buf[27] = b'c'; // after the NUL: ignored
    let h = parse_replay_header(&buf).unwrap();
    assert_eq!(h.title, "ab");
}

#[test]
fn unknown_game_type_is_preserved() {
    let mut buf = minimal_header();
    buf[60] = 14;
    let h = parse_replay_header(&buf).unwrap();
    assert_eq!(h.game_type, GameType::Unknown(14));
}

#[test]
fn unknown_race_defaults_to_random() {
    let mut buf = minimal_header();
    buf[161 + 9] = 77;
    let h = parse_replay_header(&buf).unwrap();
    assert_eq!(h.slots[0].race, Race::Random);
}

#[test]
fn unknown_engine_is_preserved() {
    let mut buf = minimal_header();
    buf[0] = 9;
    let h = parse_replay_header(&buf).unwrap();
    assert_eq!(h.engine, Engine::Unknown(9));
}

#[test]
fn shieldbattery_v0_has_no_game_logic_version() {
    let mut b = vec![0u8; 86];
    b[2] = 0x4b;
    b[3] = 0x34; // build 13387
    b[6] = b'9';
    let d = parse_shieldbattery_section(&b).unwrap();
    assert_eq!(d.starcraft_exe_build, 13387);
    assert_eq!(d.shieldbattery_version, "9");
    assert_eq!(d.game_logic_version, None);
}

#[test]
fn shieldbattery_too_short_fails() {
    let b = vec![0u8; 85];
    assert!(parse_shieldbattery_section(&b).is_err());
    // version 1 needs two more bytes
    let mut b = vec![0u8; 86];
    b[0] = 1;
    assert!(parse_shieldbattery_section(&b).is_err());
}

#[test]
fn duration_is_rendered_as_minutes_and_seconds() {
    // 894 frames at Fastest: 894 * 42 ms = 37.548 s
    assert_eq!(format_duration(894, GameSpeed::Fastest), "0:37 (894 frames at Fastest)");
    // 10000 frames at Fastest: 420 s exactly
    assert_eq!(format_duration(10000, GameSpeed::Fastest), "7:00 (10000 frames at Fastest)");
    // 100 frames at Slowest: 16.7 s
    assert_eq!(format_duration(100, GameSpeed::Slowest), "0:16 (100 frames at Slowest)");
    assert_eq!(format_duration(0, GameSpeed::Normal), "0:00 (0 frames at Normal)");
}

#[test]
fn time_per_step_follows_the_game_timings() {
    assert_eq!(GameSpeed::Fastest.time_per_step(), 42);
    assert_eq!(GameSpeed::Slowest.time_per_step(), 167);
    assert_eq!(GameSpeed::Normal.time_per_step(), 67);
}

#[test]
fn labels_render_like_the_game() {
    assert_eq!(ReplayFormat::Legacy.label(), "Legacy (pre-1.18)");
    assert_eq!(ReplayFormat::Modern.label(), "Modern (1.18-1.21)");
    assert_eq!(ReplayFormat::Modern121.label(), "Modern (1.21+)");
    assert_eq!(Engine::BroodWar.label(), "Brood War");
    assert_eq!(Engine::Unknown(3).label(), "Unknown (3)");
    assert_eq!(GameType::TopVsBottom.label(), "Top vs Bottom");
    assert_eq!(GameType::Unknown(14).label(), "Unknown (14)");
    assert_eq!(GameType::Unspecified.label(), "None");
    assert_eq!(PlayerType::ComputerControlled.label(), "Computer Controlled");
    assert_eq!(Race::Protoss.label(), "Protoss");
    assert_eq!(GameSpeed::Faster.label(), "Faster");
}
