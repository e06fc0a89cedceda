//! The embedded-metadata section parser.
//!
//! Some replays carry an out-of-band, versioned, fixed-layout record written
//! by the ShieldBattery client. Version 0 holds the executable build number,
//! a client version string, four team-game main-player markers, twelve
//! starting races, a 128-bit game identifier and eight user identifiers;
//! version 1 and later append a game-logic-version field, whose absence in
//! version 0 records is an explicit `None` rather than a default.

use vstd::prelude::*;

use crate::bytes::{le16_at, le32_at, le128_at, spec_le16_at, spec_le32_at, spec_le128_at};
use crate::errors::ShieldBatteryDataError;
use crate::header::spec_name_at;
use crate::strings::decode_cstr_region;
use crate::types::Race;

verus! {

/// Bytes a version-0 record spans.
pub const SB_MIN_LEN: usize = 86;

/// Bytes a record of version 1 or later spans.
pub const SB_V1_LEN: usize = 88;

/// The parsed embedded-metadata record.
#[derive(Debug, Clone)]
pub struct ShieldBatteryData {
    /// The build number of the StarCraft executable used to play the game.
    pub starcraft_exe_build: u32,
    /// The version string of the ShieldBattery client used to play the game.
    pub shieldbattery_version: String,
    /// Which players were the "main" players in a team game (e.g. Team
    /// Melee).
    pub team_game_main_players: [u8; 4],
    /// The starting race for each player in the game.
    pub starting_races: [Race; 12],
    /// The game's ID on ShieldBattery (a UUID as a u128).
    pub game_id: u128,
    /// The ShieldBattery user IDs of the players ingame, in the same order as
    /// the players in the replay header.
    pub user_ids: [u32; 8],
    /// The version of ShieldBattery game logic modifications used to play the
    /// game. May not be present on older replays.
    pub game_logic_version: Option<u16>,
}

/// Whether an embedded-metadata blob parses: long enough for a version-0
/// record, and for the extra field when its version is 1 or later.
pub open spec fn spec_sb_wf(d: Seq<u8>) -> bool {
    &&& d.len() >= SB_MIN_LEN
    &&& spec_le16_at(d, 0) >= 1 ==> d.len() >= SB_V1_LEN
}

/// What an embedded-metadata blob parses to.
pub open spec fn spec_sb_matches(d: Seq<u8>, r: ShieldBatteryData) -> bool {
    &&& r.starcraft_exe_build == spec_le32_at(d, 2)
    &&& r.shieldbattery_version@ == spec_name_at(d, 6, 16)
    &&& r.team_game_main_players@ == d.subrange(22, 26)
    &&& forall|i: int| 0 <= i < 12 ==> r.starting_races@[i] == Race::spec_from_u8(#[trigger] d[26 + i])
    &&& r.game_id == spec_le128_at(d, 38)
    &&& forall|i: int| 0 <= i < 8 ==> #[trigger] r.user_ids@[i] == spec_le32_at(d, 54 + 4 * i)
    &&& r.game_logic_version == if spec_le16_at(d, 0) >= 1 {
        Some(spec_le16_at(d, 86))
    } else {
        Option::<u16>::None
    }
}

/// Parses the raw bytes of the embedded-metadata section.
///
/// Succeeds exactly when the blob is long enough for its version
/// (`spec_sb_wf`); the only failure is running out of bytes.
pub fn parse_shieldbattery_section(data: &[u8]) -> (r: Result<
    ShieldBatteryData,
    ShieldBatteryDataError,
>)
    ensures
        r is Ok <==> spec_sb_wf(data@),
        match r {
            Ok(d) => spec_sb_matches(data@, d),
            Err(e) => e is UnexpectedEof,
        },
{
    if data.len() < SB_MIN_LEN {
        return Err(ShieldBatteryDataError::UnexpectedEof);
    }
    let version: u16 = le16_at(data, 0);
    let starcraft_exe_build: u32 = le32_at(data, 2);
    let shieldbattery_version: String = decode_cstr_region(data, 6, 16);
    let team_game_main_players: [u8; 4] = [data[22], data[23], data[24], data[25]];
    proof {
        assert(team_game_main_players@ =~= data@.subrange(22, 26));
    }
    let starting_races: [Race; 12] = [
        Race::from_u8(data[26]),
        Race::from_u8(data[27]),
        Race::from_u8(data[28]),
        Race::from_u8(data[29]),
        Race::from_u8(data[30]),
        Race::from_u8(data[31]),
        Race::from_u8(data[32]),
        Race::from_u8(data[33]),
        Race::from_u8(data[34]),
        Race::from_u8(data[35]),
        Race::from_u8(data[36]),
        Race::from_u8(data[37]),
    ];
    let game_id: u128 = le128_at(data, 38);
    let user_ids: [u32; 8] = [
        le32_at(data, 54),
        le32_at(data, 58),
        le32_at(data, 62),
        le32_at(data, 66),
        le32_at(data, 70),
        le32_at(data, 74),
        le32_at(data, 78),
        le32_at(data, 82),
    ];
    let game_logic_version: Option<u16> = if version >= 1 {
        if data.len() < SB_V1_LEN {
            return Err(ShieldBatteryDataError::UnexpectedEof);
        }
        Some(le16_at(data, 86))
    } else {
        None
    };
    Ok(ShieldBatteryData {
        starcraft_exe_build,
        shieldbattery_version,
        team_game_main_players,
        starting_races,
        game_id,
        user_ids,
        game_logic_version,
    })
}

} // verus!
