//! The replay data model: format families, section identities, header fields
//! and player slots.

use vstd::prelude::*;
use vstd::string::StringExecFns;

use crate::errors::BroodrepError;
use crate::strings::{append_decimal, spec_decimal};

verus! {

/// Decoded size of the header section, used as a preallocation hint.
pub const SIZE_HEADER: usize = 0x279;

/// Decoded size of the player-names section.
pub const SIZE_PLAYER_NAMES: usize = 0x300;

/// Decoded size of the skins section.
pub const SIZE_SKINS: usize = 0x15e0;

/// Decoded size of the limits section.
pub const SIZE_LIMITS: usize = 0x1c;

/// Decoded size of the bug-fix section.
pub const SIZE_BFIX: usize = 0x08;

/// Decoded size of the custom-colors section.
pub const SIZE_CUSTOM_COLORS: usize = 0xc0;

/// Decoded size of the game-configuration section.
pub const SIZE_GCFG: usize = 0x19;

/// The format family of a replay container.
#[derive(Debug, Copy, Clone, PartialEq, Eq, Hash, Structural)]
pub enum ReplayFormat {
    /// The replay was created with a version before 1.18.
    Legacy,
    /// The replay was created with a version between 1.18 and 1.21.
    Modern,
    /// The replay was created with version 1.21 or later.
    Modern121,
}

/// The engine the game was played under.
#[derive(Debug, Copy, Clone, PartialEq, Eq, Hash, Structural)]
pub enum Engine {
    StarCraft,
    BroodWar,
    Unknown(u8),
}

impl Engine {
    pub open spec fn spec_from_u8(value: u8) -> Engine {
        if value == 0 {
            Engine::StarCraft
        } else if value == 1 {
            Engine::BroodWar
        } else {
            Engine::Unknown(value)
        }
    }

    pub fn from_u8(value: u8) -> (r: Engine)
        ensures
            r == Engine::spec_from_u8(value),
    {
        match value {
            0 => Engine::StarCraft,
            1 => Engine::BroodWar,
            other => Engine::Unknown(other),
        }
    }
}

/// The speed setting the game was played at.
#[derive(Debug, Copy, Clone, PartialEq, Eq, Hash, Structural)]
pub enum GameSpeed {
    Slowest,
    Slower,
    Slow,
    Normal,
    Fast,
    Faster,
    Fastest,
}

impl GameSpeed {
    /// The speed a byte value stands for; `None` for bytes outside the seven
    /// known settings.
    pub open spec fn spec_from_u8(value: u8) -> Option<GameSpeed> {
        if value == 0 {
            Some(GameSpeed::Slowest)
        } else if value == 1 {
            Some(GameSpeed::Slower)
        } else if value == 2 {
            Some(GameSpeed::Slow)
        } else if value == 3 {
            Some(GameSpeed::Normal)
        } else if value == 4 {
            Some(GameSpeed::Fast)
        } else if value == 5 {
            Some(GameSpeed::Faster)
        } else if value == 6 {
            Some(GameSpeed::Fastest)
        } else {
            None
        }
    }

    /// Decodes the game-speed byte; values outside 0..=6 are a malformed
    /// header.
    pub fn try_from_u8(value: u8) -> (r: Result<GameSpeed, BroodrepError>)
        ensures
            match r {
                Ok(speed) => GameSpeed::spec_from_u8(value) == Some(speed),
                Err(e) => GameSpeed::spec_from_u8(value) is None && e is MalformedHeader,
            },
    {
        match value {
            0 => Ok(GameSpeed::Slowest),
            1 => Ok(GameSpeed::Slower),
            2 => Ok(GameSpeed::Slow),
            3 => Ok(GameSpeed::Normal),
            4 => Ok(GameSpeed::Fast),
            5 => Ok(GameSpeed::Faster),
            6 => Ok(GameSpeed::Fastest),
            _ => Err(BroodrepError::MalformedHeader("invalid game speed")),
        }
    }

    /// Milliseconds per logical step at this game speed.
    pub open spec fn spec_time_per_step(self) -> u64 {
        match self {
            GameSpeed::Slowest => 167,
            GameSpeed::Slower => 111,
            GameSpeed::Slow => 83,
            GameSpeed::Normal => 67,
            GameSpeed::Fast => 56,
            GameSpeed::Faster => 48,
            GameSpeed::Fastest => 42,
        }
    }

    /// Returns the duration per logical step for this game speed, in
    /// milliseconds. These timing values are based on StarCraft's actual
    /// frame timings.
    pub fn time_per_step(self) -> (ms: u64)
        ensures
            ms == self.spec_time_per_step(),
    {
        match self {
            GameSpeed::Slowest => 167,
            GameSpeed::Slower => 111,
            GameSpeed::Slow => 83,
            GameSpeed::Normal => 67,
            GameSpeed::Fast => 56,
            GameSpeed::Faster => 48,
            GameSpeed::Fastest => 42,
        }
    }
}

/// The game variant selected in the lobby.
#[derive(Debug, Copy, Clone, PartialEq, Eq, Hash, Structural)]
pub enum GameType {
    /// The field value that stands for no selected game type.
    Unspecified,
    Melee,
    FreeForAll,
    OneOnOne,
    CaptureTheFlag,
    Greed,
    Slaughter,
    SuddenDeath,
    Ladder,
    UseMapSettings,
    TeamMelee,
    TeamFreeForAll,
    TeamCaptureTheFlag,
    TopVsBottom,
    Unknown(u16),
}

impl GameType {
    pub open spec fn spec_from_u16(value: u16) -> GameType {
        if value == 0 {
            GameType::Unspecified
        } else if value == 2 {
            GameType::Melee
        } else if value == 3 {
            GameType::FreeForAll
        } else if value == 4 {
            GameType::OneOnOne
        } else if value == 5 {
            GameType::CaptureTheFlag
        } else if value == 6 {
            GameType::Greed
        } else if value == 7 {
            GameType::Slaughter
        } else if value == 8 {
            GameType::SuddenDeath
        } else if value == 9 {
            GameType::Ladder
        } else if value == 10 {
            GameType::UseMapSettings
        } else if value == 11 {
            GameType::TeamMelee
        } else if value == 12 {
            GameType::TeamFreeForAll
        } else if value == 13 {
            GameType::TeamCaptureTheFlag
        } else if value == 15 {
            GameType::TopVsBottom
        } else {
            GameType::Unknown(value)
        }
    }

    /// Decodes the game-type field; unknown numeric values are preserved
    /// rather than rejected.
    pub fn from_u16(value: u16) -> (r: GameType)
        ensures
            r == GameType::spec_from_u16(value),
    {
        match value {
            0 => GameType::Unspecified,
            2 => GameType::Melee,
            3 => GameType::FreeForAll,
            4 => GameType::OneOnOne,
            5 => GameType::CaptureTheFlag,
            6 => GameType::Greed,
            7 => GameType::Slaughter,
            8 => GameType::SuddenDeath,
            9 => GameType::Ladder,
            10 => GameType::UseMapSettings,
            11 => GameType::TeamMelee,
            12 => GameType::TeamFreeForAll,
            13 => GameType::TeamCaptureTheFlag,
            15 => GameType::TopVsBottom,
            other => GameType::Unknown(other),
        }
    }
}

/// What occupies (or may occupy) a player slot.
#[derive(Copy, Clone, Debug, PartialEq, Eq, Hash, Structural)]
pub enum PlayerType {
    Inactive,
    Computer,
    Human,
    RescuePassive,
    Unused,
    ComputerControlled,
    Open,
    Neutral,
    Closed,
}

impl PlayerType {
    /// The player type a byte value stands for; `None` for bytes outside the
    /// nine known values.
    pub open spec fn spec_from_u8(value: u8) -> Option<PlayerType> {
        if value == 0 {
            Some(PlayerType::Inactive)
        } else if value == 1 {
            Some(PlayerType::Computer)
        } else if value == 2 {
            Some(PlayerType::Human)
        } else if value == 3 {
            Some(PlayerType::RescuePassive)
        } else if value == 4 {
            Some(PlayerType::Unused)
        } else if value == 5 {
            Some(PlayerType::ComputerControlled)
        } else if value == 6 {
            Some(PlayerType::Open)
        } else if value == 7 {
            Some(PlayerType::Neutral)
        } else if value == 8 {
            Some(PlayerType::Closed)
        } else {
            None
        }
    }

    /// Decodes the player-type byte; values outside 0..=8 are a malformed
    /// header.
    pub fn try_from_u8(value: u8) -> (r: Result<PlayerType, BroodrepError>)
        ensures
            match r {
                Ok(t) => PlayerType::spec_from_u8(value) == Some(t),
                Err(e) => PlayerType::spec_from_u8(value) is None && e is MalformedHeader,
            },
    {
        match value {
            0 => Ok(PlayerType::Inactive),
            1 => Ok(PlayerType::Computer),
            2 => Ok(PlayerType::Human),
            3 => Ok(PlayerType::RescuePassive),
            4 => Ok(PlayerType::Unused),
            5 => Ok(PlayerType::ComputerControlled),
            6 => Ok(PlayerType::Open),
            7 => Ok(PlayerType::Neutral),
            8 => Ok(PlayerType::Closed),
            _ => Err(BroodrepError::MalformedHeader("invalid player type")),
        }
    }
}

/// A player's race.
#[derive(Copy, Clone, Debug, PartialEq, Eq, Hash, Structural)]
pub enum Race {
    Zerg,
    Terran,
    Protoss,
    /// Generally not present for occupied slots in a replay (the race will
    /// have been resolved by write time), but empty slots may carry it; any
    /// unrecognized byte also decodes to it.
    Random,
}

impl Race {
    pub open spec fn spec_from_u8(value: u8) -> Race {
        if value == 0 {
            Race::Zerg
        } else if value == 1 {
            Race::Terran
        } else if value == 2 {
            Race::Protoss
        } else {
            Race::Random
        }
    }

    /// Decodes the race byte; unknown values default to `Random` rather than
    /// failing.
    pub fn from_u8(value: u8) -> (r: Race)
        ensures
            r == Race::spec_from_u8(value),
    {
        match value {
            0 => Race::Zerg,
            1 => Race::Terran,
            2 => Race::Protoss,
            _ => Race::Random,
        }
    }
}

/// The identity of a section within the replay container: either one of the
/// well-known semantic tags, or an opaque four-byte tag for unrecognized
/// sections. Equality is by underlying tag bytes.
#[derive(Debug, Copy, Clone, PartialEq, Eq, Hash, Structural)]
pub enum ReplaySection {
    /// Header containing basic game information and player slots.
    Header,
    /// Commands issued by players during the game.
    Commands,
    /// CHK map data.
    MapData,
    /// Longer strings for player names.
    PlayerNames,
    /// Building/unit skin settings for players.
    Skins,
    /// Unit/sprite limits for the game.
    Limits,
    /// Bug fix settings.
    Bfix,
    /// Custom (extended) team color settings.
    CustomColors,
    /// Game configuration.
    Gcfg,
    /// The non-official embedded-metadata section.
    ShieldBattery,
    /// Any section that is not one of the recognized types, carrying its raw
    /// tag bytes.
    Custom(u8, u8, u8, u8),
}

impl ReplaySection {
    /// The identity a four-byte tag maps to.
    pub open spec fn spec_from_tag(t: Seq<u8>) -> ReplaySection
        recommends
            t.len() == 4,
    {
        if t =~= seq![0x53u8, 0x4bu8, 0x49u8, 0x4eu8] {  // "SKIN"
            ReplaySection::Skins
        } else if t =~= seq![0x4cu8, 0x4du8, 0x54u8, 0x53u8] {  // "LMTS"
            ReplaySection::Limits
        } else if t =~= seq![0x42u8, 0x46u8, 0x49u8, 0x58u8] {  // "BFIX"
            ReplaySection::Bfix
        } else if t =~= seq![0x43u8, 0x43u8, 0x4cu8, 0x52u8] {  // "CCLR"
            ReplaySection::CustomColors
        } else if t =~= seq![0x47u8, 0x43u8, 0x46u8, 0x47u8] {  // "GCFG"
            ReplaySection::Gcfg
        } else if t =~= seq![0x53u8, 0x62u8, 0x61u8, 0x74u8] {  // "Sbat"
            ReplaySection::ShieldBattery
        } else {
            ReplaySection::Custom(t[0], t[1], t[2], t[3])
        }
    }

    /// Maps a four-byte section tag to its identity.
    pub fn from_tag(tag: &Vec<u8>) -> (r: ReplaySection)
        requires
            tag@.len() == 4,
        ensures
            r == ReplaySection::spec_from_tag(tag@),
    {
        let t0: u8 = tag[0];
        let t1: u8 = tag[1];
        let t2: u8 = tag[2];
        let t3: u8 = tag[3];
        proof {
            assert(tag@ =~= seq![t0, t1, t2, t3]);
        }
        if t0 == 0x53 && t1 == 0x4b && t2 == 0x49 && t3 == 0x4e {
            ReplaySection::Skins
        } else if t0 == 0x4c && t1 == 0x4d && t2 == 0x54 && t3 == 0x53 {
            ReplaySection::Limits
        } else if t0 == 0x42 && t1 == 0x46 && t2 == 0x49 && t3 == 0x58 {
            ReplaySection::Bfix
        } else if t0 == 0x43 && t1 == 0x43 && t2 == 0x4c && t3 == 0x52 {
            ReplaySection::CustomColors
        } else if t0 == 0x47 && t1 == 0x43 && t2 == 0x46 && t3 == 0x47 {
            ReplaySection::Gcfg
        } else if t0 == 0x53 && t1 == 0x62 && t2 == 0x61 && t3 == 0x74 {
            ReplaySection::ShieldBattery
        } else {
            ReplaySection::Custom(t0, t1, t2, t3)
        }
    }

    pub open spec fn spec_is_modern(self) -> bool {
        match self {
            ReplaySection::Skins => true,
            ReplaySection::Limits => true,
            ReplaySection::Bfix => true,
            ReplaySection::CustomColors => true,
            ReplaySection::Gcfg => true,
            ReplaySection::ShieldBattery => true,
            ReplaySection::Custom(_, _, _, _) => true,
            _ => false,
        }
    }

    /// Returns whether a section is "modern", meaning it was added in the
    /// remastered replay format and is stored as a tag and a size followed by
    /// raw data, rather than as a chunked legacy section.
    pub fn is_modern(&self) -> (r: bool)
        ensures
            r == self.spec_is_modern(),
    {
        match self {
            ReplaySection::Skins => true,
            ReplaySection::Limits => true,
            ReplaySection::Bfix => true,
            ReplaySection::CustomColors => true,
            ReplaySection::Gcfg => true,
            ReplaySection::ShieldBattery => true,
            ReplaySection::Custom(_, _, _, _) => true,
            _ => false,
        }
    }

    pub open spec fn spec_size_hint(self) -> Option<usize> {
        match self {
            ReplaySection::Header => Some(SIZE_HEADER),
            ReplaySection::PlayerNames => Some(SIZE_PLAYER_NAMES),
            ReplaySection::Skins => Some(SIZE_SKINS),
            ReplaySection::Limits => Some(SIZE_LIMITS),
            ReplaySection::Bfix => Some(SIZE_BFIX),
            ReplaySection::CustomColors => Some(SIZE_CUSTOM_COLORS),
            ReplaySection::Gcfg => Some(SIZE_GCFG),
            _ => None,
        }
    }

    /// The decoded size of sections whose size is fixed by the format, used
    /// to preallocate output buffers.
    pub fn size_hint(&self) -> (r: Option<usize>)
        ensures
            r == self.spec_size_hint(),
    {
        match self {
            ReplaySection::Header => Some(SIZE_HEADER),
            ReplaySection::PlayerNames => Some(SIZE_PLAYER_NAMES),
            ReplaySection::Skins => Some(SIZE_SKINS),
            ReplaySection::Limits => Some(SIZE_LIMITS),
            ReplaySection::Bfix => Some(SIZE_BFIX),
            ReplaySection::CustomColors => Some(SIZE_CUSTOM_COLORS),
            ReplaySection::Gcfg => Some(SIZE_GCFG),
            _ => None,
        }
    }
}

/// One of the twelve player slots of a game, which may be empty, held by a
/// human, a computer, or an observer.
#[derive(Clone, Debug)]
pub struct Player {
    /// ID of the map slot the player was placed in (post-randomization, if
    /// applicable).
    pub slot_id: u16,
    /// Network ID of the player. Computer players will be 255. Observers
    /// will be 128-131.
    pub network_id: u8,
    pub player_type: PlayerType,
    pub race: Race,
    pub team: u8,
    pub name: String,
}

impl PartialEq for Player {
    fn eq(&self, other: &Player) -> (r: bool) {
        self.slot_id == other.slot_id && self.network_id == other.network_id
            && self.player_type == other.player_type && self.race == other.race
            && self.team == other.team && self.name == other.name
    }
}

impl vstd::std_specs::cmp::PartialEqSpecImpl for Player {
    open spec fn obeys_eq_spec() -> bool {
        true
    }

    open spec fn eq_spec(&self, other: &Player) -> bool {
        self.slot_id == other.slot_id && self.network_id == other.network_id
            && self.player_type == other.player_type && self.race == other.race
            && self.team == other.team && self.name@ == other.name@
    }
}

impl Player {
    /// True of a slot nobody occupies: the sole rule is an empty name.
    pub open spec fn spec_is_empty(self) -> bool {
        self.name@.len() == 0
    }

    /// Returns true if this `Player` represents an empty slot.
    pub fn is_empty(&self) -> (r: bool)
        ensures
            r == self.spec_is_empty(),
    {
        self.name.as_str().is_empty()
    }

    /// True of an observer slot: the sole rule is a network id of 128..=131.
    pub open spec fn spec_is_observer(self) -> bool {
        128 <= self.network_id <= 131
    }

    /// Returns true if this `Player` is an observer.
    pub fn is_observer(&self) -> (r: bool)
        ensures
            r == self.spec_is_observer(),
    {
        128 <= self.network_id && self.network_id <= 131
    }
}

/// The fixed-layout header record of a replay: game metadata and exactly
/// twelve player slots (unused slots are present but empty).
#[derive(Clone, Debug)]
pub struct ReplayHeader {
    pub engine: Engine,
    /// How many game frames this replay contains actions for.
    pub frames: u32,
    /// The time the game started at. This is actually the game's random
    /// seed, but since the game always uses the current unix timestamp as a
    /// seed, it also represents the local time the game began (local to the
    /// host).
    pub start_time: u32,
    pub title: String,
    /// Map width in tiles.
    pub map_width: u16,
    /// Map height in tiles.
    pub map_height: u16,
    pub available_slots: u8,
    pub speed: GameSpeed,
    pub game_type: GameType,
    /// For Top vs Bottom, the number of players on the first team. For team
    /// game types, the number of slots on each team (truncating the last
    /// team if necessary).
    pub game_sub_type: u16,
    pub host_name: String,
    pub map_name: String,
    /// All of the slots in the game, including empty slots.
    pub slots: Vec<Player>,
}

impl ReplayHeader {
    /// A parsed header always carries exactly twelve slot records.
    pub open spec fn wf(self) -> bool {
        self.slots@.len() == 12
    }

    /// The slots that hold a player: occupied and not an observer.
    pub open spec fn spec_players(self) -> Seq<Player> {
        self.slots@.filter(|p: Player| !p.spec_is_empty() && !p.spec_is_observer())
    }

    /// The slots that hold an observer.
    pub open spec fn spec_observers(self) -> Seq<Player> {
        self.slots@.filter(|p: Player| !p.spec_is_empty() && p.spec_is_observer())
    }

    /// Returns all of the filled slots in the game (not including
    /// observers), in slot order.
    pub fn players(&self) -> (r: Vec<&Player>)
        ensures
            r@.len() == self.spec_players().len(),
            forall|i: int| 0 <= i < r@.len() ==> *r@[i] == self.spec_players()[i],
    {
        let mut r: Vec<&Player> = Vec::new();
        let mut i: usize = 0;
        while i < self.slots.len()
            invariant
                i <= self.slots@.len(),
                r@.len() == self.slots@.take(i as int).filter(
                    |p: Player| !p.spec_is_empty() && !p.spec_is_observer(),
                ).len(),
                forall|j: int|
                    0 <= j < r@.len() ==> *r@[j] == self.slots@.take(i as int).filter(
                        |p: Player| !p.spec_is_empty() && !p.spec_is_observer(),
                    )[j],
            decreases self.slots@.len() - i,
        {
            let p: &Player = &self.slots[i];
            if !p.is_empty() && !p.is_observer() {
                r.push(p);
            }
            proof {
                reveal(Seq::filter);
                assert(self.slots@.take(i + 1).drop_last() =~= self.slots@.take(i as int));
                assert(self.slots@.take(i + 1).last() == self.slots@[i as int]);
            }
            i = i + 1;
        }
        proof {
            assert(self.slots@.take(self.slots@.len() as int) =~= self.slots@);
        }
        r
    }

    /// Returns all of the filled observer slots in the game, in slot order.
    pub fn observers(&self) -> (r: Vec<&Player>)
        ensures
            r@.len() == self.spec_observers().len(),
            forall|i: int| 0 <= i < r@.len() ==> *r@[i] == self.spec_observers()[i],
    {
        let mut r: Vec<&Player> = Vec::new();
        let mut i: usize = 0;
        while i < self.slots.len()
            invariant
                i <= self.slots@.len(),
                r@.len() == self.slots@.take(i as int).filter(
                    |p: Player| !p.spec_is_empty() && p.spec_is_observer(),
                ).len(),
                forall|j: int|
                    0 <= j < r@.len() ==> *r@[j] == self.slots@.take(i as int).filter(
                        |p: Player| !p.spec_is_empty() && p.spec_is_observer(),
                    )[j],
            decreases self.slots@.len() - i,
        {
            let p: &Player = &self.slots[i];
            if !p.is_empty() && p.is_observer() {
                r.push(p);
            }
            proof {
                reveal(Seq::filter);
                assert(self.slots@.take(i + 1).drop_last() =~= self.slots@.take(i as int));
                assert(self.slots@.take(i + 1).last() == self.slots@[i as int]);
            }
            i = i + 1;
        }
        proof {
            assert(self.slots@.take(self.slots@.len() as int) =~= self.slots@);
        }
        r
    }
}


impl ReplayFormat {
    /// The human-readable name of the format family.
    pub open spec fn spec_label(self) -> Seq<char> {
        match self {
            ReplayFormat::Legacy => "Legacy (pre-1.18)"@,
            ReplayFormat::Modern => "Modern (1.18-1.21)"@,
            ReplayFormat::Modern121 => "Modern (1.21+)"@,
        }
    }

    /// Renders the format family for humans.
    pub fn label(&self) -> (r: String)
        ensures
            r@ == self.spec_label(),
    {
        match self {
            ReplayFormat::Legacy => String::from_str("Legacy (pre-1.18)"),
            ReplayFormat::Modern => String::from_str("Modern (1.18-1.21)"),
            ReplayFormat::Modern121 => String::from_str("Modern (1.21+)"),
        }
    }
}

impl Engine {
    /// The human-readable name of the engine.
    pub open spec fn spec_label(self) -> Seq<char> {
        match self {
            Engine::StarCraft => "StarCraft"@,
            Engine::BroodWar => "Brood War"@,
            Engine::Unknown(v) => "Unknown ("@ + spec_decimal(v as int) + ")"@,
        }
    }

    /// Renders the engine name for humans.
    pub fn label(&self) -> (r: String)
        ensures
            r@ == self.spec_label(),
    {
        match self {
            Engine::StarCraft => String::from_str("StarCraft"),
            Engine::BroodWar => String::from_str("Brood War"),
            Engine::Unknown(v) => {
                let mut out = String::from_str("Unknown (");
                append_decimal(&mut out, *v as u64);
                out.append(")");
                proof {
                    assert(out@ =~= self.spec_label());
                }
                out
            },
        }
    }
}

impl GameSpeed {
    /// The human-readable name of the speed setting.
    pub open spec fn spec_label(self) -> Seq<char> {
        match self {
            GameSpeed::Slowest => "Slowest"@,
            GameSpeed::Slower => "Slower"@,
            GameSpeed::Slow => "Slow"@,
            GameSpeed::Normal => "Normal"@,
            GameSpeed::Fast => "Fast"@,
            GameSpeed::Faster => "Faster"@,
            GameSpeed::Fastest => "Fastest"@,
        }
    }

    /// Renders the speed setting for humans.
    pub fn label(&self) -> (r: String)
        ensures
            r@ == self.spec_label(),
    {
        match self {
            GameSpeed::Slowest => String::from_str("Slowest"),
            GameSpeed::Slower => String::from_str("Slower"),
            GameSpeed::Slow => String::from_str("Slow"),
            GameSpeed::Normal => String::from_str("Normal"),
            GameSpeed::Fast => String::from_str("Fast"),
            GameSpeed::Faster => String::from_str("Faster"),
            GameSpeed::Fastest => String::from_str("Fastest"),
        }
    }
}

impl GameType {
    /// The human-readable name of the game type.
    pub open spec fn spec_label(self) -> Seq<char> {
        match self {
            GameType::Unspecified => "None"@,
            GameType::Melee => "Melee"@,
            GameType::FreeForAll => "Free For All"@,
            GameType::OneOnOne => "One on One"@,
            GameType::CaptureTheFlag => "Capture The Flag"@,
            GameType::Greed => "Greed"@,
            GameType::Slaughter => "Slaughter"@,
            GameType::SuddenDeath => "Sudden Death"@,
            GameType::Ladder => "Ladder"@,
            GameType::UseMapSettings => "Use Map Settings"@,
            GameType::TeamMelee => "Team Melee"@,
            GameType::TeamFreeForAll => "Team Free For All"@,
            GameType::TeamCaptureTheFlag => "Team Capture The Flag"@,
            GameType::TopVsBottom => "Top vs Bottom"@,
            GameType::Unknown(v) => "Unknown ("@ + spec_decimal(v as int) + ")"@,
        }
    }

    /// Renders the game type for humans.
    pub fn label(&self) -> (r: String)
        ensures
            r@ == self.spec_label(),
    {
        match self {
            GameType::Unspecified => String::from_str("None"),
            GameType::Melee => String::from_str("Melee"),
            GameType::FreeForAll => String::from_str("Free For All"),
            GameType::OneOnOne => String::from_str("One on One"),
            GameType::CaptureTheFlag => String::from_str("Capture The Flag"),
            GameType::Greed => String::from_str("Greed"),
            GameType::Slaughter => String::from_str("Slaughter"),
            GameType::SuddenDeath => String::from_str("Sudden Death"),
            GameType::Ladder => String::from_str("Ladder"),
            GameType::UseMapSettings => String::from_str("Use Map Settings"),
            GameType::TeamMelee => String::from_str("Team Melee"),
            GameType::TeamFreeForAll => String::from_str("Team Free For All"),
            GameType::TeamCaptureTheFlag => String::from_str("Team Capture The Flag"),
            GameType::TopVsBottom => String::from_str("Top vs Bottom"),
            GameType::Unknown(v) => {
                let mut out = String::from_str("Unknown (");
                append_decimal(&mut out, *v as u64);
                out.append(")");
                proof {
                    assert(out@ =~= self.spec_label());
                }
                out
            },
        }
    }
}

impl PlayerType {
    /// The human-readable name of the player type.
    pub open spec fn spec_label(self) -> Seq<char> {
        match self {
            PlayerType::Inactive => "Inactive"@,
            PlayerType::Computer => "Computer"@,
            PlayerType::Human => "Human"@,
            PlayerType::RescuePassive => "Rescue Passive"@,
            PlayerType::Unused => "Unused"@,
            PlayerType::ComputerControlled => "Computer Controlled"@,
            PlayerType::Open => "Open"@,
            PlayerType::Neutral => "Neutral"@,
            PlayerType::Closed => "Closed"@,
        }
    }

    /// Renders the player type for humans.
    pub fn label(&self) -> (r: String)
        ensures
            r@ == self.spec_label(),
    {
        match self {
            PlayerType::Inactive => String::from_str("Inactive"),
            PlayerType::Computer => String::from_str("Computer"),
            PlayerType::Human => String::from_str("Human"),
            PlayerType::RescuePassive => String::from_str("Rescue Passive"),
            PlayerType::Unused => String::from_str("Unused"),
            PlayerType::ComputerControlled => String::from_str("Computer Controlled"),
            PlayerType::Open => String::from_str("Open"),
            PlayerType::Neutral => String::from_str("Neutral"),
            PlayerType::Closed => String::from_str("Closed"),
        }
    }
}

impl Race {
    /// The human-readable name of the race.
    pub open spec fn spec_label(self) -> Seq<char> {
        match self {
            Race::Zerg => "Zerg"@,
            Race::Terran => "Terran"@,
            Race::Protoss => "Protoss"@,
            Race::Random => "Random"@,
        }
    }

    /// Renders the race for humans.
    pub fn label(&self) -> (r: String)
        ensures
            r@ == self.spec_label(),
    {
        match self {
            Race::Zerg => String::from_str("Zerg"),
            Race::Terran => String::from_str("Terran"),
            Race::Protoss => String::from_str("Protoss"),
            Race::Random => String::from_str("Random"),
        }
    }
}

} // verus!
