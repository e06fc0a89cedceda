//! The fixed-layout header record parser.
//!
//! The decoded header section is parsed positionally (there are no
//! delimiters): every field sits at a fixed byte offset, multi-byte integers
//! are little-endian, and name fields are fixed-width NUL-terminated regions
//! decoded leniently as UTF-8. Exactly twelve player-slot records follow the
//! scalar fields; unused slots are present but empty.

use vstd::prelude::*;

use crate::bytes::{le16_at, le32_at, spec_le16_at, spec_le32_at};
use crate::errors::BroodrepError;
use crate::strings::{decode_cstr_region, nul_trim, utf8_lossy_of};
use crate::types::{Engine, GameSpeed, GameType, Player, PlayerType, Race, ReplayHeader};

verus! {

/// The bytes a header blob must hold for every fixed-offset field to be
/// readable: the scalar fields and name regions span 161 bytes, followed by
/// twelve 36-byte slot records.
pub const HEADER_MIN_LEN: usize = 593;

/// Byte offset of the first player-slot record.
pub const SLOTS_BASE: usize = 161;

/// Width of one player-slot record.
pub const SLOT_STRIDE: usize = 36;

/// The name decoded from the fixed-width NUL-terminated region at `pos`.
pub open spec fn spec_name_at(h: Seq<u8>, pos: int, width: int) -> Seq<char> {
    utf8_lossy_of(nul_trim(h.subrange(pos, pos + width)))
}

/// Whether a header blob parses: it is long enough, its game-speed byte is a
/// known setting, and every slot's player-type byte is a known value.
pub open spec fn spec_header_wf(h: Seq<u8>) -> bool {
    &&& h.len() >= HEADER_MIN_LEN
    &&& GameSpeed::spec_from_u8(h[58]) is Some
    &&& forall|i: int|
        0 <= i < 12 ==> PlayerType::spec_from_u8(
            #[trigger] h[SLOTS_BASE + SLOT_STRIDE * i + 8],
        ) is Some
}

/// What the slot record at index `i` of the header blob parses to.
pub open spec fn spec_slot_matches(h: Seq<u8>, i: int, p: Player) -> bool {
    let base = SLOTS_BASE + SLOT_STRIDE * i;
    &&& p.slot_id == spec_le16_at(h, base)
    &&& p.network_id == h[base + 4]
    &&& PlayerType::spec_from_u8(h[base + 8]) == Some(p.player_type)
    &&& p.race == Race::spec_from_u8(h[base + 9])
    &&& p.team == h[base + 10]
    &&& p.name@ == spec_name_at(h, base + 11, 25)
}

/// What the scalar fields of the header blob parse to.
pub open spec fn spec_header_matches(h: Seq<u8>, r: ReplayHeader) -> bool {
    &&& r.engine == Engine::spec_from_u8(h[0])
    &&& r.frames == spec_le32_at(h, 1)
    &&& r.start_time == spec_le32_at(h, 8)
    &&& r.title@ == spec_name_at(h, 24, 28)
    &&& r.map_width == spec_le16_at(h, 52)
    &&& r.map_height == spec_le16_at(h, 54)
    &&& r.available_slots == h[57]
    &&& GameSpeed::spec_from_u8(h[58]) == Some(r.speed)
    &&& r.game_type == GameType::spec_from_u16(spec_le16_at(h, 60))
    &&& r.game_sub_type == spec_le16_at(h, 62)
    &&& r.host_name@ == spec_name_at(h, 72, 24)
    &&& r.map_name@ == spec_name_at(h, 97, 26)
    &&& r.slots@.len() == 12
    &&& forall|i: int| 0 <= i < 12 ==> spec_slot_matches(h, i, #[trigger] r.slots@[i])
}

/// Parses the decoded header section into a [`ReplayHeader`].
///
/// Succeeds exactly when the blob is well formed (`spec_header_wf`): long
/// enough for every fixed-offset field, with a known game-speed byte and
/// twelve known player-type bytes. Every failure is a malformed-header error;
/// unknown game types and races are preserved or defaulted rather than
/// rejected.
pub fn parse_replay_header(data: &[u8]) -> (r: Result<ReplayHeader, BroodrepError>)
    ensures
        r is Ok <==> spec_header_wf(data@),
        match r {
            Ok(h) => h.wf() && spec_header_matches(data@, h),
            Err(e) => e is MalformedHeader,
        },
{
    if data.len() < HEADER_MIN_LEN {
        return Err(BroodrepError::MalformedHeader("header too short"));
    }
    let engine = Engine::from_u8(data[0]);
    let frames: u32 = le32_at(data, 1);
    let start_time: u32 = le32_at(data, 8);
    let title: String = decode_cstr_region(data, 24, 28);
    let map_width: u16 = le16_at(data, 52);
    let map_height: u16 = le16_at(data, 54);
    let available_slots: u8 = data[57];
    let speed: GameSpeed = match GameSpeed::try_from_u8(data[58]) {
        Ok(s) => s,
        Err(e) => {
            return Err(e);
        },
    };
    let game_type = GameType::from_u16(le16_at(data, 60));
    let game_sub_type: u16 = le16_at(data, 62);
    let host_name: String = decode_cstr_region(data, 72, 24);
    let map_name: String = decode_cstr_region(data, 97, 26);

    let mut slots: Vec<Player> = Vec::new();
    let mut i: usize = 0;
    while i < 12
        invariant
            data@.len() >= HEADER_MIN_LEN,
            data@.len() <= usize::MAX,
            i <= 12,
            slots@.len() == i,
            forall|j: int| 0 <= j < i ==> spec_slot_matches(data@, j, #[trigger] slots@[j]),
        decreases 12 - i,
    {
        let base: usize = SLOTS_BASE + SLOT_STRIDE * i;
        let slot_id: u16 = le16_at(data, base);
        let network_id: u8 = data[base + 4];
        let player_type: PlayerType = match PlayerType::try_from_u8(data[base + 8]) {
            Ok(t) => t,
            Err(e) => {
                return Err(e);
            },
        };
        let race = Race::from_u8(data[base + 9]);
        let team: u8 = data[base + 10];
        let name: String = decode_cstr_region(data, base + 11, 25);
        slots.push(Player { slot_id, network_id, player_type, race, team, name });
        i = i + 1;
    }

    proof {
        assert forall|k: int| 0 <= k < 12 implies PlayerType::spec_from_u8(
            #[trigger] data@[SLOTS_BASE + SLOT_STRIDE * k + 8],
        ) is Some by {
            assert(spec_slot_matches(data@, k, slots@[k]));
        }
    }
    Ok(ReplayHeader {
        engine,
        frames,
        start_time,
        title,
        map_width,
        map_height,
        available_slots,
        speed,
        game_type,
        game_sub_type,
        host_name,
        map_name,
        slots,
    })
}

} // verus!
