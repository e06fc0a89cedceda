//! The replay facade: format detection, the single indexing pass that records
//! every section's byte offset, eager decoding and parsing of the header
//! section, and on-demand retrieval of any other section.

use vstd::prelude::*;

use crate::bytes::{sat_add64, spec_le32_at, ByteStream};
use crate::compression::{
    implode_decoded, implode_wf, zlib_decoded, zlib_wf, ChunkReader, DecompressionConfig,
    SafeDecompressor,
};
use crate::errors::{BroodrepError, DecompressionError};
use crate::header::{parse_replay_header, spec_header_matches, spec_header_wf};
use crate::shieldbattery::{parse_shieldbattery_section, spec_sb_matches, spec_sb_wf, ShieldBatteryData};
use crate::types::{Engine, GameSpeed, GameType, Player, ReplayFormat, ReplayHeader, ReplaySection, SIZE_HEADER};

verus! {

broadcast use crate::bytes::lemma_pos_bounds, crate::bytes::lemma_data_len_bound;

// ---------------------------------------------------------------------------
// The section offset table.
// ---------------------------------------------------------------------------

/// Looks a section up among recorded entries: the offset of the first entry
/// with the given identity.
pub open spec fn spec_lookup(entries: Seq<(ReplaySection, u64)>, s: ReplaySection) -> Option<u64>
    decreases entries.len(),
{
    if entries.len() == 0 {
        None
    } else if entries[0].0 == s {
        Some(entries[0].1)
    } else {
        spec_lookup(entries.subrange(1, entries.len() as int), s)
    }
}

/// Whether some entry carries the given identity.
pub open spec fn spec_entry_contains(entries: Seq<(ReplaySection, u64)>, s: ReplaySection) -> bool {
    exists|i: int| 0 <= i < entries.len() && (#[trigger] entries[i]).0 == s
}

/// `spec_lookup` finds an entry exactly when one exists.
pub proof fn lemma_lookup_contains(entries: Seq<(ReplaySection, u64)>, s: ReplaySection)
    ensures
        spec_lookup(entries, s) is Some <==> spec_entry_contains(entries, s),
    decreases entries.len(),
{
    if entries.len() == 0 {
    } else if entries[0].0 == s {
    } else {
        let rest = entries.subrange(1, entries.len() as int);
        lemma_lookup_contains(rest, s);
        if spec_entry_contains(rest, s) {
            let i = choose|i: int| 0 <= i < rest.len() && (#[trigger] rest[i]).0 == s;
            assert(entries[i + 1].0 == s);
        }
        if spec_entry_contains(entries, s) {
            let i = choose|i: int| 0 <= i < entries.len() && (#[trigger] entries[i]).0 == s;
            assert(i > 0 && rest[i - 1].0 == s);
        }
    }
}

/// The mapping from section identity to the byte offset where that section's
/// data begins in the stream. For modern (tagged) sections the offset points
/// at the 4-byte size field preceding the raw data; for legacy sections it
/// points at the section's own header (checksum and chunk count). Built once
/// while indexing; each identity occurs at most once.
pub struct SectionOffsetTable {
    entries: Vec<(ReplaySection, u64)>,
}

impl SectionOffsetTable {
    /// The recorded entries, in the order the sections were encountered.
    pub closed spec fn spec_entries(self) -> Seq<(ReplaySection, u64)> {
        self.entries@
    }

    /// The offset recorded for a section, if any.
    pub open spec fn spec_get(self, s: ReplaySection) -> Option<u64> {
        spec_lookup(self.spec_entries(), s)
    }

    pub(crate) fn new() -> (t: Self)
        ensures
            t.spec_entries() == Seq::<(ReplaySection, u64)>::empty(),
    {
        SectionOffsetTable { entries: Vec::new() }
    }

    /// Looks a section's offset up.
    pub fn get(&self, s: ReplaySection) -> (r: Option<u64>)
        ensures
            r == self.spec_get(s),
    {
        let mut i: usize = 0;
        proof {
            assert(self.entries@.subrange(0, self.entries@.len() as int) =~= self.entries@);
        }
        while i < self.entries.len()
            invariant
                i <= self.entries@.len(),
                spec_lookup(self.entries@, s) == spec_lookup(
                    self.entries@.subrange(i as int, self.entries@.len() as int),
                    s,
                ),
            decreases self.entries@.len() - i,
        {
            let ghost rest = self.entries@.subrange(i as int, self.entries@.len() as int);
            if self.entries[i].0 == s {
                proof {
                    assert(rest[0] == self.entries@[i as int]);
                }
                return Some(self.entries[i].1);
            }
            proof {
                assert(rest[0] == self.entries@[i as int]);
                assert(rest.subrange(1, rest.len() as int) =~= self.entries@.subrange(
                    i + 1,
                    self.entries@.len() as int,
                ));
            }
            i = i + 1;
        }
        None
    }

    /// Whether a section already has an entry.
    pub(crate) fn contains(&self, s: ReplaySection) -> (r: bool)
        ensures
            r == spec_entry_contains(self.spec_entries(), s),
    {
        proof {
            lemma_lookup_contains(self.entries@, s);
        }
        self.get(s).is_some()
    }

    /// Records a section's offset.
    pub(crate) fn insert(&mut self, s: ReplaySection, offset: u64)
        ensures
            final(self).spec_entries() == old(self).spec_entries().push((s, offset)),
    {
        self.entries.push((s, offset));
    }
}

// ---------------------------------------------------------------------------
// Format detection.
// ---------------------------------------------------------------------------

/// The magic bytes `seRS` of 1.21-and-later containers.
pub open spec fn spec_magic_sers() -> Seq<u8> {
    seq![0x73u8, 0x65u8, 0x52u8, 0x53u8]
}

/// The magic bytes `reRS` of older containers.
pub open spec fn spec_magic_rers() -> Seq<u8> {
    seq![0x72u8, 0x65u8, 0x52u8, 0x53u8]
}

/// What format detection decides for a byte source: `seRS` at offset 12 is
/// 1.21-or-later; otherwise the bytes must be `reRS`, and the compression
/// marker at offset 28 classifies the container as modern (`0x78`) or legacy
/// (any other value — deliberately lenient, no further range check). `None`
/// is a malformed header: the magic cannot be read or is neither value.
pub open spec fn spec_detect_format(data: Seq<u8>) -> Option<ReplayFormat> {
    if data.len() < 16 {
        None
    } else if data.subrange(12, 16) == spec_magic_sers() {
        Some(ReplayFormat::Modern121)
    } else if data.subrange(12, 16) != spec_magic_rers() {
        None
    } else if data.len() < 29 {
        None
    } else if data[28] == 0x78 {
        Some(ReplayFormat::Modern)
    } else {
        Some(ReplayFormat::Legacy)
    }
}

/// A byte buffer shorter than 16 bytes, or whose bytes at offset 12 are
/// neither `reRS` nor `seRS`, never detects as any format.
pub proof fn lemma_detect_rejects(data: Seq<u8>)
    requires
        data.len() < 16 || (data.subrange(12, 16) != spec_magic_sers() && data.subrange(12, 16)
            != spec_magic_rers()),
    ensures
        spec_detect_format(data) is None,
{
}

// ---------------------------------------------------------------------------
// Legacy-style section traversal.
// ---------------------------------------------------------------------------

/// The stream position after skipping `k` chunks, each a 4-byte size field
/// followed by that many bytes (the bytes themselves are sought over, so only
/// the size fields must be readable). `None` when a size field cannot be
/// read.
pub open spec fn spec_skip_chunks(data: Seq<u8>, pos: int, k: nat) -> Option<int>
    decreases k,
{
    if k == 0 {
        Some(pos)
    } else if pos + 4 <= data.len() {
        spec_skip_chunks(data, sat_add64(pos + 4, spec_le32_at(data, pos) as int), (k - 1) as nat)
    } else {
        None
    }
}

/// The stream position after skipping a whole legacy-style section: its
/// 8-byte header (checksum and chunk count) and each of its chunks.
pub open spec fn spec_skip_section(data: Seq<u8>, pos: int) -> Option<int> {
    if pos + 8 <= data.len() {
        spec_skip_chunks(data, pos + 8, spec_le32_at(data, pos + 4) as nat)
    } else {
        None
    }
}

/// What one compressed-or-raw chunk decodes to. A legacy-format chunk is
/// always imploded; a modern chunk of at most 4 bytes, or without the zlib
/// signature byte `0x78` in front, is already uncompressed and passes
/// through, and any other modern chunk is zlib-compressed.
pub open spec fn spec_chunk_decoded(format: ReplayFormat, chunk: Seq<u8>) -> Seq<u8> {
    match format {
        ReplayFormat::Legacy => implode_decoded(chunk),
        _ => if chunk.len() <= 4 || chunk[0] != 0x78 {
            chunk
        } else {
            zlib_decoded(chunk)
        },
    }
}

/// Whether one chunk decodes to completion without a decoding error (a
/// pass-through chunk always does).
pub open spec fn spec_chunk_wf(format: ReplayFormat, chunk: Seq<u8>) -> bool {
    match format {
        ReplayFormat::Legacy => implode_wf(chunk),
        _ => chunk.len() <= 4 || chunk[0] != 0x78 || zlib_wf(chunk),
    }
}

/// Whether one chunk's decoded stream respects the output cap and the
/// output/input ratio cap (a pass-through chunk is never bounded).
pub open spec fn spec_chunk_within(format: ReplayFormat, chunk: Seq<u8>, max: u64, ratio: u64) -> bool {
    match format {
        ReplayFormat::Legacy => implode_decoded(chunk).len() <= max && implode_decoded(chunk).len()
            <= ratio * chunk.len(),
        _ => chunk.len() <= 4 || chunk[0] != 0x78 || (zlib_decoded(chunk).len() <= max
            && zlib_decoded(chunk).len() <= ratio * chunk.len()),
    }
}

/// The raw bytes of the chunk whose 4-byte size field sits at `pos`.
pub open spec fn spec_chunk_at(data: Seq<u8>, pos: int) -> Seq<u8> {
    data.subrange(pos + 4, pos + 4 + spec_le32_at(data, pos) as int)
}

/// Whether `k` chunks starting at `pos` are structurally present: each size
/// field and each chunk body lies within the stream.
pub open spec fn spec_chunks_struct_ok(data: Seq<u8>, pos: int, k: nat) -> bool
    decreases k,
{
    if k == 0 {
        true
    } else {
        &&& pos + 4 <= data.len()
        &&& pos + 4 + spec_le32_at(data, pos) <= data.len()
        &&& spec_chunks_struct_ok(data, pos + 4 + spec_le32_at(data, pos) as int, (k - 1) as nat)
    }
}

/// The concatenation, in order, of what `k` chunks starting at `pos` decode
/// to (meaningful under `spec_chunks_struct_ok` and `spec_chunks_wf`).
pub open spec fn spec_chunks_decoded(data: Seq<u8>, pos: int, k: nat, format: ReplayFormat) -> Seq<
    u8,
>
    decreases k,
{
    if k == 0 {
        Seq::empty()
    } else if pos + 4 <= data.len() && pos + 4 + spec_le32_at(data, pos) <= data.len() {
        spec_chunk_decoded(format, spec_chunk_at(data, pos)) + spec_chunks_decoded(
            data,
            pos + 4 + spec_le32_at(data, pos) as int,
            (k - 1) as nat,
            format,
        )
    } else {
        Seq::empty()
    }
}

/// Whether every one of `k` structurally present chunks decodes cleanly.
pub open spec fn spec_chunks_wf(data: Seq<u8>, pos: int, k: nat, format: ReplayFormat) -> bool
    decreases k,
{
    if k == 0 {
        true
    } else if pos + 4 <= data.len() && pos + 4 + spec_le32_at(data, pos) <= data.len() {
        spec_chunk_wf(format, spec_chunk_at(data, pos)) && spec_chunks_wf(
            data,
            pos + 4 + spec_le32_at(data, pos) as int,
            (k - 1) as nat,
            format,
        )
    } else {
        true
    }
}

/// Whether every one of `k` structurally present chunks respects the caps.
pub open spec fn spec_chunks_within(
    data: Seq<u8>,
    pos: int,
    k: nat,
    format: ReplayFormat,
    max: u64,
    ratio: u64,
) -> bool
    decreases k,
{
    if k == 0 {
        true
    } else if pos + 4 <= data.len() && pos + 4 + spec_le32_at(data, pos) <= data.len() {
        spec_chunk_within(format, spec_chunk_at(data, pos), max, ratio) && spec_chunks_within(
            data,
            pos + 4 + spec_le32_at(data, pos) as int,
            (k - 1) as nat,
            format,
            max,
            ratio,
        )
    } else {
        true
    }
}

/// Whether the legacy-style section at `pos` is structurally present: its
/// 8-byte header and all of its chunks.
pub open spec fn spec_section_struct_ok(data: Seq<u8>, pos: int) -> bool {
    &&& pos + 8 <= data.len()
    &&& spec_chunks_struct_ok(data, pos + 8, spec_le32_at(data, pos + 4) as nat)
}

/// The decoded body of the legacy-style section at `pos`: its chunks decoded
/// and concatenated in order.
pub open spec fn spec_section_decoded(data: Seq<u8>, pos: int, format: ReplayFormat) -> Seq<u8> {
    spec_chunks_decoded(data, pos + 8, spec_le32_at(data, pos + 4) as nat, format)
}

/// Whether every chunk of the section at `pos` decodes cleanly.
pub open spec fn spec_section_wf(data: Seq<u8>, pos: int, format: ReplayFormat) -> bool {
    spec_chunks_wf(data, pos + 8, spec_le32_at(data, pos + 4) as nat, format)
}

/// Whether every chunk of the section at `pos` respects the configured caps.
pub open spec fn spec_section_within(
    data: Seq<u8>,
    pos: int,
    format: ReplayFormat,
    config: DecompressionConfig,
) -> bool {
    spec_chunks_within(
        data,
        pos + 8,
        spec_le32_at(data, pos + 4) as nat,
        format,
        config.max_decompressed_size,
        config.max_compression_ratio,
    )
}

// ---------------------------------------------------------------------------
// The indexing walk.
// ---------------------------------------------------------------------------

/// Whether the outer magic section is valid: one chunk, whose size field is 4
/// (the magic bytes themselves were already validated during detection).
pub open spec fn spec_magic_ok(data: Seq<u8>) -> bool {
    &&& data.len() >= 16
    &&& spec_le32_at(data, 4) == 1
    &&& spec_le32_at(data, 8) == 4
}

/// Where the header section starts: after the outer magic section, plus the
/// extra 4-byte offset hint that only 1.21-and-later containers carry.
pub open spec fn spec_header_pos(format: ReplayFormat) -> int {
    if format == ReplayFormat::Modern121 {
        20
    } else {
        16
    }
}

/// The walk over the tagged ("modern") sections that follow the fixed ones:
/// read a 4-byte tag, record the position of the size field that follows it,
/// then seek over the body; a repeated identity is a hard error carrying the
/// offending identity, and running out of bytes ends the walk with whatever
/// was recorded.
pub open spec fn spec_modern_walk(
    data: Seq<u8>,
    pos: int,
    entries: Seq<(ReplaySection, u64)>,
) -> Result<Seq<(ReplaySection, u64)>, ReplaySection>
    decreases (if pos <= data.len() {
        data.len() - pos
    } else {
        0
    }),
        when pos <= u64::MAX && data.len() <= u64::MAX
{
    if pos + 4 > data.len() {
        Ok(entries)
    } else {
        let s = ReplaySection::spec_from_tag(data.subrange(pos, pos + 4));
        if spec_entry_contains(entries, s) {
            Err(s)
        } else {
            let entries2 = entries.push((s, (pos + 4) as u64));
            if pos + 8 > data.len() {
                Ok(entries2)
            } else {
                spec_modern_walk(data, sat_add64(pos + 8, spec_le32_at(data, pos + 4) as int), entries2)
            }
        }
    }
}

/// The walk over everything after the header section: the fixed legacy
/// sections come in a fixed order — a size-companion section, then Commands,
/// then another companion, then MapData, then PlayerNames — and each records
/// its offset before being sought over; for non-legacy containers the tagged
/// sections follow. Running out of bytes anywhere ends the walk successfully
/// with whatever was recorded so far.
pub open spec fn spec_walk_after_header(
    data: Seq<u8>,
    format: ReplayFormat,
    pos: int,
    entries: Seq<(ReplaySection, u64)>,
) -> Result<Seq<(ReplaySection, u64)>, ReplaySection> {
    match spec_skip_section(data, pos) {
        None => Ok(entries),
        Some(q1) => {
            let e1 = entries.push((ReplaySection::Commands, q1 as u64));
            match spec_skip_section(data, q1) {
                None => Ok(e1),
                Some(q2) => match spec_skip_section(data, q2) {
                    None => Ok(e1),
                    Some(q3) => {
                        let e2 = e1.push((ReplaySection::MapData, q3 as u64));
                        match spec_skip_section(data, q3) {
                            None => Ok(e2),
                            Some(q4) => {
                                let e3 = e2.push((ReplaySection::PlayerNames, q4 as u64));
                                match spec_skip_section(data, q4) {
                                    None => Ok(e3),
                                    Some(q5) => if format == ReplayFormat::Legacy {
                                        Ok(e3)
                                    } else {
                                        spec_modern_walk(data, q5, e3)
                                    },
                                }
                            },
                        }
                    },
                },
            }
        },
    }
}

/// The whole section offset table of a container whose header section starts
/// at `hpos`: the header entry itself, then everything
/// [`spec_walk_after_header`] records past the header section.
pub open spec fn spec_walk_entries(data: Seq<u8>, format: ReplayFormat, hpos: int) -> Result<
    Seq<(ReplaySection, u64)>,
    ReplaySection,
> {
    let e0 = seq![(ReplaySection::Header, hpos as u64)];
    match spec_skip_section(data, hpos) {
        None => Ok(e0),
        Some(q0) => spec_walk_after_header(data, format, q0, e0),
    }
}

/// Everything construction promises, as a relation between the source bytes
/// and the result.
///
/// On success: the format is exactly what detection decides, the outer magic
/// section was valid, the header section is structurally present, the parsed
/// header matches the decoded header section field for field (whenever that
/// section's chunks decode cleanly), and the offset table is exactly what the
/// indexing walk records. On failure: an undetectable format is a malformed
/// header (so any buffer shorter than 16 bytes, or without `reRS`/`seRS` at
/// offset 12, fails that way), an invalid outer magic section is a malformed
/// header, and a duplicate-section error names exactly the identity on which
/// the walk stops.
pub open spec fn spec_construct_ok(data: Seq<u8>, r: Result<Replay, BroodrepError>) -> bool {
    match r {
        Ok(rep) => {
            &&& rep.wf()
            &&& rep.spec_data() == data
            &&& spec_detect_format(data) == Some(rep.spec_format())
            &&& spec_magic_ok(data)
            &&& spec_section_struct_ok(data, spec_header_pos(rep.spec_format()))
            &&& spec_section_wf(data, spec_header_pos(rep.spec_format()), rep.spec_format()) ==> {
                let hbytes = spec_section_decoded(
                    data,
                    spec_header_pos(rep.spec_format()),
                    rep.spec_format(),
                );
                spec_header_wf(hbytes) && spec_header_matches(hbytes, rep.spec_header())
            }
            &&& spec_walk_entries(data, rep.spec_format(), spec_header_pos(rep.spec_format())) == Ok::<
                _,
                ReplaySection,
            >(rep.spec_table())
        },
        Err(e) => {
            &&& spec_detect_format(data) is None ==> e is MalformedHeader
            &&& (spec_detect_format(data) is Some && !spec_magic_ok(data)) ==> e is MalformedHeader
            &&& e matches BroodrepError::DuplicateSection(s) ==> (spec_detect_format(
                data,
            ) matches Some(f) && spec_walk_entries(data, f, spec_header_pos(f)) == Err::<
                Seq<(ReplaySection, u64)>,
                ReplaySection,
            >(s))
        },
    }
}

/// Whether no two entries carry the same identity.
pub open spec fn spec_entries_unique(entries: Seq<(ReplaySection, u64)>) -> bool {
    forall|i: int, j: int|
        0 <= i < j < entries.len() ==> (#[trigger] entries[i]).0 != (#[trigger] entries[j]).0
}

proof fn lemma_skip_chunks_bounded(data: Seq<u8>, pos: int, k: nat)
    requires
        data.len() <= u64::MAX,
        0 <= pos <= u64::MAX,
        spec_skip_chunks(data, pos, k) is Some,
    ensures
        spec_skip_chunks(data, pos, k) matches Some(q) && 0 <= q <= u64::MAX,
    decreases k,
{
    if k == 0 {
    } else {
        let next = sat_add64(pos + 4, spec_le32_at(data, pos) as int);
        lemma_skip_chunks_bounded(data, next, (k - 1) as nat);
    }
}

proof fn lemma_modern_walk_unique(data: Seq<u8>, pos: int, entries: Seq<(ReplaySection, u64)>)
    requires
        data.len() <= u64::MAX,
        0 <= pos <= u64::MAX,
        spec_entries_unique(entries),
        spec_modern_walk(data, pos, entries) is Ok,
    ensures
        spec_modern_walk(data, pos, entries) matches Ok(es) && spec_entries_unique(es),
    decreases (if pos <= data.len() {
        data.len() - pos
    } else {
        0
    }),
{
    if pos + 4 > data.len() {
    } else {
        let s = ReplaySection::spec_from_tag(data.subrange(pos, pos + 4));
        let entries2 = entries.push((s, (pos + 4) as u64));
        assert(spec_entries_unique(entries2)) by {
            assert forall|i: int, j: int| 0 <= i < j < entries2.len() implies (#[trigger] entries2[i]).0
                != (#[trigger] entries2[j]).0 by {
                if j == entries.len() {
                    assert(!spec_entry_contains(entries, s));
                    assert(entries2[i].0 == entries[i].0);
                }
            }
        }
        if pos + 8 > data.len() {
        } else {
            lemma_modern_walk_unique(
                data,
                sat_add64(pos + 8, spec_le32_at(data, pos + 4) as int),
                entries2,
            );
        }
    }
}

/// Law: the offset table never records an identity twice. Whenever the
/// indexing walk completes, its entries carry pairwise distinct identities —
/// a repeated tag is a hard error instead.
pub proof fn lemma_walk_entries_unique(data: Seq<u8>, format: ReplayFormat, hpos: int)
    requires
        data.len() <= u64::MAX,
        0 <= hpos <= u64::MAX,
        spec_walk_entries(data, format, hpos) is Ok,
    ensures
        spec_walk_entries(data, format, hpos) matches Ok(es) && spec_entries_unique(es),
{
    let e0 = seq![(ReplaySection::Header, hpos as u64)];
    assert(spec_entries_unique(e0));
    match spec_skip_section(data, hpos) {
        None => {},
        Some(q0) => {
            if hpos + 8 <= data.len() {
                lemma_skip_chunks_bounded(data, hpos + 8, spec_le32_at(data, hpos + 4) as nat);
            }
            lemma_walk_after_header_unique(data, format, q0, e0);
        },
    }
}

proof fn lemma_walk_after_header_unique(
    data: Seq<u8>,
    format: ReplayFormat,
    pos: int,
    entries: Seq<(ReplaySection, u64)>,
)
    requires
        data.len() <= u64::MAX,
        0 <= pos <= u64::MAX,
        spec_entries_unique(entries),
        forall|i: int|
            0 <= i < entries.len() ==> (#[trigger] entries[i]).0 == ReplaySection::Header,
        spec_walk_after_header(data, format, pos, entries) is Ok,
    ensures
        spec_walk_after_header(data, format, pos, entries) matches Ok(es) && spec_entries_unique(
            es,
        ),
{
    match spec_skip_section(data, pos) {
        None => {},
        Some(q1) => {
            proof_skip_bound(data, pos);
            let e1 = entries.push((ReplaySection::Commands, q1 as u64));
            assert(spec_entries_unique(e1));
            match spec_skip_section(data, q1) {
                None => {},
                Some(q2) => {
                    proof_skip_bound(data, q1);
                    match spec_skip_section(data, q2) {
                        None => {},
                        Some(q3) => {
                            proof_skip_bound(data, q2);
                            let e2 = e1.push((ReplaySection::MapData, q3 as u64));
                            assert(spec_entries_unique(e2));
                            match spec_skip_section(data, q3) {
                                None => {},
                                Some(q4) => {
                                    proof_skip_bound(data, q3);
                                    let e3 = e2.push((ReplaySection::PlayerNames, q4 as u64));
                                    assert(spec_entries_unique(e3));
                                    match spec_skip_section(data, q4) {
                                        None => {},
                                        Some(q5) => {
                                            proof_skip_bound(data, q4);
                                            if format != ReplayFormat::Legacy {
                                                lemma_modern_walk_unique(data, q5, e3);
                                            }
                                        },
                                    }
                                },
                            }
                        },
                    }
                },
            }
        },
    }
}

proof fn proof_skip_bound(data: Seq<u8>, pos: int)
    requires
        data.len() <= u64::MAX,
        0 <= pos,
        spec_skip_section(data, pos) is Some,
    ensures
        spec_skip_section(data, pos) matches Some(q) && 0 <= q <= u64::MAX,
{
    if pos + 8 <= data.len() {
        lemma_skip_chunks_bounded(data, pos + 8, spec_le32_at(data, pos + 4) as nat);
    }
}

/// The conditions under which construction must reach the indexing walk,
/// decided by the bytes and the configuration alone: the format detects, the
/// outer magic section is valid, and the header section is structurally
/// present, decodes cleanly within the configured caps, and parses. Under
/// these conditions the walk decides construction — success with the walk's
/// table, or a duplicate-section error naming the identity the walk stops on
/// — except that a configured wall-clock limit may additionally interrupt any
/// decompression with a timeout.
pub open spec fn spec_construct_reaches_walk(data: Seq<u8>, config: DecompressionConfig) -> bool {
    spec_detect_format(data) matches Some(f) && {
        let hpos = spec_header_pos(f);
        &&& spec_magic_ok(data)
        &&& spec_section_struct_ok(data, hpos)
        &&& spec_section_wf(data, hpos, f)
        &&& spec_section_within(data, hpos, f, config)
        &&& spec_header_wf(spec_section_decoded(data, hpos, f))
    }
}

/// What construction may answer once it is owed the walk's decision: the
/// walk-decided result, or — only under a configured time limit — a timeout.
pub open spec fn spec_construct_walk_decided(
    data: Seq<u8>,
    config: DecompressionConfig,
    r: Result<Replay, BroodrepError>,
) -> bool {
    match spec_detect_format(data) {
        Some(f) => match spec_walk_entries(data, f, spec_header_pos(f)) {
            Ok(_) => r is Ok || (config.max_decompression_time is Some && r == Err::<
                Replay,
                BroodrepError,
            >(BroodrepError::Decompression(DecompressionError::TimeoutExceeded))),
            Err(s) => r == Err::<Replay, BroodrepError>(BroodrepError::DuplicateSection(s)) || (
            config.max_decompression_time is Some && r == Err::<Replay, BroodrepError>(
                BroodrepError::Decompression(DecompressionError::TimeoutExceeded),
            )),
        },
        None => true,
    }
}

/// Law: a buffer shorter than 16 bytes, or whose bytes at offset 12 are
/// neither `reRS` nor `seRS`, always fails construction with a
/// malformed-header error.
pub proof fn lemma_bad_magic_fails(data: Seq<u8>, r: Result<Replay, BroodrepError>)
    requires
        spec_construct_ok(data, r),
        data.len() < 16 || (data.subrange(12, 16) != spec_magic_sers() && data.subrange(12, 16)
            != spec_magic_rers()),
    ensures
        r matches Err(e) && e is MalformedHeader,
{
    lemma_detect_rejects(data);
}

/// Law: retrieval is repeatable. `Replay::get_raw_section` leaves the stream
/// bytes, the offset table, the format and the configuration unchanged, so
/// two retrievals of the same identity see the same offset; this lemma states
/// that the bytes two successful retrievals hand back are then identical — for
/// a tagged ("modern") section unconditionally, for a compressed section
/// whenever its chunks decode cleanly (its contract pins the bytes exactly
/// there, and leaves them open only for a stream that is itself corrupt).
pub proof fn lemma_retrieval_deterministic(
    data: Seq<u8>,
    format: ReplayFormat,
    s: ReplaySection,
    off: u64,
    v1: Seq<u8>,
    v2: Seq<u8>,
)
    requires
        s.spec_is_modern() ==> spec_modern_section_bytes(data, off as int) == Some(v1)
            && spec_modern_section_bytes(data, off as int) == Some(v2),
        !s.spec_is_modern() ==> spec_section_wf(data, off as int, format) && v1
            == spec_section_decoded(data, off as int, format) && v2 == spec_section_decoded(
            data,
            off as int,
            format,
        ),
    ensures
        v1 == v2,
{
}

/// Law: a container whose tagged sections repeat an identity never
/// constructs; by [`spec_construct_ok`]'s error clause, a construction that
/// reports a duplicate names exactly the identity on which the walk stops.
pub proof fn lemma_duplicate_tag_fails(data: Seq<u8>, r: Result<Replay, BroodrepError>)
    requires
        spec_construct_ok(data, r),
        spec_detect_format(data) matches Some(f) && spec_walk_entries(
            data,
            f,
            spec_header_pos(f),
        ) is Err,
    ensures
        r is Err,
{
}

/// A legacy-style section header: a checksum (kept only to mirror the
/// container layout) and the number of chunks that follow.
struct SectionHeader {
    #[allow(dead_code)]
    checksum: u32,
    num_chunks: u32,
}

// ---------------------------------------------------------------------------
// The facade.
// ---------------------------------------------------------------------------

/// A parsed replay. Only the header is parsed eagerly; all other sections are
/// materialized on demand by [`Replay::get_raw_section`].
pub struct Replay {
    inner: ByteStream,
    decompression_config: DecompressionConfig,
    section_offsets: SectionOffsetTable,
    pub format: ReplayFormat,
    pub header: ReplayHeader,
}

impl Replay {
    /// The bytes of the underlying source.
    pub closed spec fn spec_data(self) -> Seq<u8> {
        self.inner.spec_data()
    }

    /// The recorded section offset entries.
    pub closed spec fn spec_table(self) -> Seq<(ReplaySection, u64)> {
        self.section_offsets.spec_entries()
    }

    /// The decompression limits retrievals run under.
    pub closed spec fn spec_config(self) -> DecompressionConfig {
        self.decompression_config
    }

    /// The detected format family (the value of the `format` field).
    pub closed spec fn spec_format(self) -> ReplayFormat {
        self.format
    }

    /// The eagerly parsed header (the value of the `header` field).
    pub closed spec fn spec_header(self) -> ReplayHeader {
        self.header
    }

    /// A parsed replay always carries a twelve-slot header.
    pub closed spec fn wf(self) -> bool {
        self.header.wf()
    }

    fn detect_format(reader: &mut ByteStream) -> (r: Result<ReplayFormat, BroodrepError>)
        ensures
            final(reader).spec_data() == old(reader).spec_data(),
            match r {
                Ok(f) => spec_detect_format(old(reader).spec_data()) == Some(f),
                Err(e) => spec_detect_format(old(reader).spec_data()) is None
                    && e is MalformedHeader,
            },
    {
        // 1.21+ has `seRS`, before that it's `reRS`.
        reader.seek_start(12);
        let magic: Vec<u8> = match reader.read_exact_vec(4) {
            Some(m) => m,
            None => {
                return Err(BroodrepError::MalformedHeader("invalid magic bytes"));
            },
        };
        proof {
            assert(magic@ =~= seq![magic@[0], magic@[1], magic@[2], magic@[3]]);
        }
        if magic[0] == 0x73 && magic[1] == 0x65 && magic[2] == 0x52 && magic[3] == 0x53 {
            return Ok(ReplayFormat::Modern121);
        }
        if !(magic[0] == 0x72 && magic[1] == 0x65 && magic[2] == 0x52 && magic[3] == 0x53) {
            return Err(BroodrepError::MalformedHeader("invalid magic bytes"));
        }
        // Check the compression marker at offset 28; the newer compression
        // marker indicates 1.18+.
        reader.seek_forward(12);
        let byte: u8 = match reader.read_u8() {
            Some(b) => b,
            None => {
                return Err(BroodrepError::MalformedHeader("invalid magic bytes"));
            },
        };
        if byte == 0x78 {
            Ok(ReplayFormat::Modern)
        } else {
            Ok(ReplayFormat::Legacy)
        }
    }

    fn read_section_header(reader: &mut ByteStream) -> (r: Result<SectionHeader, BroodrepError>)
        ensures
            final(reader).spec_data() == old(reader).spec_data(),
            old(reader).can_read(8) ==> {
                &&& r is Ok
                &&& r->Ok_0.checksum == spec_le32_at(old(reader).spec_data(), old(reader).spec_pos())
                &&& r->Ok_0.num_chunks == spec_le32_at(
                    old(reader).spec_data(),
                    old(reader).spec_pos() + 4,
                )
                &&& final(reader).spec_pos() == old(reader).spec_pos() + 8
            },
            !old(reader).can_read(8) ==> r is Err && r->Err_0 is IoError,
    {
        let checksum: u32 = match reader.read_u32_le() {
            Some(v) => v,
            None => {
                return Err(BroodrepError::IoError);
            },
        };
        let num_chunks: u32 = match reader.read_u32_le() {
            Some(v) => v,
            None => {
                return Err(BroodrepError::IoError);
            },
        };
        Ok(SectionHeader { checksum, num_chunks })
    }

    /// Reads a section header and then seeks over every chunk of the section
    /// without decoding anything.
    fn skip_legacy_section(reader: &mut ByteStream) -> (r: Result<(), BroodrepError>)
        ensures
            final(reader).spec_data() == old(reader).spec_data(),
            match spec_skip_section(old(reader).spec_data(), old(reader).spec_pos()) {
                Some(q) => r is Ok && final(reader).spec_pos() == q,
                None => r is Err && r->Err_0 is IoError,
            },
    {
        let ghost data = reader.spec_data();
        let ghost start = reader.spec_pos();
        let header: SectionHeader = match Self::read_section_header(reader) {
            Ok(h) => h,
            Err(e) => {
                return Err(e);
            },
        };
        let total: u32 = header.num_chunks;
        let mut i: u32 = 0;
        while i < total
            invariant
                i <= total,
                data == old(reader).spec_data(),
                start == old(reader).spec_pos(),
                start + 8 <= data.len(),
                total == spec_le32_at(data, start + 4),
                reader.spec_data() == data,
                spec_skip_chunks(data, start + 8, total as nat) == spec_skip_chunks(
                    data,
                    reader.spec_pos(),
                    (total - i) as nat,
                ),
            decreases total - i,
        {
            let size: u32 = match reader.read_u32_le() {
                Some(v) => v,
                None => {
                    return Err(BroodrepError::IoError);
                },
            };
            reader.seek_forward(size as u64);
            i = i + 1;
        }
        Ok(())
    }

    /// Reads and decodes the whole legacy-style section at the cursor:
    /// section header, then each chunk read and decompressed under the
    /// configured limits, the results concatenated in order.
    ///
    /// On success the cursor rests exactly past the section, and whenever
    /// every chunk decodes cleanly the output is exactly the section's
    /// decoded body and every chunk respected the caps. Conversely, a
    /// structurally present section whose chunks all decode cleanly within
    /// the caps cannot fail unless a time limit is configured.
    fn read_legacy_section(
        reader: &mut ByteStream,
        format: ReplayFormat,
        config: DecompressionConfig,
        size_hint: Option<usize>,
    ) -> (r: Result<Vec<u8>, BroodrepError>)
        ensures
            final(reader).spec_data() == old(reader).spec_data(),
            ({
                let data = old(reader).spec_data();
                let pos = old(reader).spec_pos();
                let tl = config.max_decompression_time is Some;
                match r {
                    Ok(out) => {
                        &&& spec_section_struct_ok(data, pos)
                        &&& spec_skip_section(data, pos) == Some(final(reader).spec_pos())
                        &&& spec_section_wf(data, pos, format) ==> {
                            &&& out@ == spec_section_decoded(data, pos, format)
                            &&& spec_section_within(data, pos, format, config)
                        }
                    },
                    Err(e) => {
                        &&& e is IoError || e is Decompression
                        &&& e is IoError ==> !spec_section_struct_ok(data, pos)
                        &&& (spec_section_struct_ok(data, pos) && spec_section_wf(data, pos, format))
                            ==> (e matches BroodrepError::Decompression(de) && (
                            de is SizeLimitExceeded || de is CompressionRatioExceeded
                                || de is TimeoutExceeded) && (spec_section_within(
                            data,
                            pos,
                            format,
                            config,
                        ) ==> de is TimeoutExceeded))
                        &&& !(spec_section_struct_ok(data, pos) && spec_section_wf(
                            data,
                            pos,
                            format,
                        ) && spec_section_within(data, pos, format, config) && !tl)
                    },
                }
            }),
    {
        let ghost data = reader.spec_data();
        let ghost start = reader.spec_pos();
        let ghost max = config.max_decompressed_size;
        let ghost ratio = config.max_compression_ratio;
        let header: SectionHeader = match Self::read_section_header(reader) {
            Ok(h) => h,
            Err(e) => {
                return Err(e);
            },
        };
        let total: u32 = header.num_chunks;
        let mut out: Vec<u8> = Vec::with_capacity(
            match size_hint {
                Some(n) => n,
                None => 0,
            },
        );
        let mut i: u32 = 0;
        while i < total
            invariant
                i <= total,
                data == old(reader).spec_data(),
                start == old(reader).spec_pos(),
                start + 8 <= data.len(),
                total == spec_le32_at(data, start + 4),
                max == config.max_decompressed_size,
                ratio == config.max_compression_ratio,
                reader.spec_data() == data,
                spec_chunks_struct_ok(data, start + 8, total as nat) <==> spec_chunks_struct_ok(
                    data,
                    reader.spec_pos(),
                    (total - i) as nat,
                ),
                spec_skip_chunks(data, start + 8, total as nat) == spec_skip_chunks(
                    data,
                    reader.spec_pos(),
                    (total - i) as nat,
                ),
                spec_chunks_wf(data, start + 8, total as nat, format) ==> {
                    &&& spec_chunks_decoded(data, start + 8, total as nat, format) == out@
                        + spec_chunks_decoded(data, reader.spec_pos(), (total - i) as nat, format)
                    &&& spec_chunks_wf(data, reader.spec_pos(), (total - i) as nat, format)
                    &&& (spec_chunks_within(data, start + 8, total as nat, format, max, ratio)
                        <==> spec_chunks_within(
                        data,
                        reader.spec_pos(),
                        (total - i) as nat,
                        format,
                        max,
                        ratio,
                    ))
                },
            decreases total - i,
        {
            let ghost cur = reader.spec_pos();
            let ghost rem = (total - i) as nat;
            let size: u32 = match reader.read_u32_le() {
                Some(v) => v,
                None => {
                    return Err(BroodrepError::IoError);
                },
            };
            let compressed: Vec<u8> = match reader.read_exact_vec(size as usize) {
                Some(v) => v,
                None => {
                    return Err(BroodrepError::IoError);
                },
            };
            let ghost chunk = compressed@;
            proof {
                assert(chunk =~= spec_chunk_at(data, cur));
                assert(sat_add64(cur + 4, size as int) == reader.spec_pos());
            }
            let ghost pre_out = out@;
            match format {
                ReplayFormat::Legacy => {
                    let clen: u64 = compressed.len() as u64;
                    let rdr = ChunkReader::implode(compressed);
                    let mut dec = SafeDecompressor::new(rdr, config, Some(clen));
                    match dec.read_to_end(&mut out) {
                        Ok(()) => {
                            proof {
                                assert(out@.subrange(0, pre_out.len() as int) =~= pre_out);
                                assert(out@ =~= pre_out + out@.skip(pre_out.len() as int));
                            }
                        },
                        Err(e) => {
                            proof {
                                assert(out@.subrange(0, pre_out.len() as int) =~= pre_out);
                            }
                            return Err(BroodrepError::Decompression(e));
                        },
                    }
                },
                _ => {
                    if size <= 4 || compressed[0] != 0x78 {
                        // Not compressed, append it directly.
                        let mut compressed = compressed;
                        out.append(&mut compressed);
                    } else {
                        let clen: u64 = compressed.len() as u64;
                        let rdr = ChunkReader::zlib(compressed);
                        let mut dec = SafeDecompressor::new(rdr, config, Some(clen));
                        match dec.read_to_end(&mut out) {
                            Ok(()) => {
                                proof {
                                    assert(out@.subrange(0, pre_out.len() as int) =~= pre_out);
                                    assert(out@ =~= pre_out + out@.skip(pre_out.len() as int));
                                }
                            },
                            Err(e) => {
                                proof {
                                    assert(out@.subrange(0, pre_out.len() as int) =~= pre_out);
                                }
                                return Err(BroodrepError::Decompression(e));
                            },
                        }
                    }
                },
            }
            proof {
                if spec_chunks_wf(data, start + 8, total as nat, format) {
                    assert(spec_chunks_decoded(data, start + 8, total as nat, format) == (pre_out
                        + spec_chunk_decoded(format, chunk)) + spec_chunks_decoded(
                        data,
                        reader.spec_pos(),
                        (rem - 1) as nat,
                        format,
                    )) by {
                        assert(pre_out + (spec_chunk_decoded(format, chunk) + spec_chunks_decoded(
                            data,
                            reader.spec_pos(),
                            (rem - 1) as nat,
                            format,
                        )) =~= (pre_out + spec_chunk_decoded(format, chunk)) + spec_chunks_decoded(
                            data,
                            reader.spec_pos(),
                            (rem - 1) as nat,
                            format,
                        ));
                    }
                    assert(out@ =~= pre_out + spec_chunk_decoded(format, chunk));
                }
            }
            i = i + 1;
        }
        proof {
            if spec_chunks_wf(data, start + 8, total as nat, format) {
                assert(out@ =~= spec_chunks_decoded(data, start + 8, total as nat, format));
            }
        }
        Ok(out)
    }

    /// Walks everything after the header section, recording offsets into
    /// `table`: the fixed legacy sections, then — for non-legacy containers —
    /// the tagged sections. Running out of bytes ends the walk successfully;
    /// only a repeated tagged identity is an error.
    fn index_remaining_sections(
        reader: &mut ByteStream,
        format: ReplayFormat,
        table: &mut SectionOffsetTable,
    ) -> (r: Result<(), BroodrepError>)
        ensures
            final(reader).spec_data() == old(reader).spec_data(),
            match r {
                Ok(()) => spec_walk_after_header(
                    old(reader).spec_data(),
                    format,
                    old(reader).spec_pos(),
                    old(table).spec_entries(),
                ) == Ok::<_, ReplaySection>(final(table).spec_entries()),
                Err(e) => e matches BroodrepError::DuplicateSection(s) && spec_walk_after_header(
                    old(reader).spec_data(),
                    format,
                    old(reader).spec_pos(),
                    old(table).spec_entries(),
                ) == Err::<Seq<(ReplaySection, u64)>, _>(s),
            },
    {
        let ghost data = reader.spec_data();
        // Dynamically sized legacy sections (commands, map data) have a
        // companion section before them that carries their total uncompressed
        // size, so two sections are skipped for each of those.
        if Self::skip_legacy_section(reader).is_err() {
            return Ok(());
        }
        let commands_at: u64 = reader.stream_position();
        table.insert(ReplaySection::Commands, commands_at);
        if Self::skip_legacy_section(reader).is_err() {
            return Ok(());
        }
        if Self::skip_legacy_section(reader).is_err() {
            return Ok(());
        }
        let map_data_at: u64 = reader.stream_position();
        table.insert(ReplaySection::MapData, map_data_at);
        if Self::skip_legacy_section(reader).is_err() {
            return Ok(());
        }
        let player_names_at: u64 = reader.stream_position();
        table.insert(ReplaySection::PlayerNames, player_names_at);
        if Self::skip_legacy_section(reader).is_err() {
            return Ok(());
        }
        if format == ReplayFormat::Legacy {
            return Ok(());
        }
        // Tagged sections: read a tag, record the offset of its size field,
        // and seek over the body, until the stream runs out.
        let ghost mpos = reader.spec_pos();
        let ghost mentries = table.spec_entries();
        proof {
            assert(spec_walk_after_header(
                data,
                format,
                old(reader).spec_pos(),
                old(table).spec_entries(),
            ) == spec_modern_walk(data, mpos, mentries));
        }
        loop
            invariant
                data == old(reader).spec_data(),
                reader.spec_data() == data,
                format != ReplayFormat::Legacy,
                spec_walk_after_header(
                    data,
                    format,
                    old(reader).spec_pos(),
                    old(table).spec_entries(),
                ) == spec_modern_walk(data, mpos, mentries),
                spec_modern_walk(data, mpos, mentries) == spec_modern_walk(
                    data,
                    reader.spec_pos(),
                    table.spec_entries(),
                ),
            decreases (if reader.spec_pos() <= data.len() {
                data.len() - reader.spec_pos()
            } else {
                0
            }),
        {
            let ghost cur = reader.spec_pos();
            let tag: Vec<u8> = match reader.read_exact_vec(4) {
                Some(t) => t,
                None => {
                    return Ok(());
                },
            };
            let section: ReplaySection = ReplaySection::from_tag(&tag);
            if table.contains(section) {
                return Err(BroodrepError::DuplicateSection(section));
            }
            let offset: u64 = reader.stream_position();
            table.insert(section, offset);
            proof {
                assert(offset as int == cur + 4);
            }
            let size: u32 = match reader.read_u32_le() {
                Some(v) => v,
                None => {
                    return Ok(());
                },
            };
            reader.seek_forward(size as u64);
        }
    }

    /// Creates a new `Replay` by parsing a byte source with default limits
    /// for decompression.
    pub fn new(source: ByteStream) -> (r: Result<Replay, BroodrepError>)
        ensures
            spec_construct_ok(source.spec_data(), r),
            r matches Ok(rep) ==> {
                &&& rep.spec_config().max_decompressed_size == 100 * 1024 * 1024
                &&& rep.spec_config().max_compression_ratio == 500
                &&& rep.spec_config().max_decompression_time == Some(30000u64)
            },
            ({
                let dcfg = (DecompressionConfig {
                    max_decompressed_size: 104857600u64,
                    max_compression_ratio: 500u64,
                    max_decompression_time: Some(30000u64),
                });
                spec_construct_reaches_walk(source.spec_data(), dcfg)
                    ==> spec_construct_walk_decided(source.spec_data(), dcfg, r)
            }),
    {
        Self::new_with_decompression_config(source, DecompressionConfig::default())
    }

    /// Creates a new `Replay` by parsing a byte source with the given limits
    /// for decompression. Note that the limits apply to each chunk
    /// individually, rather than to the entire replay collectively.
    pub fn new_with_decompression_config(source: ByteStream, config: DecompressionConfig) -> (r:
        Result<Replay, BroodrepError>)
        ensures
            spec_construct_ok(source.spec_data(), r),
            r matches Ok(rep) ==> rep.spec_config() == config && (spec_section_wf(
                source.spec_data(),
                spec_header_pos(rep.spec_format()),
                rep.spec_format(),
            ) ==> spec_section_within(
                source.spec_data(),
                spec_header_pos(rep.spec_format()),
                rep.spec_format(),
                config,
            )),
            spec_construct_reaches_walk(source.spec_data(), config)
                ==> spec_construct_walk_decided(source.spec_data(), config, r),
    {
        let ghost data = source.spec_data();
        let mut reader = source;
        let format: ReplayFormat = match Self::detect_format(&mut reader) {
            Ok(f) => f,
            Err(e) => {
                return Err(e);
            },
        };
        reader.seek_start(0);
        // The first section holds just the magic bytes; it is sanity-checked
        // and skipped, the format being already known from detection.
        let header: SectionHeader = match Self::read_section_header(&mut reader) {
            Ok(h) => h,
            Err(e) => {
                return Err(e);
            },
        };
        if header.num_chunks != 1 {
            return Err(BroodrepError::MalformedHeader("invalid magic chunk"));
        }
        let size: u32 = match reader.read_u32_le() {
            Some(v) => v,
            None => {
                return Err(BroodrepError::IoError);
            },
        };
        if size != 4 {
            return Err(BroodrepError::MalformedHeader("invalid magic chunk size"));
        }
        // The magic bytes themselves were validated during detection.
        if reader.read_u32_le().is_none() {
            return Err(BroodrepError::IoError);
        }
        if format == ReplayFormat::Modern121 {
            // The offset of the first section after the fixed ones — an
            // internal hint this walk does not need.
            if reader.read_u32_le().is_none() {
                return Err(BroodrepError::IoError);
            }
        }

        let mut table = SectionOffsetTable::new();
        let header_at: u64 = reader.stream_position();
        table.insert(ReplaySection::Header, header_at);
        proof {
            assert(header_at as int == spec_header_pos(format));
            assert(table.spec_entries() =~= seq![(ReplaySection::Header, header_at)]);
        }
        let header_bytes: Vec<u8> = match Self::read_legacy_section(
            &mut reader,
            format,
            config,
            Some(SIZE_HEADER),
        ) {
            Ok(b) => b,
            Err(e) => {
                return Err(e);
            },
        };
        let replay_header: ReplayHeader = match parse_replay_header(header_bytes.as_slice()) {
            Ok(h) => h,
            Err(e) => {
                return Err(e);
            },
        };

        match Self::index_remaining_sections(&mut reader, format, &mut table) {
            Ok(()) => {},
            Err(e) => {
                return Err(e);
            },
        }

        Ok(Replay {
            inner: reader,
            decompression_config: config,
            section_offsets: table,
            format,
            header: replay_header,
        })
    }

    /// Gives the underlying byte source back.
    pub fn into_inner(self) -> (r: ByteStream)
        ensures
            r.spec_data() == self.spec_data(),
    {
        self.inner
    }

    pub fn format(&self) -> (r: ReplayFormat)
        ensures
            r == self.spec_format(),
    {
        self.format
    }

    pub fn engine(&self) -> (r: Engine)
        ensures
            r == self.spec_header().engine,
    {
        self.header.engine
    }

    pub fn frames(&self) -> (r: u32)
        ensures
            r == self.spec_header().frames,
    {
        self.header.frames
    }

    /// Returns the 32-bit seed the game started from. The game uses the unix
    /// timestamp of the start as its seed, so this conventionally also names
    /// the local time the game began — but nothing guarantees it.
    pub fn start_time(&self) -> (r: u32)
        ensures
            r == self.spec_header().start_time,
    {
        self.header.start_time
    }

    pub fn game_title(&self) -> (r: &str)
        ensures
            r@ == self.spec_header().title@,
    {
        self.header.title.as_str()
    }

    pub fn map_name(&self) -> (r: &str)
        ensures
            r@ == self.spec_header().map_name@,
    {
        self.header.map_name.as_str()
    }

    /// Returns the (width, height) of the map, in tiles.
    pub fn map_dimensions(&self) -> (r: (u16, u16))
        ensures
            r.0 == self.spec_header().map_width,
            r.1 == self.spec_header().map_height,
    {
        (self.header.map_width, self.header.map_height)
    }

    pub fn game_speed(&self) -> (r: GameSpeed)
        ensures
            r == self.spec_header().speed,
    {
        self.header.speed
    }

    pub fn game_type(&self) -> (r: GameType)
        ensures
            r == self.spec_header().game_type,
    {
        self.header.game_type
    }

    /// For Top vs Bottom, the number of players on the first team. For team
    /// game types, the number of slots on each team (truncating the last team
    /// if necessary).
    pub fn game_sub_type(&self) -> (r: u16)
        ensures
            r == self.spec_header().game_sub_type,
    {
        self.header.game_sub_type
    }

    pub fn host_name(&self) -> (r: &str)
        ensures
            r@ == self.spec_header().host_name@,
    {
        self.header.host_name.as_str()
    }

    /// All of the slots in the game, including empty slots.
    pub fn slots(&self) -> (r: &[Player])
        ensures
            r@ == self.spec_header().slots@,
    {
        self.header.slots.as_slice()
    }

    /// The filled, non-observer slots, in slot order.
    pub fn players(&self) -> (r: Vec<&Player>)
        ensures
            r@.len() == self.spec_header().spec_players().len(),
            forall|i: int| 0 <= i < r@.len() ==> *r@[i] == self.spec_header().spec_players()[i],
    {
        self.header.players()
    }

    /// The filled observer slots, in slot order.
    pub fn observers(&self) -> (r: Vec<&Player>)
        ensures
            r@.len() == self.spec_header().spec_observers().len(),
            forall|i: int| 0 <= i < r@.len() ==> *r@[i] == self.spec_header().spec_observers()[i],
    {
        self.header.observers()
    }

    /// The slot whose name equals the host's name, if any (the first such
    /// slot).
    pub fn host_player(&self) -> (r: Option<&Player>)
        ensures
            ({
                let slots = self.spec_header().slots@;
                let idx = spec_first_named(slots, self.spec_header().host_name@);
                if idx < slots.len() {
                    r matches Some(p) && *p == slots[idx]
                } else {
                    r is None
                }
            }),
    {
        let ghost slots = self.header.slots@;
        let ghost host = self.header.host_name@;
        proof {
            lemma_first_named(slots, host);
        }
        let mut i: usize = 0;
        while i < self.header.slots.len()
            invariant
                i <= slots.len(),
                slots == self.header.slots@,
                host == self.header.host_name@,
                forall|j: int| 0 <= j < i ==> (#[trigger] slots[j]).name@ != host,
            decreases slots.len() - i,
        {
            if self.header.slots[i].name == self.header.host_name {
                proof {
                    lemma_first_named(slots, host);
                    let f = spec_first_named(slots, host);
                    if f < i {
                        assert(slots[f].name@ != host);
                    }
                    if f > i {
                        assert(slots[i as int].name@ != host);
                    }
                    assert(f == i);
                }
                return Some(&self.header.slots[i]);
            }
            i = i + 1;
        }
        proof {
            assert(spec_first_named(slots, host) == slots.len());
        }
        None
    }

    /// The offset recorded for a section while indexing, if the section was
    /// found.
    pub fn section_offset(&self, section: ReplaySection) -> (r: Option<u64>)
        ensures
            r == spec_lookup(self.spec_table(), section),
    {
        self.section_offsets.get(section)
    }

    /// Returns the raw bytes of a given replay section, or `None` if that
    /// identity was not recorded while indexing (absence is not an error).
    /// The bytes are decompressed under the configured limits if the section
    /// is one with known compression; a tagged ("modern") section's body is
    /// returned as it stands.
    pub fn get_raw_section(&mut self, section: ReplaySection) -> (r: Result<
        Option<Vec<u8>>,
        BroodrepError,
    >)
        ensures
            final(self).spec_data() == old(self).spec_data(),
            final(self).spec_table() == old(self).spec_table(),
            final(self).spec_config() == old(self).spec_config(),
            final(self).spec_format() == old(self).spec_format(),
            final(self).spec_header() == old(self).spec_header(),
            ({
                let data = old(self).spec_data();
                let fmt = old(self).spec_format();
                let cfg = old(self).spec_config();
                let tl = cfg.max_decompression_time is Some;
                match spec_lookup(old(self).spec_table(), section) {
                    None => r matches Ok(None),
                    Some(off) => if section.spec_is_modern() {
                        match spec_modern_section_bytes(data, off as int) {
                            Some(b) => r matches Ok(Some(v)) && v@ == b,
                            None => r matches Err(e) && e is IoError,
                        }
                    } else {
                        match r {
                            Ok(opt) => {
                                &&& opt matches Some(v) && spec_section_struct_ok(data, off as int)
                                    && (spec_section_wf(data, off as int, fmt) ==> v@
                                    == spec_section_decoded(data, off as int, fmt)
                                    && spec_section_within(data, off as int, fmt, cfg))
                            },
                            Err(e) => {
                                &&& e is IoError || e is Decompression
                                &&& e is IoError ==> !spec_section_struct_ok(data, off as int)
                                &&& (spec_section_struct_ok(data, off as int) && spec_section_wf(
                                    data,
                                    off as int,
                                    fmt,
                                )) ==> (e matches BroodrepError::Decompression(de) && (
                                de is SizeLimitExceeded || de is CompressionRatioExceeded
                                    || de is TimeoutExceeded) && (spec_section_within(
                                    data,
                                    off as int,
                                    fmt,
                                    cfg,
                                ) ==> de is TimeoutExceeded))
                                &&& !(spec_section_struct_ok(data, off as int)
                                    && spec_section_wf(data, off as int, fmt)
                                    && spec_section_within(data, off as int, fmt, cfg) && !tl)
                            },
                        }
                    },
                }
            }),
    {
        let offset: u64 = match self.section_offsets.get(section) {
            Some(o) => o,
            None => {
                return Ok(None);
            },
        };
        if section.is_modern() {
            self.inner.seek_start(offset);
            let size: u32 = match self.inner.read_u32_le() {
                Some(v) => v,
                None => {
                    return Err(BroodrepError::IoError);
                },
            };
            match self.inner.read_exact_vec(size as usize) {
                Some(data) => Ok(Some(data)),
                None => Err(BroodrepError::IoError),
            }
        } else {
            self.inner.seek_start(offset);
            match Self::read_legacy_section(
                &mut self.inner,
                self.format,
                self.decompression_config,
                section.size_hint(),
            ) {
                Ok(bytes) => Ok(Some(bytes)),
                Err(e) => Err(e),
            }
        }
    }

    /// Returns the parsed embedded-metadata section, or `None` if the replay
    /// carries no such section.
    pub fn get_shieldbattery_section(&mut self) -> (r: Result<
        Option<ShieldBatteryData>,
        BroodrepError,
    >)
        ensures
            final(self).spec_data() == old(self).spec_data(),
            final(self).spec_table() == old(self).spec_table(),
            final(self).spec_config() == old(self).spec_config(),
            final(self).spec_format() == old(self).spec_format(),
            final(self).spec_header() == old(self).spec_header(),
            ({
                let data = old(self).spec_data();
                match spec_lookup(old(self).spec_table(), ReplaySection::ShieldBattery) {
                    None => r matches Ok(None),
                    Some(off) => match spec_modern_section_bytes(data, off as int) {
                        None => r matches Err(e) && e is IoError,
                        Some(b) => match r {
                            Ok(Some(d)) => spec_sb_wf(b) && spec_sb_matches(b, d),
                            Ok(None) => false,
                            Err(e) => e is ShieldBatteryData && !spec_sb_wf(b),
                        },
                    },
                }
            }),
    {
        let raw: Vec<u8> = match self.get_raw_section(ReplaySection::ShieldBattery) {
            Ok(Some(d)) => d,
            Ok(None) => {
                return Ok(None);
            },
            Err(e) => {
                return Err(e);
            },
        };
        match parse_shieldbattery_section(raw.as_slice()) {
            Ok(d) => Ok(Some(d)),
            Err(e) => Err(BroodrepError::ShieldBatteryData(e)),
        }
    }
}

/// What retrieving a tagged ("modern") section reads at its recorded offset:
/// the 4-byte size field, then that many raw bytes; `None` when the stream is
/// too short for either.
pub open spec fn spec_modern_section_bytes(data: Seq<u8>, off: int) -> Option<Seq<u8>> {
    if off + 4 <= data.len() && off + 4 + spec_le32_at(data, off) <= data.len() {
        Some(data.subrange(off + 4, off + 4 + spec_le32_at(data, off) as int))
    } else {
        None
    }
}

/// The index of the first slot whose name is `name`, or `slots.len()` if
/// there is none.
pub open spec fn spec_first_named(slots: Seq<Player>, name: Seq<char>) -> int
    decreases slots.len(),
{
    if slots.len() == 0 {
        0
    } else if slots[0].name@ == name {
        0
    } else {
        1 + spec_first_named(slots.subrange(1, slots.len() as int), name)
    }
}

/// `spec_first_named` points at the first slot with the name: no earlier slot
/// carries it, and it is in bounds exactly when such a slot exists.
pub proof fn lemma_first_named(slots: Seq<Player>, name: Seq<char>)
    ensures
        0 <= spec_first_named(slots, name) <= slots.len(),
        forall|j: int| 0 <= j < spec_first_named(slots, name) ==> (#[trigger] slots[j]).name@ != name,
        spec_first_named(slots, name) < slots.len() ==> slots[spec_first_named(slots, name)].name@
            == name,
    decreases slots.len(),
{
    if slots.len() == 0 {
    } else if slots[0].name@ == name {
    } else {
        let t = slots.subrange(1, slots.len() as int);
        lemma_first_named(t, name);
        assert forall|j: int| 0 <= j < spec_first_named(slots, name) implies (#[trigger] slots[j]).name@
            != name by {
            if j > 0 {
                assert(t[j - 1] == slots[j]);
            }
        }
        if spec_first_named(slots, name) < slots.len() {
            assert(t[spec_first_named(t, name)] == slots[spec_first_named(slots, name)]);
        }
    }
}

} // verus!
