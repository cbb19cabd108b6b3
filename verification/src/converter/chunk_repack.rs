//! Chunk data between the formats of the releases.
//!
//! There are four: sections of ids and metadata before 1.13, sections with palettes from 1.13
//! on, the same with biomes in memory from 1.16 on, and taller worlds from 1.19 on.

use crate::converter::chunk_convert::{
    fewer_biomes, flatten_section, more_biomes, narrow_biomes, newer_section, older_section,
    unflatten_section, widen_biomes,
};
use crate::converter::chunk_section::{
    bits_per_block_for_palette, palette_bits, whole_section, BiomeChunkSection, BiomeConverter,
    BiomeSection, BlockStateConverter, BlockTable, FlatSection, FlattenedChunkSection,
    LegacyChunkSection, LegacySection, NIBBLE_BYTES, SECTION_BLOCKS,
};
use crate::converter::safe::Reader;
use crate::text::{decimal, push_decimal, string_from_utf8, texts};
use crate::version::{Epoch, ProtocolVersion};
use crate::wire::{
    bytes_from_vec, bytes_to_vec, content, le16, le16_at, le16_round_trip, le32, le32_at, le64, le64_at,
};
use crate::writer::{empty_then, Writer};
use bytes::Bytes;
use vstd::prelude::*;
use vstd::slice::slice_to_vec;
use vstd::utf8::{decode_utf8, encode_utf8, valid_utf8};

verus! {

/// The format of chunk data.
#[derive(Clone, Copy, PartialEq, Eq, Structural, Debug)]
pub enum ChunkFormat {
    /// Ids and metadata, before 1.13.
    Legacy,
    /// Palettes of names, from 1.13 on.
    Flattened,
    /// Palettes, with biomes kept beside them, from 1.16 on.
    ModernBiomes,
    /// Palettes and biomes for taller worlds, from 1.19 on.
    NewHeight,
}

/// The chunk format of an epoch. One that is not known counts as the oldest.
pub open spec fn format_of(e: Epoch) -> ChunkFormat {
    match e {
        Epoch::PreNetty | Epoch::V1_7 | Epoch::V1_8 | Epoch::V1_9_To_1_12 => ChunkFormat::Legacy,
        Epoch::V1_13_To_1_15 => ChunkFormat::Flattened,
        Epoch::V1_16 | Epoch::V1_17_To_1_18 => ChunkFormat::ModernBiomes,
        Epoch::V1_19 | Epoch::V1_20 | Epoch::V1_21Plus => ChunkFormat::NewHeight,
        Epoch::Unknown => ChunkFormat::Legacy,
    }
}

/// The chunk format that clients of a release expect.
pub fn chunk_format_for_version(version: ProtocolVersion) -> (f: ChunkFormat)
    ensures
        f == format_of(version.spec_epoch()),
{
    match version.epoch() {
        Epoch::PreNetty | Epoch::V1_7 | Epoch::V1_8 | Epoch::V1_9_To_1_12 => ChunkFormat::Legacy,
        Epoch::V1_13_To_1_15 => ChunkFormat::Flattened,
        Epoch::V1_16 | Epoch::V1_17_To_1_18 => ChunkFormat::ModernBiomes,
        Epoch::V1_19 | Epoch::V1_20 | Epoch::V1_21Plus => ChunkFormat::NewHeight,
        Epoch::Unknown => ChunkFormat::Legacy,
    }
}

/// Why chunk data cannot be repacked.
#[derive(Clone, Copy, PartialEq, Eq, Structural, Debug)]
pub enum RepackError {
    /// The data ends in the block ids of a section.
    BlockIds,
    /// The data ends in the metadata of a section.
    BlockMetadata,
    /// The data ends in the block light of a section.
    BlockLight,
    /// The data ends in the sky light of a section.
    SkyLight,
    /// The data ends in a name of a palette.
    PaletteEntry,
    /// A name of a palette is not UTF-8.
    PaletteText,
    /// The words of a section take more than 16 MiB.
    StatesTooLarge { bytes: u32 },
    /// The words of a section take more bytes than are left.
    StatesBeyondEnd { bytes: u32, left: usize },
    /// The chunk is not in the expected format.
    Expected { format: ChunkFormat },
    /// There is no conversion between the formats.
    Unsupported { from: ChunkFormat, to: ChunkFormat },
}

/// The name of a format.
pub open spec fn format_name(f: ChunkFormat) -> Seq<char> {
    match f {
        ChunkFormat::Legacy => "Legacy"@,
        ChunkFormat::Flattened => "Flattened"@,
        ChunkFormat::ModernBiomes => "ModernBiomes"@,
        ChunkFormat::NewHeight => "NewHeight"@,
    }
}

/// The words for an error.
pub open spec fn error_text(e: RepackError) -> Seq<char> {
    match e {
        RepackError::BlockIds => "Failed to read block IDs: failed to fill whole buffer"@,
        RepackError::BlockMetadata => "Failed to read block metadata: failed to fill whole buffer"@,
        RepackError::BlockLight => "Failed to read block light: failed to fill whole buffer"@,
        RepackError::SkyLight => "Failed to read sky light: failed to fill whole buffer"@,
        RepackError::PaletteEntry => "Failed to read palette entry: failed to fill whole buffer"@,
        RepackError::PaletteText => "Invalid UTF-8 in palette"@,
        RepackError::StatesTooLarge { bytes } => "Block state data too large: "@ + decimal(bytes as nat)
            + " bytes (max 16 MiB)"@,
        RepackError::StatesBeyondEnd { bytes, left } => "Block state data ("@ + decimal(bytes as nat)
            + " bytes) exceeds remaining buffer ("@ + decimal(left as nat) + " bytes)"@,
        RepackError::Expected { format } => match format {
            ChunkFormat::Legacy => "Expected legacy chunk"@,
            ChunkFormat::Flattened => "Expected flattened chunk"@,
            ChunkFormat::ModernBiomes => "Expected modern biome chunk"@,
            ChunkFormat::NewHeight => "Expected new height chunk"@,
        },
        RepackError::Unsupported { from, to } => "Unsupported conversion: "@ + format_name(from)
            + " → "@ + format_name(to),
    }
}

impl ChunkFormat {
    /// The name of the format.
    pub fn name(self) -> (s: &'static str)
        ensures
            s@ == format_name(self),
    {
        match self {
            ChunkFormat::Legacy => "Legacy",
            ChunkFormat::Flattened => "Flattened",
            ChunkFormat::ModernBiomes => "ModernBiomes",
            ChunkFormat::NewHeight => "NewHeight",
        }
    }
}

impl RepackError {
    /// The words for the error. Where in a name the text stops being UTF-8 is not said.
    pub fn message(&self) -> (s: String)
        ensures
            s@ == error_text(*self),
    {
        let mut out = String::new();
        match *self {
            RepackError::BlockIds => out.append("Failed to read block IDs: failed to fill whole buffer"),
            RepackError::BlockMetadata => out.append(
                "Failed to read block metadata: failed to fill whole buffer",
            ),
            RepackError::BlockLight => out.append("Failed to read block light: failed to fill whole buffer"),
            RepackError::SkyLight => out.append("Failed to read sky light: failed to fill whole buffer"),
            RepackError::PaletteEntry => out.append(
                "Failed to read palette entry: failed to fill whole buffer",
            ),
            RepackError::PaletteText => out.append("Invalid UTF-8 in palette"),
            RepackError::StatesTooLarge { bytes } => {
                out.append("Block state data too large: ");
                push_decimal(&mut out, bytes as u64);
                out.append(" bytes (max 16 MiB)");
            },
            RepackError::StatesBeyondEnd { bytes, left } => {
                out.append("Block state data (");
                push_decimal(&mut out, bytes as u64);
                out.append(" bytes) exceeds remaining buffer (");
                push_decimal(&mut out, left as u64);
                out.append(" bytes)");
            },
            RepackError::Expected { format } => match format {
                ChunkFormat::Legacy => out.append("Expected legacy chunk"),
                ChunkFormat::Flattened => out.append("Expected flattened chunk"),
                ChunkFormat::ModernBiomes => out.append("Expected modern biome chunk"),
                ChunkFormat::NewHeight => out.append("Expected new height chunk"),
            },
            RepackError::Unsupported { from, to } => {
                out.append("Unsupported conversion: ");
                out.append(from.name());
                out.append(" → ");
                out.append(to.name());
            },
        }
        out
    }
}

/// The largest number of bytes that the words of a section may take.
pub const MAX_STATE_BYTES: u32 = 16_777_216;

/// The sections of a chunk.
pub enum ChunkData {
    Legacy(Vec<LegacyChunkSection>),
    Flattened(Vec<FlattenedChunkSection>),
    ModernBiomes(Vec<BiomeChunkSection>),
    NewHeight(Vec<BiomeChunkSection>),
}

/// The sections of a chunk as sequences.
#[verifier::ext_equal]
pub enum Chunk {
    Legacy(Seq<LegacySection>),
    Flattened(Seq<FlatSection>),
    ModernBiomes(Seq<BiomeSection>),
    NewHeight(Seq<BiomeSection>),
}

/// Sections as sequences.
pub open spec fn legacy_views(v: Seq<LegacyChunkSection>) -> Seq<LegacySection> {
    Seq::new(v.len(), |i: int| v[i]@)
}

/// Sections as sequences.
pub open spec fn flat_views(v: Seq<FlattenedChunkSection>) -> Seq<FlatSection> {
    Seq::new(v.len(), |i: int| v[i]@)
}

/// Sections as sequences.
pub open spec fn biome_views(v: Seq<BiomeChunkSection>) -> Seq<BiomeSection> {
    Seq::new(v.len(), |i: int| v[i]@)
}

impl View for ChunkData {
    type V = Chunk;

    open spec fn view(&self) -> Chunk {
        match self {
            ChunkData::Legacy(v) => Chunk::Legacy(legacy_views(v@)),
            ChunkData::Flattened(v) => Chunk::Flattened(flat_views(v@)),
            ChunkData::ModernBiomes(v) => Chunk::ModernBiomes(biome_views(v@)),
            ChunkData::NewHeight(v) => Chunk::NewHeight(biome_views(v@)),
        }
    }
}

/// Whether the sections of a chunk from before 1.13 are whole.
pub open spec fn whole_chunk(c: Chunk) -> bool {
    match c {
        Chunk::Legacy(v) => whole_sections(v),
        _ => true,
    }
}

/// Whether sections are whole.
pub open spec fn whole_sections(v: Seq<LegacySection>) -> bool {
    forall|i: int| 0 <= i < v.len() ==> whole_section(#[trigger] v[i])
}

/// What an attempt at a chunk gives, with the chunk as sequences.
pub open spec fn attempt_of(r: Option<Result<ChunkData, RepackError>>) -> Option<
    Result<Chunk, RepackError>,
> {
    match r {
        Some(Ok(c)) => Some(Ok(c@)),
        Some(Err(e)) => Some(Err(e)),
        None => None,
    }
}

/// Sections in front of others.
pub open spec fn before<T>(done: Seq<T>, rest: Option<Result<Seq<T>, RepackError>>) -> Option<
    Result<Seq<T>, RepackError>,
> {
    match rest {
        Some(Ok(more)) => Some(Ok(done + more)),
        Some(Err(e)) => Some(Err(e)),
        None => None,
    }
}

// Sections before 1.13.

/// A section at `p`, and the position behind it.
pub open spec fn legacy_section_at(b: Seq<u8>, p: int) -> Result<(LegacySection, int), RepackError> {
    if p + 4096 > b.len() {
        Err(RepackError::BlockIds)
    } else if p + 6144 > b.len() {
        Err(RepackError::BlockMetadata)
    } else if p + 8192 > b.len() {
        Err(RepackError::BlockLight)
    } else if p + 10240 > b.len() {
        Err(RepackError::SkyLight)
    } else {
        Ok(
            (
                LegacySection {
                    blocks: b.subrange(p, p + 4096),
                    metadata: b.subrange(p + 4096, p + 6144),
                    block_light: b.subrange(p + 6144, p + 8192),
                    sky_light: b.subrange(p + 8192, p + 10240),
                },
                p + 10240,
            ),
        )
    }
}

/// The sections from `p` on, one for each of the low `left` bits of the mask that is set.
pub open spec fn legacy_from(b: Seq<u8>, p: int, mask: nat, left: nat) -> Option<
    Result<Seq<LegacySection>, RepackError>,
>
    decreases left,
{
    if left == 0 {
        Some(Ok(seq![]))
    } else if mask % 2 == 0 {
        legacy_from(b, p, mask / 2, (left - 1) as nat)
    } else {
        match legacy_section_at(b, p) {
            Err(e) => Some(Err(e)),
            Ok((s, q)) => before(seq![s], legacy_from(b, q, mask / 2, (left - 1) as nat)),
        }
    }
}

/// A chunk from before 1.13. `None` where not even the mask is there.
pub open spec fn legacy_chunk(b: Seq<u8>) -> Option<Result<Seq<LegacySection>, RepackError>> {
    if b.len() < 2 {
        None
    } else {
        legacy_from(b, 2, le16_at(b, 0) as nat, 16)
    }
}

fn take_vec(r: &mut Reader, n: usize) -> (v: Option<Vec<u8>>)
    requires
        old(r).valid(),
    ensures
        final(r).valid(),
        final(r).all() == old(r).all(),
        match v {
            Some(v) => old(r).holds(n as int) && final(r).at() == old(r).at() + n && v@
                == old(r).all().subrange(old(r).at(), old(r).at() + n),
            None => !old(r).holds(n as int),
        },
{
    match r.take(n) {
        Some(b) => Some(bytes_to_vec(&b)),
        None => None,
    }
}

fn parse_legacy_section(r: &mut Reader) -> (res: Result<LegacyChunkSection, RepackError>)
    requires
        old(r).valid(),
    ensures
        final(r).valid(),
        final(r).all() == old(r).all(),
        match legacy_section_at(old(r).all(), old(r).at()) {
            Ok((s, q)) => res is Ok && res->Ok_0@ == s && final(r).at() == q && whole_section(s),
            Err(e) => res == Err::<LegacyChunkSection, RepackError>(e),
        },
{
    proof {
        r.bounds();
    }
    let blocks = match take_vec(r, SECTION_BLOCKS) {
        Some(v) => v,
        None => {
            return Err(RepackError::BlockIds);
        },
    };
    let metadata = match take_vec(r, NIBBLE_BYTES) {
        Some(v) => v,
        None => {
            return Err(RepackError::BlockMetadata);
        },
    };
    let block_light = match take_vec(r, NIBBLE_BYTES) {
        Some(v) => v,
        None => {
            return Err(RepackError::BlockLight);
        },
    };
    let sky_light = match take_vec(r, NIBBLE_BYTES) {
        Some(v) => v,
        None => {
            return Err(RepackError::SkyLight);
        },
    };
    Ok(LegacyChunkSection { blocks, metadata, block_light, sky_light })
}

fn parse_legacy_chunk(data: Bytes) -> (res: Option<Result<ChunkData, RepackError>>)
    ensures
        attempt_of(res) == (match legacy_chunk(content(data)) {
            Some(Ok(v)) => Some(Ok(Chunk::Legacy(v))),
            Some(Err(e)) => Some(Err(e)),
            None => None,
        }),
        res matches Some(Ok(c)) ==> whole_chunk(c@),
{
    let ghost b = content(data);
    let mut r = Reader::new(data);
    if !r.has(2) {
        return None;
    }
    let mut mask: u16 = r.get_u16_le();
    let ghost whole = legacy_from(b, 2, mask as nat, 16);
    let mut sections: Vec<LegacyChunkSection> = Vec::new();
    let mut left: u8 = 16;
    proof {
        assert(legacy_views(sections@) =~= seq![]);
        lemma_before_nothing(whole);
    }
    while left > 0
        invariant
            left <= 16,
            r.valid(),
            r.all() == b,
            b == content(data),
            b.len() >= 2,
            whole == legacy_from(b, 2, le16_at(b, 0) as nat, 16),
            whole == before(legacy_views(sections@), legacy_from(b, r.at(), mask as nat, left as nat)),
            forall|i: int| 0 <= i < sections@.len() ==> whole_section((#[trigger] sections@[i])@),
        decreases left,
    {
        if mask % 2 == 1 {
            let ghost had = legacy_views(sections@);
            let ghost p = r.at();
            match parse_legacy_section(&mut r) {
                Ok(s) => {
                    sections.push(s);
                    proof {
                        assert(legacy_views(sections@) =~= had + seq![s@]);
                        lemma_before_before(
                            had,
                            seq![s@],
                            legacy_from(b, r.at(), (mask / 2) as nat, (left - 1) as nat),
                        );
                    }
                },
                Err(e) => {
                    return Some(Err(e));
                },
            }
        }
        mask = mask / 2;
        left = left - 1;
    }
    assert(legacy_views(sections@) + Seq::<LegacySection>::empty() =~= legacy_views(sections@));
    Some(Ok(ChunkData::Legacy(sections)))
}

proof fn lemma_before_nothing<T>(rest: Option<Result<Seq<T>, RepackError>>)
    ensures
        before(Seq::<T>::empty(), rest) == rest,
{
    if rest is Some && rest->0 is Ok {
        let v = rest->0->Ok_0;
        assert(Seq::<T>::empty() + v =~= v);
    }
}

proof fn lemma_before_before<T>(
    a: Seq<T>,
    b: Seq<T>,
    rest: Option<Result<Seq<T>, RepackError>>,
)
    ensures
        before(a, before(b, rest)) == before(a + b, rest),
{
    if rest is Some && rest->0 is Ok {
        let v = rest->0->Ok_0;
        assert(a + (b + v) =~= (a + b) + v);
    }
}

// Sections of 1.13 and later.

/// `n` names from `p` on, each behind its 16-bit byte count, and the position behind them.
pub open spec fn names_from(b: Seq<u8>, p: int, n: nat) -> Option<
    Result<(Seq<Seq<char>>, int), RepackError>,
>
    decreases n,
{
    if n == 0 {
        Some(Ok((seq![], p)))
    } else if p + 2 > b.len() {
        None
    } else {
        let q = p + 2 + le16_at(b, p);
        if q > b.len() {
            Some(Err(RepackError::PaletteEntry))
        } else if !valid_utf8(b.subrange(p + 2, q)) {
            Some(Err(RepackError::PaletteText))
        } else {
            match names_from(b, q, (n - 1) as nat) {
                Some(Ok((rest, end))) => Some(
                    Ok((seq![decode_utf8(b.subrange(p + 2, q))] + rest, end)),
                ),
                Some(Err(e)) => Some(Err(e)),
                None => None,
            }
        }
    }
}

/// Words of a section that stand little-endian from `p` on.
pub open spec fn words_at(b: Seq<u8>, p: int, n: nat) -> Seq<u64> {
    Seq::new(n, |i: int| le64_at(b, p + 8 * i))
}

/// The palette and the words of a section at `p`, and the position behind them. `None` where
/// the data ends in a count, or the words are fewer than the bits ask for.
pub open spec fn states_at(b: Seq<u8>, p: int) -> Option<
    Result<(Seq<Seq<char>>, Seq<u64>, int), RepackError>,
> {
    if p + 3 > b.len() {
        None
    } else {
        match names_from(b, p + 3, le16_at(b, p + 1) as nat) {
            Some(Ok((palette, q))) => if q + 4 > b.len() {
                None
            } else {
                let n = le32_at(b, q);
                if n > MAX_STATE_BYTES {
                    Some(Err(RepackError::StatesTooLarge { bytes: n }))
                } else if q + 4 + n > b.len() {
                    Some(
                        Err(
                            RepackError::StatesBeyondEnd {
                                bytes: n,
                                left: (b.len() - q - 4) as usize,
                            },
                        ),
                    )
                } else if 512 * b[p] > n {
                    None
                } else {
                    Some(Ok((palette, words_at(b, q + 4, (64 * b[p]) as nat), q + 4 + n)))
                }
            },
            Some(Err(e)) => Some(Err(e)),
            None => None,
        }
    }
}

/// The two lights of a section at `p`.
pub open spec fn lights_at(b: Seq<u8>, p: int) -> Result<(Seq<u8>, Seq<u8>), RepackError> {
    if p + 2048 > b.len() {
        Err(RepackError::BlockLight)
    } else if p + 4096 > b.len() {
        Err(RepackError::SkyLight)
    } else {
        Ok((b.subrange(p, p + 2048), b.subrange(p + 2048, p + 4096)))
    }
}

/// A section of 1.13 or later at `p`, and the position behind it.
pub open spec fn flat_section_at(b: Seq<u8>, p: int) -> Option<
    Result<(FlatSection, int), RepackError>,
> {
    match states_at(b, p) {
        Some(Ok((palette, states, q))) => match lights_at(b, q) {
            Ok((block_light, sky_light)) => Some(
                Ok((FlatSection { palette, states, block_light, sky_light }, q + 4096)),
            ),
            Err(e) => Some(Err(e)),
        },
        Some(Err(e)) => Some(Err(e)),
        None => None,
    }
}

/// Biomes that stand little-endian from `p` on.
pub open spec fn biomes_at(b: Seq<u8>, p: int) -> Seq<i32> {
    Seq::new(64, |i: int| le32_at(b, p + 4 * i) as i32)
}

/// A section with its biomes, as taller worlds have it, at `p`, and the position behind it.
pub open spec fn tall_section_at(b: Seq<u8>, p: int) -> Option<
    Result<(BiomeSection, int), RepackError>,
> {
    match states_at(b, p) {
        Some(Ok((palette, states, q))) => if q + 256 > b.len() {
            None
        } else {
            match lights_at(b, q + 256) {
                Ok((block_light, sky_light)) => Some(
                    Ok(
                        (
                            BiomeSection {
                                flat: FlatSection { palette, states, block_light, sky_light },
                                biomes: biomes_at(b, q),
                            },
                            q + 256 + 4096,
                        ),
                    ),
                ),
                Err(e) => Some(Err(e)),
            }
        },
        Some(Err(e)) => Some(Err(e)),
        None => None,
    }
}

/// The sections from `p` on, one for each of the low `left` bits of the mask that is set.
pub open spec fn flat_from(b: Seq<u8>, p: int, mask: nat, left: nat) -> Option<
    Result<Seq<FlatSection>, RepackError>,
>
    decreases left,
{
    if left == 0 {
        Some(Ok(seq![]))
    } else if mask % 2 == 0 {
        flat_from(b, p, mask / 2, (left - 1) as nat)
    } else {
        match flat_section_at(b, p) {
            None => None,
            Some(Err(e)) => Some(Err(e)),
            Some(Ok((s, q))) => before(seq![s], flat_from(b, q, mask / 2, (left - 1) as nat)),
        }
    }
}

/// The sections from `p` on, one for each of the low `left` bits of the mask that is set.
pub open spec fn tall_from(b: Seq<u8>, p: int, mask: nat, left: nat) -> Option<
    Result<Seq<BiomeSection>, RepackError>,
>
    decreases left,
{
    if left == 0 {
        Some(Ok(seq![]))
    } else if mask % 2 == 0 {
        tall_from(b, p, mask / 2, (left - 1) as nat)
    } else {
        match tall_section_at(b, p) {
            None => None,
            Some(Err(e)) => Some(Err(e)),
            Some(Ok((s, q))) => before(seq![s], tall_from(b, q, mask / 2, (left - 1) as nat)),
        }
    }
}

/// A chunk of 1.13 or later.
pub open spec fn flat_chunk(b: Seq<u8>) -> Option<Result<Seq<FlatSection>, RepackError>> {
    if b.len() < 2 {
        None
    } else {
        flat_from(b, 2, le16_at(b, 0) as nat, 16)
    }
}

/// A chunk of a taller world, with a mask of 24 bits.
pub open spec fn tall_chunk(b: Seq<u8>) -> Option<Result<Seq<BiomeSection>, RepackError>> {
    if b.len() < 4 {
        None
    } else {
        tall_from(b, 4, le32_at(b, 0) as nat, 24)
    }
}

/// Sections with 256 biomes each, all ocean.
pub open spec fn with_oceans(v: Seq<FlatSection>) -> Seq<BiomeSection> {
    Seq::new(
        v.len(),
        |i: int| BiomeSection { flat: v[i], biomes: Seq::new(256, |k: int| 0i32) },
    )
}

/// A chunk in the given format.
pub open spec fn chunk_at(b: Seq<u8>, format: ChunkFormat) -> Option<Result<Chunk, RepackError>> {
    match format {
        ChunkFormat::Legacy => match legacy_chunk(b) {
            Some(Ok(v)) => Some(Ok(Chunk::Legacy(v))),
            Some(Err(e)) => Some(Err(e)),
            None => None,
        },
        ChunkFormat::Flattened => match flat_chunk(b) {
            Some(Ok(v)) => Some(Ok(Chunk::Flattened(v))),
            Some(Err(e)) => Some(Err(e)),
            None => None,
        },
        ChunkFormat::ModernBiomes => match flat_chunk(b) {
            Some(Ok(v)) => Some(Ok(Chunk::ModernBiomes(with_oceans(v)))),
            Some(Err(e)) => Some(Err(e)),
            None => None,
        },
        ChunkFormat::NewHeight => match tall_chunk(b) {
            Some(Ok(v)) => Some(Ok(Chunk::NewHeight(v))),
            Some(Err(e)) => Some(Err(e)),
            None => None,
        },
    }
}

/// Names in front of others.
spec fn names_before(
    done: Seq<Seq<char>>,
    rest: Option<Result<(Seq<Seq<char>>, int), RepackError>>,
) -> Option<Result<(Seq<Seq<char>>, int), RepackError>> {
    match rest {
        Some(Ok((more, end))) => Some(Ok((done + more, end))),
        Some(Err(e)) => Some(Err(e)),
        None => None,
    }
}

fn parse_names(r: &mut Reader, count: u16) -> (res: Option<Result<Vec<String>, RepackError>>)
    requires
        old(r).valid(),
    ensures
        final(r).valid(),
        final(r).all() == old(r).all(),
        match names_from(old(r).all(), old(r).at(), count as nat) {
            Some(Ok((names, end))) => res is Some && res->0 is Ok && texts(res->0->Ok_0@) == names
                && final(r).at() == end,
            Some(Err(e)) => res == Some(Err::<Vec<String>, RepackError>(e)),
            None => res is None,
        },
{
    let ghost (b, p) = (r.all(), r.at());
    let ghost whole = names_from(b, p, count as nat);
    let mut names: Vec<String> = Vec::new();
    let mut left: u16 = count;
    proof {
        assert(texts(names@) =~= seq![]);
        if whole is Some && whole->0 is Ok {
            let (v, _) = whole->0->Ok_0;
            assert(texts(names@) + v =~= v);
        }
    }
    while left > 0
        invariant
            left <= count,
            r.valid(),
            r.all() == b,
            b == old(r).all(),
            p == old(r).at(),
            whole == names_from(b, p, count as nat),
            whole == names_before(texts(names@), names_from(b, r.at(), left as nat)),
        decreases left,
    {
        let ghost had = texts(names@);
        let ghost at = r.at();
        if !r.has(2) {
            return None;
        }
        let len: u16 = r.get_u16_le();
        let bytes = match take_vec(r, len as usize) {
            Some(v) => v,
            None => {
                return Some(Err(RepackError::PaletteEntry));
            },
        };
        match string_from_utf8(bytes) {
            Some(name) => {
                names.push(name);
                proof {
                    assert(texts(names@) =~= had + seq![name@]);
                    let rest = names_from(b, r.at(), (left - 1) as nat);
                    if rest is Some && rest->0 is Ok {
                        let (v, _) = rest->0->Ok_0;
                        assert(had + (seq![name@] + v) =~= (had + seq![name@]) + v);
                    }
                }
            },
            None => {
                return Some(Err(RepackError::PaletteText));
            },
        }
        left = left - 1;
    }
    assert(texts(names@) + Seq::<Seq<char>>::empty() =~= texts(names@));
    Some(Ok(names))
}

fn parse_states(r: &mut Reader) -> (res: Option<Result<(Vec<String>, Vec<u64>), RepackError>>)
    requires
        old(r).valid(),
    ensures
        final(r).valid(),
        final(r).all() == old(r).all(),
        match states_at(old(r).all(), old(r).at()) {
            Some(Ok((palette, states, q))) => match res {
                Some(Ok(t)) => texts(t.0@) == palette && t.1@ == states && final(r).at() == q,
                _ => false,
            },
            Some(Err(e)) => res == Some(Err::<(Vec<String>, Vec<u64>), RepackError>(e)),
            None => res is None,
        },
{
    let ghost (b, p) = (r.all(), r.at());
    if !r.has(3) {
        return None;
    }
    let bits: u8 = r.get_u8();
    let count: u16 = r.get_u16_le();
    let palette = match parse_names(r, count) {
        Some(Ok(v)) => v,
        Some(Err(e)) => {
            return Some(Err(e));
        },
        None => {
            return None;
        },
    };
    if !r.has(4) {
        return None;
    }
    let n: u32 = r.get_u32_le();
    if n > MAX_STATE_BYTES {
        return Some(Err(RepackError::StatesTooLarge { bytes: n }));
    }
    let left: usize = r.remaining();
    if n as usize > left {
        return Some(Err(RepackError::StatesBeyondEnd { bytes: n, left }));
    }
    let words: usize = 64 * bits as usize;
    if 8 * words > n as usize {
        return None;
    }
    let ghost start = r.at();
    let mut ahead = r.fork();
    let mut states: Vec<u64> = Vec::new();
    while states.len() < words
        invariant
            states@.len() <= words,
            words == 64 * bits,
            ahead.valid(),
            ahead.all() == b,
            start + 8 * words <= b.len(),
            ahead.at() == start + 8 * states@.len(),
            forall|i: int| 0 <= i < states@.len() ==> #[trigger] states@[i] == le64_at(b, start + 8 * i),
        decreases words - states.len(),
    {
        let w: u64 = ahead.get_u64_le();
        states.push(w);
    }
    assert(states@ =~= words_at(b, start, words as nat));
    let _ = r.get_bytes(n as usize);
    Some(Ok((palette, states)))
}

fn parse_lights(r: &mut Reader) -> (res: Result<(Vec<u8>, Vec<u8>), RepackError>)
    requires
        old(r).valid(),
    ensures
        final(r).valid(),
        final(r).all() == old(r).all(),
        match lights_at(old(r).all(), old(r).at()) {
            Ok((block, sky)) => match res {
                Ok(t) => t.0@ == block && t.1@ == sky && final(r).at() == old(r).at() + 4096,
                Err(_) => false,
            },
            Err(e) => res == Err::<(Vec<u8>, Vec<u8>), RepackError>(e),
        },
{
    let block = match take_vec(r, NIBBLE_BYTES) {
        Some(v) => v,
        None => {
            return Err(RepackError::BlockLight);
        },
    };
    let sky = match take_vec(r, NIBBLE_BYTES) {
        Some(v) => v,
        None => {
            return Err(RepackError::SkyLight);
        },
    };
    Ok((block, sky))
}

fn parse_flat_section(r: &mut Reader) -> (res: Option<Result<FlattenedChunkSection, RepackError>>)
    requires
        old(r).valid(),
    ensures
        final(r).valid(),
        final(r).all() == old(r).all(),
        match flat_section_at(old(r).all(), old(r).at()) {
            Some(Ok((s, q))) => res is Some && res->0 is Ok && res->0->Ok_0@ == s && final(r).at() == q,
            Some(Err(e)) => res == Some(Err::<FlattenedChunkSection, RepackError>(e)),
            None => res is None,
        },
{
    let (palette, block_states) = match parse_states(r) {
        Some(Ok(t)) => t,
        Some(Err(e)) => {
            return Some(Err(e));
        },
        None => {
            return None;
        },
    };
    match parse_lights(r) {
        Ok((block_light, sky_light)) => Some(
            Ok(FlattenedChunkSection { palette, block_states, block_light, sky_light }),
        ),
        Err(e) => Some(Err(e)),
    }
}

fn parse_tall_section(r: &mut Reader) -> (res: Option<Result<BiomeChunkSection, RepackError>>)
    requires
        old(r).valid(),
    ensures
        final(r).valid(),
        final(r).all() == old(r).all(),
        match tall_section_at(old(r).all(), old(r).at()) {
            Some(Ok((s, q))) => res is Some && res->0 is Ok && res->0->Ok_0@ == s && final(r).at() == q,
            Some(Err(e)) => res == Some(Err::<BiomeChunkSection, RepackError>(e)),
            None => res is None,
        },
{
    let ghost b = r.all();
    let (palette, block_states) = match parse_states(r) {
        Some(Ok(t)) => t,
        Some(Err(e)) => {
            return Some(Err(e));
        },
        None => {
            return None;
        },
    };
    let ghost q = r.at();
    if !r.has(256) {
        return None;
    }
    let mut biomes: Vec<i32> = Vec::new();
    while biomes.len() < 64
        invariant
            biomes@.len() <= 64,
            r.valid(),
            r.all() == b,
            b == old(r).all(),
            q + 256 <= b.len(),
            r.at() == q + 4 * biomes@.len(),
            forall|i: int|
                0 <= i < biomes@.len() ==> #[trigger] biomes@[i] == le32_at(b, q + 4 * i) as i32,
        decreases 64 - biomes.len(),
    {
        let x: i32 = r.get_u32_le() as i32;
        biomes.push(x);
    }
    assert(biomes@ =~= biomes_at(b, q));
    match parse_lights(r) {
        Ok((block_light, sky_light)) => Some(
            Ok(
                BiomeChunkSection {
                    block_states: FlattenedChunkSection {
                        palette,
                        block_states,
                        block_light,
                        sky_light,
                    },
                    biomes,
                },
            ),
        ),
        Err(e) => Some(Err(e)),
    }
}

fn parse_flat_sections(data: Bytes) -> (res: Option<Result<Vec<FlattenedChunkSection>, RepackError>>)
    ensures
        match flat_chunk(content(data)) {
            Some(Ok(v)) => res is Some && res->0 is Ok && flat_views(res->0->Ok_0@) == v,
            Some(Err(e)) => res == Some(Err::<Vec<FlattenedChunkSection>, RepackError>(e)),
            None => res is None,
        },
{
    let ghost b = content(data);
    let mut r = Reader::new(data);
    if !r.has(2) {
        return None;
    }
    let mut mask: u16 = r.get_u16_le();
    let ghost whole = flat_from(b, 2, mask as nat, 16);
    let mut sections: Vec<FlattenedChunkSection> = Vec::new();
    let mut left: u8 = 16;
    proof {
        assert(flat_views(sections@) =~= seq![]);
        lemma_before_nothing(whole);
    }
    while left > 0
        invariant
            left <= 16,
            r.valid(),
            r.all() == b,
            b == content(data),
            b.len() >= 2,
            whole == flat_from(b, 2, le16_at(b, 0) as nat, 16),
            whole == before(flat_views(sections@), flat_from(b, r.at(), mask as nat, left as nat)),
        decreases left,
    {
        if mask % 2 == 1 {
            let ghost had = flat_views(sections@);
            match parse_flat_section(&mut r) {
                Some(Ok(s)) => {
                    sections.push(s);
                    proof {
                        assert(flat_views(sections@) =~= had + seq![s@]);
                        lemma_before_before(
                            had,
                            seq![s@],
                            flat_from(b, r.at(), (mask / 2) as nat, (left - 1) as nat),
                        );
                    }
                },
                Some(Err(e)) => {
                    return Some(Err(e));
                },
                None => {
                    return None;
                },
            }
        }
        mask = mask / 2;
        left = left - 1;
    }
    assert(flat_views(sections@) + Seq::<FlatSection>::empty() =~= flat_views(sections@));
    Some(Ok(sections))
}

fn parse_tall_sections(data: Bytes) -> (res: Option<Result<Vec<BiomeChunkSection>, RepackError>>)
    ensures
        match tall_chunk(content(data)) {
            Some(Ok(v)) => res is Some && res->0 is Ok && biome_views(res->0->Ok_0@) == v,
            Some(Err(e)) => res == Some(Err::<Vec<BiomeChunkSection>, RepackError>(e)),
            None => res is None,
        },
{
    let ghost b = content(data);
    let mut r = Reader::new(data);
    if !r.has(4) {
        return None;
    }
    let mut mask: u32 = r.get_u32_le();
    let ghost whole = tall_from(b, 4, mask as nat, 24);
    let mut sections: Vec<BiomeChunkSection> = Vec::new();
    let mut left: u8 = 24;
    proof {
        assert(biome_views(sections@) =~= seq![]);
        lemma_before_nothing(whole);
    }
    while left > 0
        invariant
            left <= 24,
            r.valid(),
            r.all() == b,
            b == content(data),
            b.len() >= 4,
            whole == tall_from(b, 4, le32_at(b, 0) as nat, 24),
            whole == before(biome_views(sections@), tall_from(b, r.at(), mask as nat, left as nat)),
        decreases left,
    {
        if mask % 2 == 1 {
            let ghost had = biome_views(sections@);
            match parse_tall_section(&mut r) {
                Some(Ok(s)) => {
                    sections.push(s);
                    proof {
                        assert(biome_views(sections@) =~= had + seq![s@]);
                        lemma_before_before(
                            had,
                            seq![s@],
                            tall_from(b, r.at(), (mask / 2) as nat, (left - 1) as nat),
                        );
                    }
                },
                Some(Err(e)) => {
                    return Some(Err(e));
                },
                None => {
                    return None;
                },
            }
        }
        mask = mask / 2;
        left = left - 1;
    }
    assert(biome_views(sections@) + Seq::<BiomeSection>::empty() =~= biome_views(sections@));
    Some(Ok(sections))
}

fn ocean() -> (v: Vec<i32>)
    ensures
        v@ == Seq::new(256, |k: int| 0i32),
{
    let mut v: Vec<i32> = Vec::new();
    while v.len() < 256
        invariant
            v@.len() <= 256,
            forall|k: int| 0 <= k < v@.len() ==> #[trigger] v@[k] == 0i32,
        decreases 256 - v.len(),
    {
        v.push(0);
    }
    assert(v@ =~= Seq::new(256, |k: int| 0i32));
    v
}

fn add_oceans(sections: Vec<FlattenedChunkSection>) -> (out: Vec<BiomeChunkSection>)
    ensures
        biome_views(out@) == with_oceans(flat_views(sections@)),
{
    let ghost all = flat_views(sections@);
    let mut sections = sections;
    let mut back: Vec<BiomeChunkSection> = Vec::new();
    let ghost n = all.len();
    while sections.len() > 0
        invariant
            n == all.len(),
            sections@.len() + back@.len() == n,
            flat_views(sections@) == all.take(sections@.len() as int),
            forall|i: int|
                0 <= i < back@.len() ==> (#[trigger] back@[i])@ == with_oceans(all)[n - 1 - i],
        decreases sections.len(),
    {
        let ghost k = sections@.len() - 1;
        let ghost was = sections@;
        assert(flat_views(was)[k] == all[k]);
        match sections.pop() {
            Some(s) => {
                assert(s@ == all[k]);
                assert(flat_views(sections@) =~= all.take(k));
                back.push(BiomeChunkSection { block_states: s, biomes: ocean() });
            },
            None => {},
        }
    }
    let out = reversed(back);
    assert(biome_views(out@) =~= with_oceans(all));
    out
}

fn reversed<T>(v: Vec<T>) -> (out: Vec<T>)
    ensures
        out@ == v@.reverse(),
{
    let ghost all = v@;
    let mut v = v;
    let mut out: Vec<T> = Vec::new();
    while v.len() > 0
        invariant
            v@.len() + out@.len() == all.len(),
            v@ == all.take(v@.len() as int),
            forall|i: int| 0 <= i < out@.len() ==> #[trigger] out@[i] == all[all.len() - 1 - i],
        decreases v.len(),
    {
        let ghost k = v@.len() - 1;
        assert(v@[k] == all[k]);
        match v.pop() {
            Some(x) => {
                assert(v@ =~= all.take(k));
                out.push(x);
            },
            None => {},
        }
    }
    assert(out@ =~= all.reverse());
    out
}

fn parse_chunk(data: Bytes, format: ChunkFormat) -> (res: Option<Result<ChunkData, RepackError>>)
    ensures
        attempt_of(res) == chunk_at(content(data), format),
        res matches Some(Ok(c)) ==> whole_chunk(c@),
{
    match format {
        ChunkFormat::Legacy => parse_legacy_chunk(data),
        ChunkFormat::Flattened => match parse_flat_sections(data) {
            Some(Ok(v)) => Some(Ok(ChunkData::Flattened(v))),
            Some(Err(e)) => Some(Err(e)),
            None => None,
        },
        ChunkFormat::ModernBiomes => match parse_flat_sections(data) {
            Some(Ok(v)) => Some(Ok(ChunkData::ModernBiomes(add_oceans(v)))),
            Some(Err(e)) => Some(Err(e)),
            None => None,
        },
        ChunkFormat::NewHeight => match parse_tall_sections(data) {
            Some(Ok(v)) => Some(Ok(ChunkData::NewHeight(v))),
            Some(Err(e)) => Some(Err(e)),
            None => None,
        },
    }
}

// Conversions between the formats.

/// Sections in their newer form, `None` where one has none.
pub open spec fn newer_sections(v: Seq<LegacySection>, t: BlockTable) -> Option<Seq<FlatSection>> {
    if forall|i: int| 0 <= i < v.len() ==> newer_section(#[trigger] v[i], t) is Some {
        Some(Seq::new(v.len(), |i: int| newer_section(v[i], t)->0))
    } else {
        None
    }
}

/// Sections in their older form, `None` where one has none.
pub open spec fn older_sections(v: Seq<FlatSection>, t: BlockTable) -> Option<Seq<LegacySection>> {
    if forall|i: int| 0 <= i < v.len() ==> older_section(#[trigger] v[i], t) is Some {
        Some(Seq::new(v.len(), |i: int| older_section(v[i], t)->0))
    } else {
        None
    }
}

/// A chunk from before 1.13 in the form of 1.13.
pub open spec fn flattened_form(c: Chunk, t: BlockTable) -> Option<Result<Chunk, RepackError>> {
    match c {
        Chunk::Legacy(v) => match newer_sections(v, t) {
            Some(f) => Some(Ok(Chunk::Flattened(f))),
            None => None,
        },
        _ => Some(Err(RepackError::Expected { format: ChunkFormat::Legacy })),
    }
}

/// A chunk of 1.13 in the form before it.
pub open spec fn legacy_form(c: Chunk, t: BlockTable) -> Option<Result<Chunk, RepackError>> {
    match c {
        Chunk::Flattened(v) => match older_sections(v, t) {
            Some(l) => Some(Ok(Chunk::Legacy(l))),
            None => None,
        },
        _ => Some(Err(RepackError::Expected { format: ChunkFormat::Flattened })),
    }
}

/// A chunk of 1.13 with oceans for biomes.
pub open spec fn ocean_form(c: Chunk) -> Result<Chunk, RepackError> {
    match c {
        Chunk::Flattened(v) => Ok(Chunk::ModernBiomes(with_oceans(v))),
        _ => Err(RepackError::Expected { format: ChunkFormat::Flattened }),
    }
}

/// A chunk without its biomes.
pub open spec fn bare_form(c: Chunk) -> Result<Chunk, RepackError> {
    match c {
        Chunk::ModernBiomes(v) => Ok(Chunk::Flattened(flat_parts(v))),
        _ => Err(RepackError::Expected { format: ChunkFormat::ModernBiomes }),
    }
}

/// A chunk for a taller world, with one biome in four.
pub open spec fn tall_form(c: Chunk) -> Result<Chunk, RepackError> {
    match c {
        Chunk::ModernBiomes(v) => Ok(
            Chunk::NewHeight(
                Seq::new(
                    v.len(),
                    |i: int| BiomeSection { flat: v[i].flat, biomes: fewer_biomes(v[i].biomes) },
                ),
            ),
        ),
        _ => Err(RepackError::Expected { format: ChunkFormat::ModernBiomes }),
    }
}

/// A chunk of a taller world with four biomes for each. `None` where a section has more than
/// 64.
pub open spec fn low_form(c: Chunk) -> Option<Result<Chunk, RepackError>> {
    match c {
        Chunk::NewHeight(v) => if exists|i: int| 0 <= i < v.len() && (#[trigger] v[i]).biomes.len() > 64 {
            None
        } else {
            Some(
                Ok(
                    Chunk::ModernBiomes(
                        Seq::new(
                            v.len(),
                            |i: int| BiomeSection { flat: v[i].flat, biomes: more_biomes(v[i].biomes) },
                        ),
                    ),
                ),
            )
        },
        _ => Some(Err(RepackError::Expected { format: ChunkFormat::NewHeight })),
    }
}

/// A chunk in another format.
pub open spec fn converted_chunk(c: Chunk, from: ChunkFormat, to: ChunkFormat, t: BlockTable) -> Option<
    Result<Chunk, RepackError>,
> {
    match (from, to) {
        (ChunkFormat::Legacy, ChunkFormat::Flattened) => flattened_form(c, t),
        (ChunkFormat::Flattened, ChunkFormat::Legacy) => legacy_form(c, t),
        (ChunkFormat::Flattened, ChunkFormat::ModernBiomes) => Some(ocean_form(c)),
        (ChunkFormat::ModernBiomes, ChunkFormat::Flattened) => Some(bare_form(c)),
        (ChunkFormat::ModernBiomes, ChunkFormat::NewHeight) => Some(tall_form(c)),
        (ChunkFormat::NewHeight, ChunkFormat::ModernBiomes) => low_form(c),
        (ChunkFormat::Legacy, ChunkFormat::ModernBiomes) => match flattened_form(c, t) {
            Some(Ok(f)) => Some(ocean_form(f)),
            other => other,
        },
        (ChunkFormat::ModernBiomes, ChunkFormat::Legacy) => match bare_form(c) {
            Ok(f) => legacy_form(f, t),
            Err(e) => Some(Err(e)),
        },
        _ => Some(Err(RepackError::Unsupported { from, to })),
    }
}

/// Takes a chunk from before 1.13 to the form of 1.13. `None` where a section has no newer form.
pub fn legacy_to_flattened(chunk: ChunkData, t: &BlockStateConverter) -> (res: Option<
    Result<ChunkData, RepackError>,
>)
    requires
        whole_chunk(chunk@),
    ensures
        attempt_of(res) == flattened_form(chunk@, t@),
{
    match chunk {
        ChunkData::Legacy(sections) => {
            let ghost all = legacy_views(sections@);
            let mut sections = reversed(sections);
            let mut out: Vec<FlattenedChunkSection> = Vec::new();
            let ghost n = all.len();
            assert forall|i: int| 0 <= i < n implies #[trigger] all[i] == sections@[n - 1 - i]@ by {}
            while sections.len() > 0
                invariant
                    n == all.len(),
                    sections@.len() + out@.len() == n,
                    forall|i: int| 0 <= i < n ==> whole_section(#[trigger] all[i]),
                    chunk@ == Chunk::Legacy(all),
                    forall|i: int| out@.len() <= i < n ==> #[trigger] all[i] == sections@[n - 1 - i]@,
                    forall|i: int|
                        0 <= i < out@.len() ==> newer_section(#[trigger] all[i], t@) == Some(out@[i]@),
                decreases sections.len(),
            {
                let ghost k = out@.len() as int;
                assert(all[k] == sections@[n - 1 - k]@);
                match sections.pop() {
                    Some(s) => {
                        assert(s@ == all[k]);
                        match flatten_section(s, t) {
                            Some(f) => {
                                out.push(f);
                            },
                            None => {
                                return None;
                            },
                        }
                    },
                    None => {},
                }
            }
            proof {
                assert(newer_sections(all, t@) is Some);
                assert(flat_views(out@) =~= newer_sections(all, t@)->0);
            }
            Some(Ok(ChunkData::Flattened(out)))
        },
        _ => Some(Err(RepackError::Expected { format: ChunkFormat::Legacy })),
    }
}

/// Takes a chunk of 1.13 to the form before it. `None` where a section has no older form.
pub fn flattened_to_legacy(chunk: ChunkData, t: &BlockStateConverter) -> (res: Option<
    Result<ChunkData, RepackError>,
>)
    ensures
        attempt_of(res) == legacy_form(chunk@, t@),
{
    match chunk {
        ChunkData::Flattened(sections) => {
            let ghost all = flat_views(sections@);
            let mut sections = reversed(sections);
            let mut out: Vec<LegacyChunkSection> = Vec::new();
            let ghost n = all.len();
            assert forall|i: int| 0 <= i < n implies #[trigger] all[i] == sections@[n - 1 - i]@ by {}
            while sections.len() > 0
                invariant
                    n == all.len(),
                    sections@.len() + out@.len() == n,
                    chunk@ == Chunk::Flattened(all),
                    forall|i: int| out@.len() <= i < n ==> #[trigger] all[i] == sections@[n - 1 - i]@,
                    forall|i: int|
                        0 <= i < out@.len() ==> older_section(#[trigger] all[i], t@) == Some(out@[i]@),
                decreases sections.len(),
            {
                let ghost k = out@.len() as int;
                assert(all[k] == sections@[n - 1 - k]@);
                match sections.pop() {
                    Some(s) => {
                        assert(s@ == all[k]);
                        match unflatten_section(s, t) {
                            Some(l) => {
                                out.push(l);
                            },
                            None => {
                                return None;
                            },
                        }
                    },
                    None => {},
                }
            }
            proof {
                assert(older_sections(all, t@) is Some);
                assert(legacy_views(out@) =~= older_sections(all, t@)->0);
            }
            Some(Ok(ChunkData::Legacy(out)))
        },
        _ => Some(Err(RepackError::Expected { format: ChunkFormat::Flattened })),
    }
}

/// Gives a chunk of 1.13 oceans for biomes.
pub fn flattened_to_modern_biomes(chunk: ChunkData) -> (res: Result<ChunkData, RepackError>)
    ensures
        attempt_of(Some(res)) == Some(ocean_form(chunk@)),
{
    match chunk {
        ChunkData::Flattened(sections) => Ok(ChunkData::ModernBiomes(add_oceans(sections))),
        _ => Err(RepackError::Expected { format: ChunkFormat::Flattened }),
    }
}

/// Takes the biomes from a chunk.
pub fn modern_biomes_to_flattened(chunk: ChunkData) -> (res: Result<ChunkData, RepackError>)
    ensures
        attempt_of(Some(res)) == Some(bare_form(chunk@)),
{
    match chunk {
        ChunkData::ModernBiomes(sections) => {
            let ghost all = biome_views(sections@);
            let mut sections = reversed(sections);
            let mut out: Vec<FlattenedChunkSection> = Vec::new();
            let ghost n = all.len();
            assert forall|i: int| 0 <= i < n implies #[trigger] all[i] == sections@[n - 1 - i]@ by {}
            while sections.len() > 0
                invariant
                    n == all.len(),
                    sections@.len() + out@.len() == n,
                    forall|i: int| out@.len() <= i < n ==> #[trigger] all[i] == sections@[n - 1 - i]@,
                    forall|i: int| 0 <= i < out@.len() ==> (#[trigger] all[i]).flat == out@[i]@,
                decreases sections.len(),
            {
                let ghost k = out@.len() as int;
                assert(all[k] == sections@[n - 1 - k]@);
                match sections.pop() {
                    Some(s) => {
                        assert(s@ == all[k]);
                        out.push(s.block_states);
                    },
                    None => {},
                }
            }
            assert(flat_views(out@) =~= flat_parts(all));
            Ok(ChunkData::Flattened(out))
        },
        _ => Err(RepackError::Expected { format: ChunkFormat::ModernBiomes }),
    }
}

/// Takes a chunk to the form of a taller world, with one biome in four.
pub fn modern_biomes_to_new_height(chunk: ChunkData) -> (res: Result<ChunkData, RepackError>)
    ensures
        attempt_of(Some(res)) == Some(tall_form(chunk@)),
{
    match chunk {
        ChunkData::ModernBiomes(sections) => {
            let ghost all = biome_views(sections@);
            let ghost goal = Seq::new(
                all.len(),
                |i: int| BiomeSection { flat: all[i].flat, biomes: fewer_biomes(all[i].biomes) },
            );
            let mut sections = reversed(sections);
            let mut out: Vec<BiomeChunkSection> = Vec::new();
            let ghost n = all.len();
            assert forall|i: int| 0 <= i < n implies #[trigger] all[i] == sections@[n - 1 - i]@ by {}
            while sections.len() > 0
                invariant
                    n == all.len(),
                    sections@.len() + out@.len() == n,
                    goal == Seq::new(
                        n,
                        |i: int| BiomeSection { flat: all[i].flat, biomes: fewer_biomes(all[i].biomes) },
                    ),
                    forall|i: int| out@.len() <= i < n ==> #[trigger] all[i] == sections@[n - 1 - i]@,
                    forall|i: int| 0 <= i < out@.len() ==> #[trigger] goal[i] == out@[i]@,
                decreases sections.len(),
            {
                let ghost k = out@.len() as int;
                assert(all[k] == sections@[n - 1 - k]@);
                match sections.pop() {
                    Some(s) => {
                        assert(s@ == all[k]);
                        let biomes = narrow_biomes(&s.biomes);
                        out.push(BiomeChunkSection { block_states: s.block_states, biomes });
                        assert(out@[k]@ == goal[k]);
                    },
                    None => {},
                }
            }
            assert(biome_views(out@) =~= goal);
            Ok(ChunkData::NewHeight(out))
        },
        _ => Err(RepackError::Expected { format: ChunkFormat::ModernBiomes }),
    }
}

/// Takes a chunk of a taller world to the form of a lower one, with four biomes for each. `None`
/// where a section has more than 64.
pub fn new_height_to_modern_biomes(chunk: ChunkData) -> (res: Option<Result<ChunkData, RepackError>>)
    ensures
        attempt_of(res) == low_form(chunk@),
{
    match chunk {
        ChunkData::NewHeight(sections) => {
            let ghost all = biome_views(sections@);
            let ghost goal = Seq::new(
                all.len(),
                |i: int| BiomeSection { flat: all[i].flat, biomes: more_biomes(all[i].biomes) },
            );
            let mut sections = reversed(sections);
            let mut out: Vec<BiomeChunkSection> = Vec::new();
            let ghost n = all.len();
            assert forall|i: int| 0 <= i < n implies #[trigger] all[i] == sections@[n - 1 - i]@ by {}
            while sections.len() > 0
                invariant
                    n == all.len(),
                    sections@.len() + out@.len() == n,
                    chunk@ == Chunk::NewHeight(all),
                    goal == Seq::new(
                        n,
                        |i: int| BiomeSection { flat: all[i].flat, biomes: more_biomes(all[i].biomes) },
                    ),
                    forall|i: int| out@.len() <= i < n ==> #[trigger] all[i] == sections@[n - 1 - i]@,
                    forall|i: int|
                        0 <= i < out@.len() ==> (#[trigger] all[i]).biomes.len() <= 64,
                    forall|i: int| 0 <= i < out@.len() ==> #[trigger] goal[i] == out@[i]@,
                decreases sections.len(),
            {
                let ghost k = out@.len() as int;
                assert(all[k] == sections@[n - 1 - k]@);
                match sections.pop() {
                    Some(s) => {
                        assert(s@ == all[k]);
                        if s.biomes.len() > 64 {
                            return None;
                        }
                        let biomes = widen_biomes(&s.biomes);
                        out.push(BiomeChunkSection { block_states: s.block_states, biomes });
                        assert(out@[k]@ == goal[k]);
                    },
                    None => {},
                }
            }
            assert(biome_views(out@) =~= goal);
            Some(Ok(ChunkData::ModernBiomes(out)))
        },
        _ => Some(Err(RepackError::Expected { format: ChunkFormat::NewHeight })),
    }
}

fn convert_chunk(chunk: ChunkData, from: ChunkFormat, to: ChunkFormat, t: &BlockStateConverter) -> (res:
    Option<Result<ChunkData, RepackError>>)
    requires
        whole_chunk(chunk@),
    ensures
        attempt_of(res) == converted_chunk(chunk@, from, to, t@),
{
    match (from, to) {
        (ChunkFormat::Legacy, ChunkFormat::Flattened) => legacy_to_flattened(chunk, t),
        (ChunkFormat::Flattened, ChunkFormat::Legacy) => flattened_to_legacy(chunk, t),
        (ChunkFormat::Flattened, ChunkFormat::ModernBiomes) => Some(flattened_to_modern_biomes(chunk)),
        (ChunkFormat::ModernBiomes, ChunkFormat::Flattened) => Some(modern_biomes_to_flattened(chunk)),
        (ChunkFormat::ModernBiomes, ChunkFormat::NewHeight) => Some(modern_biomes_to_new_height(chunk)),
        (ChunkFormat::NewHeight, ChunkFormat::ModernBiomes) => new_height_to_modern_biomes(chunk),
        (ChunkFormat::Legacy, ChunkFormat::ModernBiomes) => match legacy_to_flattened(chunk, t) {
            Some(Ok(f)) => Some(flattened_to_modern_biomes(f)),
            Some(Err(e)) => Some(Err(e)),
            None => None,
        },
        (ChunkFormat::ModernBiomes, ChunkFormat::Legacy) => match modern_biomes_to_flattened(chunk) {
            Ok(f) => flattened_to_legacy(f, t),
            Err(e) => Some(Err(e)),
        },
        _ => Some(Err(RepackError::Unsupported { from, to })),
    }
}

// Encoding.

/// A mask with its low `n` bits set.
pub open spec fn full_mask(n: nat) -> nat
    decreases n,
{
    if n == 0 {
        0
    } else {
        1 + 2 * full_mask((n - 1) as nat)
    }
}

/// A section from before 1.13 as bytes.
pub open spec fn legacy_section_bytes(s: LegacySection) -> Seq<u8> {
    s.blocks + s.metadata + s.block_light + s.sky_light
}

/// Sections from before 1.13 as bytes.
pub open spec fn legacy_bytes(v: Seq<LegacySection>) -> Seq<u8>
    decreases v.len(),
{
    if v.len() == 0 {
        seq![]
    } else {
        legacy_bytes(v.drop_last()) + legacy_section_bytes(v.last())
    }
}

/// A name of a palette as bytes. Its byte count keeps its low 16 bits.
pub open spec fn name_bytes(name: Seq<char>) -> Seq<u8> {
    le16(encode_utf8(name).len() as u16) + encode_utf8(name)
}

/// Names of a palette as bytes.
pub open spec fn names_bytes(v: Seq<Seq<char>>) -> Seq<u8>
    decreases v.len(),
{
    if v.len() == 0 {
        seq![]
    } else {
        names_bytes(v.drop_last()) + name_bytes(v.last())
    }
}

/// Words as bytes.
pub open spec fn words_bytes(v: Seq<u64>) -> Seq<u8>
    decreases v.len(),
{
    if v.len() == 0 {
        seq![]
    } else {
        words_bytes(v.drop_last()) + le64(v.last())
    }
}

/// Biomes as bytes.
pub open spec fn biomes_bytes(v: Seq<i32>) -> Seq<u8>
    decreases v.len(),
{
    if v.len() == 0 {
        seq![]
    } else {
        biomes_bytes(v.drop_last()) + le32(v.last() as u32)
    }
}

/// The palette and the words of a section as bytes.
pub open spec fn states_bytes(s: FlatSection) -> Seq<u8> {
    seq![palette_bits(s.palette.len()) as u8] + le16(s.palette.len() as u16) + names_bytes(s.palette)
        + le32((s.states.len() * 8) as u32) + words_bytes(s.states)
}

/// Sections of 1.13 or later as bytes.
pub open spec fn flat_bytes(v: Seq<FlatSection>) -> Seq<u8>
    decreases v.len(),
{
    if v.len() == 0 {
        seq![]
    } else {
        let s = v.last();
        flat_bytes(v.drop_last()) + (states_bytes(s) + s.block_light + s.sky_light)
    }
}

/// Sections of a taller world as bytes.
pub open spec fn tall_bytes(v: Seq<BiomeSection>) -> Seq<u8>
    decreases v.len(),
{
    if v.len() == 0 {
        seq![]
    } else {
        let s = v.last();
        tall_bytes(v.drop_last()) + (states_bytes(s.flat) + biomes_bytes(s.biomes) + s.flat.block_light
            + s.flat.sky_light)
    }
}

/// The sections of a chunk without their biomes.
pub open spec fn flat_parts(v: Seq<BiomeSection>) -> Seq<FlatSection> {
    Seq::new(v.len(), |i: int| v[i].flat)
}

/// A chunk of 1.13 as bytes. `None` where there are more sections than the mask has bits.
pub open spec fn encoded_flat(c: Chunk) -> Option<Result<Seq<u8>, RepackError>> {
    match c {
        Chunk::Flattened(v) => if v.len() > 16 {
            None
        } else {
            Some(Ok(le16(full_mask(v.len()) as u16) + flat_bytes(v)))
        },
        _ => Some(Err(RepackError::Expected { format: ChunkFormat::Flattened })),
    }
}

/// A chunk as bytes in the given format. `None` where there are more sections than the mask
/// has bits. A chunk that has biomes beside its palettes is written like one that has none.
pub open spec fn encoded_chunk(c: Chunk, format: ChunkFormat) -> Option<Result<Seq<u8>, RepackError>> {
    match format {
        ChunkFormat::Legacy => match c {
            Chunk::Legacy(v) => if v.len() > 16 {
                None
            } else {
                Some(Ok(le16(full_mask(v.len()) as u16) + legacy_bytes(v)))
            },
            _ => Some(Err(RepackError::Expected { format: ChunkFormat::Legacy })),
        },
        ChunkFormat::Flattened => encoded_flat(c),
        ChunkFormat::ModernBiomes => match c {
            Chunk::ModernBiomes(v) => if v.len() > 16 {
                None
            } else {
                Some(Ok(le16(full_mask(v.len()) as u16) + flat_bytes(flat_parts(v))))
            },
            _ => encoded_flat(c),
        },
        ChunkFormat::NewHeight => match c {
            Chunk::NewHeight(v) => if v.len() > 32 {
                None
            } else {
                Some(Ok(le32(full_mask(v.len()) as u32) + tall_bytes(v)))
            },
            _ => Some(Err(RepackError::Expected { format: ChunkFormat::NewHeight })),
        },
    }
}

fn mask_of(n: usize) -> (mask: u64)
    requires
        n <= 32,
    ensures
        mask == full_mask(n as nat),
        n <= 16 ==> mask <= 0xFFFF,
        mask <= 0xFFFF_FFFF,
{
    let mut mask: u64 = 0;
    let mut i: usize = 0;
    let ghost mut top: int = 1;
    proof {
        vstd::arithmetic::power2::lemma2_to64();
    }
    while i < n
        invariant
            i <= n <= 32,
            mask == full_mask(i as nat),
            mask < top,
            top == vstd::arithmetic::power2::pow2(i as nat),
            top <= 0x1_0000_0000,
        decreases n - i,
    {
        proof {
            vstd::arithmetic::power2::lemma_pow2_unfold((i + 1) as nat);
            if i + 1 < 32 {
                vstd::arithmetic::power2::lemma_pow2_strictly_increases((i + 1) as nat, 32);
            }
            vstd::arithmetic::power2::lemma2_to64();
            top = 2 * top;
        }
        mask = 1 + 2 * mask;
        i = i + 1;
    }
    proof {
        vstd::arithmetic::power2::lemma2_to64();
        if n < 16 {
            vstd::arithmetic::power2::lemma_pow2_strictly_increases(n as nat, 16);
        }
    }
    mask
}

fn put_names(out: &mut Writer, v: &Vec<String>)
    ensures
        final(out)@ == old(out)@ + names_bytes(texts(v@)),
{
    let ghost (head, all) = (out@, texts(v@));
    let mut i: usize = 0;
    assert(all.take(0) =~= Seq::<Seq<char>>::empty());
    assert(head + names_bytes(all.take(0)) =~= head);
    while i < v.len()
        invariant
            i <= v.len(),
            all == texts(v@),
            out@ == head + names_bytes(all.take(i as int)),
        decreases v.len() - i,
    {
        assert(all.take(i + 1).drop_last() =~= all.take(i as int));
        let bytes = v[i].as_str().as_bytes();
        out.u16_le(bytes.len() as u16);
        out.raw(bytes);
        i = i + 1;
        assert(out@ =~= head + names_bytes(all.take(i as int)));
    }
    assert(all.take(i as int) =~= all);
}

fn put_words(out: &mut Writer, v: &Vec<u64>)
    ensures
        final(out)@ == old(out)@ + words_bytes(v@),
{
    let ghost head = out@;
    let mut i: usize = 0;
    assert(v@.take(0) =~= Seq::<u64>::empty());
    assert(head + words_bytes(v@.take(0)) =~= head);
    while i < v.len()
        invariant
            i <= v.len(),
            out@ == head + words_bytes(v@.take(i as int)),
        decreases v.len() - i,
    {
        assert(v@.take(i + 1).drop_last() =~= v@.take(i as int));
        out.u64_le(v[i]);
        i = i + 1;
        assert(out@ =~= head + words_bytes(v@.take(i as int)));
    }
    assert(v@.take(i as int) =~= v@);
}

fn put_biomes(out: &mut Writer, v: &Vec<i32>)
    ensures
        final(out)@ == old(out)@ + biomes_bytes(v@),
{
    let ghost head = out@;
    let mut i: usize = 0;
    assert(v@.take(0) =~= Seq::<i32>::empty());
    assert(head + biomes_bytes(v@.take(0)) =~= head);
    while i < v.len()
        invariant
            i <= v.len(),
            out@ == head + biomes_bytes(v@.take(i as int)),
        decreases v.len() - i,
    {
        assert(v@.take(i + 1).drop_last() =~= v@.take(i as int));
        out.u32_le(v[i] as u32);
        i = i + 1;
        assert(out@ =~= head + biomes_bytes(v@.take(i as int)));
    }
    assert(v@.take(i as int) =~= v@);
}

fn put_states(out: &mut Writer, s: &FlattenedChunkSection)
    ensures
        final(out)@ == old(out)@ + states_bytes(s@),
{
    let ghost head = out@;
    out.u8(bits_per_block_for_palette(s.palette.len()) as u8);
    out.u16_le(s.palette.len() as u16);
    put_names(out, &s.palette);
    out.u32_le((s.block_states.len() as u128 * 8) as u32);
    put_words(out, &s.block_states);
    assert(out@ =~= head + states_bytes(s@));
}

fn encode_legacy_chunk(sections: &Vec<LegacyChunkSection>) -> (v: Vec<u8>)
    requires
        sections@.len() <= 16,
    ensures
        v@ == le16(full_mask(sections@.len()) as u16) + legacy_bytes(legacy_views(sections@)),
{
    broadcast use empty_then;

    let ghost all = legacy_views(sections@);
    let mut out = Writer::new();
    out.u16_le(mask_of(sections.len()) as u16);
    let ghost head = out@;
    let mut i: usize = 0;
    assert(all.take(0) =~= Seq::<LegacySection>::empty());
    assert(head + legacy_bytes(all.take(0)) =~= head);
    while i < sections.len()
        invariant
            i <= sections.len(),
            all == legacy_views(sections@),
            out@ == head + legacy_bytes(all.take(i as int)),
        decreases sections.len() - i,
    {
        assert(all.take(i + 1).drop_last() =~= all.take(i as int));
        let s = &sections[i];
        out.raw(s.blocks.as_slice());
        out.raw(s.metadata.as_slice());
        out.raw(s.block_light.as_slice());
        out.raw(s.sky_light.as_slice());
        i = i + 1;
        assert(out@ =~= head + legacy_bytes(all.take(i as int)));
    }
    assert(all.take(i as int) =~= all);
    bytes_to_vec(&out.freeze())
}

fn encode_flattened_chunk(sections: &Vec<FlattenedChunkSection>) -> (v: Vec<u8>)
    requires
        sections@.len() <= 16,
    ensures
        v@ == le16(full_mask(sections@.len()) as u16) + flat_bytes(flat_views(sections@)),
{
    broadcast use empty_then;

    let ghost all = flat_views(sections@);
    let mut out = Writer::new();
    out.u16_le(mask_of(sections.len()) as u16);
    let ghost head = out@;
    let mut i: usize = 0;
    assert(all.take(0) =~= Seq::<FlatSection>::empty());
    assert(head + flat_bytes(all.take(0)) =~= head);
    while i < sections.len()
        invariant
            i <= sections.len(),
            all == flat_views(sections@),
            out@ == head + flat_bytes(all.take(i as int)),
        decreases sections.len() - i,
    {
        assert(all.take(i + 1).drop_last() =~= all.take(i as int));
        let s = &sections[i];
        put_states(&mut out, s);
        out.raw(s.block_light.as_slice());
        out.raw(s.sky_light.as_slice());
        i = i + 1;
        assert(out@ =~= head + flat_bytes(all.take(i as int)));
    }
    assert(all.take(i as int) =~= all);
    bytes_to_vec(&out.freeze())
}

fn encode_modern_biome_chunk(sections: &Vec<BiomeChunkSection>) -> (v: Vec<u8>)
    requires
        sections@.len() <= 16,
    ensures
        v@ == le16(full_mask(sections@.len()) as u16) + flat_bytes(flat_parts(biome_views(sections@))),
{
    broadcast use empty_then;

    let ghost all = flat_parts(biome_views(sections@));
    let mut out = Writer::new();
    out.u16_le(mask_of(sections.len()) as u16);
    let ghost head = out@;
    let mut i: usize = 0;
    assert(all.take(0) =~= Seq::<FlatSection>::empty());
    assert(head + flat_bytes(all.take(0)) =~= head);
    while i < sections.len()
        invariant
            i <= sections.len(),
            all == flat_parts(biome_views(sections@)),
            out@ == head + flat_bytes(all.take(i as int)),
        decreases sections.len() - i,
    {
        assert(all.take(i + 1).drop_last() =~= all.take(i as int));
        let s = &sections[i].block_states;
        put_states(&mut out, s);
        out.raw(s.block_light.as_slice());
        out.raw(s.sky_light.as_slice());
        i = i + 1;
        assert(out@ =~= head + flat_bytes(all.take(i as int)));
    }
    assert(all.take(i as int) =~= all);
    bytes_to_vec(&out.freeze())
}

fn encode_new_height_chunk(sections: &Vec<BiomeChunkSection>) -> (v: Vec<u8>)
    requires
        sections@.len() <= 32,
    ensures
        v@ == le32(full_mask(sections@.len()) as u32) + tall_bytes(biome_views(sections@)),
{
    broadcast use empty_then;

    let ghost all = biome_views(sections@);
    let mut out = Writer::new();
    out.u32_le(mask_of(sections.len()) as u32);
    let ghost head = out@;
    let mut i: usize = 0;
    assert(all.take(0) =~= Seq::<BiomeSection>::empty());
    assert(head + tall_bytes(all.take(0)) =~= head);
    while i < sections.len()
        invariant
            i <= sections.len(),
            all == biome_views(sections@),
            out@ == head + tall_bytes(all.take(i as int)),
        decreases sections.len() - i,
    {
        assert(all.take(i + 1).drop_last() =~= all.take(i as int));
        let s = &sections[i];
        put_states(&mut out, &s.block_states);
        put_biomes(&mut out, &s.biomes);
        out.raw(s.block_states.block_light.as_slice());
        out.raw(s.block_states.sky_light.as_slice());
        i = i + 1;
        assert(out@ =~= head + tall_bytes(all.take(i as int)));
    }
    assert(all.take(i as int) =~= all);
    bytes_to_vec(&out.freeze())
}

/// What an attempt at bytes gives, with the bytes as a sequence.
pub open spec fn bytes_attempt(r: Option<Result<Vec<u8>, RepackError>>) -> Option<
    Result<Seq<u8>, RepackError>,
> {
    match r {
        Some(Ok(v)) => Some(Ok(v@)),
        Some(Err(e)) => Some(Err(e)),
        None => None,
    }
}

fn encode_flat(chunk: &ChunkData) -> (res: Option<Result<Vec<u8>, RepackError>>)
    ensures
        bytes_attempt(res) == encoded_flat(chunk@),
{
    match chunk {
        ChunkData::Flattened(v) => {
            if v.len() > 16 {
                None
            } else {
                Some(Ok(encode_flattened_chunk(v)))
            }
        },
        _ => Some(Err(RepackError::Expected { format: ChunkFormat::Flattened })),
    }
}

fn encode_chunk(chunk: &ChunkData, format: ChunkFormat) -> (res: Option<Result<Vec<u8>, RepackError>>)
    ensures
        bytes_attempt(res) == encoded_chunk(chunk@, format),
{
    match format {
        ChunkFormat::Legacy => match chunk {
            ChunkData::Legacy(v) => {
                if v.len() > 16 {
                    None
                } else {
                    Some(Ok(encode_legacy_chunk(v)))
                }
            },
            _ => Some(Err(RepackError::Expected { format: ChunkFormat::Legacy })),
        },
        ChunkFormat::Flattened => encode_flat(chunk),
        ChunkFormat::ModernBiomes => match chunk {
            ChunkData::ModernBiomes(v) => {
                if v.len() > 16 {
                    None
                } else {
                    Some(Ok(encode_modern_biome_chunk(v)))
                }
            },
            _ => encode_flat(chunk),
        },
        ChunkFormat::NewHeight => match chunk {
            ChunkData::NewHeight(v) => {
                if v.len() > 32 {
                    None
                } else {
                    Some(Ok(encode_new_height_chunk(v)))
                }
            },
            _ => Some(Err(RepackError::Expected { format: ChunkFormat::NewHeight })),
        },
    }
}

/// Chunk data of one release for another. `None` where the data ends in a count, has fewer
/// words than it announces, or has sections that the other format has no room for.
pub open spec fn repacked(
    b: Seq<u8>,
    from: ProtocolVersion,
    to: ProtocolVersion,
    t: BlockTable,
) -> Option<Result<Seq<u8>, RepackError>> {
    let (f, g) = (format_of(from.spec_epoch()), format_of(to.spec_epoch()));
    if f == g {
        Some(Ok(b))
    } else {
        match chunk_at(b, f) {
            Some(Ok(c)) => match converted_chunk(c, f, g, t) {
                Some(Ok(d)) => encoded_chunk(d, g),
                Some(Err(e)) => Some(Err(e)),
                None => None,
            },
            Some(Err(e)) => Some(Err(e)),
            None => None,
        }
    }
}

/// Repacks chunk data between the formats of the releases, by tables of blocks and biomes.
pub struct ChunkRepacker {
    block_converter: BlockStateConverter,
    biome_converter: BiomeConverter,
}

impl ChunkRepacker {
    /// The block table.
    pub closed spec fn blocks(&self) -> BlockStateConverter {
        self.block_converter
    }

    /// The biome table.
    pub closed spec fn biomes(&self) -> BiomeConverter {
        self.biome_converter
    }

    /// A repacker with tables without pairs, for which every block is air. The tables of the
    /// releases come in through `with_tables`.
    pub fn new() -> (r: Self)
        ensures
            r.blocks()@.pairs.len() == 0,
            r.blocks()@.unknown_name == "minecraft:air"@,
            r.blocks()@.unknown_id == 0,
            r.biomes().pairs@.len() == 0,
    {
        ChunkRepacker {
            block_converter: BlockStateConverter::new(),
            biome_converter: BiomeConverter::new(),
        }
    }

    /// A repacker with the given tables.
    pub fn with_tables(block_converter: BlockStateConverter, biome_converter: BiomeConverter) -> (r:
        Self)
        ensures
            r.blocks() == block_converter,
            r.biomes() == biome_converter,
    {
        ChunkRepacker { block_converter, biome_converter }
    }

    /// The biome table.
    pub fn biome_converter(&self) -> (t: &BiomeConverter)
        ensures
            *t == self.biomes(),
    {
        &self.biome_converter
    }

    /// The block table.
    pub fn block_converter(&self) -> (t: &BlockStateConverter)
        ensures
            *t == self.blocks(),
    {
        &self.block_converter
    }

    /// Whether chunk data of one release has to be repacked for another: exactly if their
    /// formats differ.
    pub fn needs_repack(from_version: ProtocolVersion, to_version: ProtocolVersion) -> (r: bool)
        ensures
            r == (format_of(from_version.spec_epoch()) != format_of(to_version.spec_epoch())),
    {
        chunk_format_for_version(from_version) != chunk_format_for_version(to_version)
    }

    /// Repacks chunk data, or gives `None` where it is too short for what it announces.
    pub fn try_repack(
        &self,
        chunk_data: &[u8],
        from_version: ProtocolVersion,
        to_version: ProtocolVersion,
    ) -> (res: Option<Result<Vec<u8>, RepackError>>)
        ensures
            bytes_attempt(res) == repacked(chunk_data@, from_version, to_version, self.blocks()@),
    {
        let from = chunk_format_for_version(from_version);
        let to = chunk_format_for_version(to_version);
        if from == to {
            return Some(Ok(slice_to_vec(chunk_data)));
        }
        let source = match parse_chunk(bytes_from_vec(slice_to_vec(chunk_data)), from) {
            Some(Ok(c)) => c,
            Some(Err(e)) => {
                return Some(Err(e));
            },
            None => {
                return None;
            },
        };
        match convert_chunk(source, from, to, &self.block_converter) {
            Some(Ok(target)) => encode_chunk(&target, to),
            Some(Err(e)) => Some(Err(e)),
            None => None,
        }
    }

    /// Repacks chunk data that holds what it announces.
    pub fn repack(
        &self,
        chunk_data: &[u8],
        from_version: ProtocolVersion,
        to_version: ProtocolVersion,
    ) -> (res: Result<Vec<u8>, RepackError>)
        requires
            repacked(chunk_data@, from_version, to_version, self.blocks()@) is Some,
        ensures
            bytes_attempt(Some(res)) == repacked(
                chunk_data@,
                from_version,
                to_version,
                self.blocks()@,
            ),
    {
        match self.try_repack(chunk_data, from_version, to_version) {
            Some(res) => res,
            None => Err(
                RepackError::Unsupported {
                    from: chunk_format_for_version(from_version),
                    to: chunk_format_for_version(to_version),
                },
            ),
        }
    }
}

impl Default for ChunkRepacker {
    /// A repacker with tables without pairs, as `new` makes it.
    fn default() -> (r: Self)
        ensures
            r.blocks()@.pairs.len() == 0,
            r.blocks()@.unknown_name == "minecraft:air"@,
            r.blocks()@.unknown_id == 0,
            r.biomes().pairs@.len() == 0,
    {
        ChunkRepacker::new()
    }
}

// Laws.

/// A chunk that has biomes beside its palettes is written like the same chunk without them.
pub proof fn biomes_are_left_out(v: Seq<BiomeSection>)
    ensures
        bare_form(Chunk::ModernBiomes(v)) matches Ok(bare) && encoded_chunk(
            Chunk::ModernBiomes(v),
            ChunkFormat::ModernBiomes,
        ) == encoded_chunk(bare, ChunkFormat::Flattened),
{
}

/// A chunk of 1.13 can be written for the releases that have biomes beside the palettes: it is
/// the same as for 1.13.
pub proof fn oceans_are_left_out(v: Seq<FlatSection>)
    ensures
        ocean_form(Chunk::Flattened(v)) matches Ok(c) && encoded_chunk(c, ChunkFormat::ModernBiomes)
            == encoded_chunk(Chunk::Flattened(v), ChunkFormat::Flattened),
{
    assert(flat_parts(with_oceans(v)) =~= v);
}

/// A chunk of a taller world whose sections have 64 biomes each comes back from the form of a
/// lower one. In between each of its biomes stands four times.
pub proof fn tall_chunk_survives(v: Seq<BiomeSection>)
    requires
        forall|i: int| 0 <= i < v.len() ==> (#[trigger] v[i]).biomes.len() == 64,
    ensures
        low_form(Chunk::NewHeight(v)) matches Some(Ok(low)) && tall_form(low) == Ok::<Chunk, RepackError>(
            Chunk::NewHeight(v),
        ),
        low_form(Chunk::NewHeight(v)) matches Some(Ok(Chunk::ModernBiomes(m))) && m.len() == v.len() && forall|
            i: int,
            k: int,
        |
            0 <= i < v.len() && 0 <= k < 256 ==> m[i].biomes.len() == 256 && #[trigger] m[i].biomes[k]
                == v[i].biomes[k / 4],
{
    let low = Seq::new(v.len(), |i: int| BiomeSection { flat: v[i].flat, biomes: more_biomes(v[i].biomes) });
    let tall = Seq::new(low.len(), |i: int| BiomeSection { flat: low[i].flat, biomes: fewer_biomes(low[i].biomes) });
    assert forall|i: int| 0 <= i < v.len() implies #[trigger] tall[i] == v[i] by {
        crate::converter::chunk_convert::biomes_survive(v[i].biomes);
    }
    assert(tall =~= v);
    assert(low_form(Chunk::NewHeight(v)) == Some(Ok::<Chunk, RepackError>(Chunk::ModernBiomes(low))));
}

/// Data of a release is left as it is for a release of the same format.
pub proof fn same_format_is_kept(b: Seq<u8>, from: ProtocolVersion, to: ProtocolVersion, t: BlockTable)
    requires
        format_of(from.spec_epoch()) == format_of(to.spec_epoch()),
    ensures
        repacked(b, from, to, t) == Some(Ok::<Seq<u8>, RepackError>(b)),
{
}

/// A chunk from before 1.13 that is taken to its newer form and back is the same chunk, where
/// the table leads each of its blocks back to itself.
pub proof fn chunk_survives(v: Seq<LegacySection>, t: BlockTable)
    requires
        whole_sections(v),
        newer_sections(v, t) is Some,
        forall|k: int, i: int|
            0 <= k < v.len() && 0 <= i < 4096 ==> crate::converter::chunk_section::legacy_block(
                t,
                crate::converter::chunk_section::flattened_name(
                    t,
                    #[trigger] crate::converter::chunk_convert::block_at(v[k], i),
                ),
            ) == crate::converter::chunk_convert::block_at(v[k], i),
    ensures
        legacy_form(Chunk::Flattened(newer_sections(v, t)->0), t) == Some(
            Ok::<Chunk, RepackError>(Chunk::Legacy(v)),
        ),
{
    let f = newer_sections(v, t)->0;
    assert forall|i: int| 0 <= i < v.len() implies older_section(#[trigger] f[i], t) == Some(v[i]) by {
        assert(newer_section(v[i], t) is Some);
        crate::converter::chunk_convert::section_survives(v[i], t);
    }
    assert(older_sections(f, t) is Some);
    assert(older_sections(f, t)->0 =~= v);
}

/// A chunk from before 1.13 that is written parses back as it was.
pub proof fn legacy_parses_back(v: Seq<LegacySection>)
    requires
        v.len() <= 16,
        whole_sections(v),
    ensures
        encoded_chunk(Chunk::Legacy(v), ChunkFormat::Legacy) matches Some(Ok(b)) && chunk_at(
            b,
            ChunkFormat::Legacy,
        ) == Some(Ok::<Chunk, RepackError>(Chunk::Legacy(v))),
{
    let mask = full_mask(v.len());
    let b = le16(mask as u16) + legacy_bytes(v);
    mask_bound(v.len());
    assert(b =~= Seq::<u8>::empty() + le16(mask as u16) + legacy_bytes(v));
    le16_round_trip(mask as u16, Seq::empty(), legacy_bytes(v));
    assert(v.skip(0) =~= v);
    legacy_bytes_len(v);
    assert(b.skip(2) =~= legacy_bytes(v));
    sections_parse_back(b, v, 0, 16);
}

proof fn mask_bound(n: nat)
    requires
        n <= 16,
    ensures
        full_mask(n) <= 0xFFFF,
{
    reveal_with_fuel(full_mask, 17);
}

proof fn legacy_bytes_len(v: Seq<LegacySection>)
    requires
        whole_sections(v),
    ensures
        legacy_bytes(v).len() == 10240 * v.len(),
    decreases v.len(),
{
    if v.len() > 0 {
        let init = v.drop_last();
        assert forall|i: int| 0 <= i < init.len() implies whole_section(#[trigger] init[i]) by {
            assert(init[i] == v[i]);
        }
        legacy_bytes_len(init);
        assert(whole_section(v[v.len() - 1]));
    }
}

/// Section `k` stands in its place among the bytes of all.
proof fn section_place(v: Seq<LegacySection>, k: int)
    requires
        whole_sections(v),
        0 <= k < v.len(),
    ensures
        legacy_bytes(v).len() == 10240 * v.len(),
        legacy_bytes(v).subrange(10240 * k, 10240 * k + 10240) == legacy_section_bytes(v[k]),
    decreases v.len(),
{
    legacy_bytes_len(v);
    let init = v.drop_last();
    assert forall|i: int| 0 <= i < init.len() implies whole_section(#[trigger] init[i]) by {
        assert(init[i] == v[i]);
    }
    legacy_bytes_len(init);
    assert(whole_section(v[v.len() - 1]));
    if k < init.len() {
        section_place(init, k);
        assert(legacy_bytes(v).subrange(10240 * k, 10240 * k + 10240) =~= legacy_bytes(init).subrange(
            10240 * k,
            10240 * k + 10240,
        ));
    } else {
        assert(legacy_bytes(v).subrange(10240 * k, 10240 * k + 10240) =~= legacy_section_bytes(v[k]));
    }
}

proof fn sections_parse_back(b: Seq<u8>, v: Seq<LegacySection>, k: int, left: nat)
    requires
        whole_sections(v),
        b.len() == 2 + 10240 * v.len(),
        b.skip(2) == legacy_bytes(v),
        0 <= k <= v.len(),
        v.len() - k <= left,
    ensures
        legacy_from(b, 2 + 10240 * k, full_mask((v.len() - k) as nat), left) == Some(
            Ok::<Seq<LegacySection>, RepackError>(v.skip(k)),
        ),
    decreases left,
{
    if left == 0 {
        assert(v.skip(k) =~= seq![]);
    } else if k == v.len() {
        sections_parse_back(b, v, k, (left - 1) as nat);
        assert(v.skip(k) =~= seq![]);
    } else {
        let m = full_mask((v.len() - k) as nat);
        assert(m % 2 == 1 && m / 2 == full_mask((v.len() - k - 1) as nat));
        section_place(v, k);
        let p = 2 + 10240 * k;
        assert(whole_section(v[k]));
        let own = b.subrange(p, p + 10240);
        assert(own =~= b.skip(2).subrange(10240 * k, 10240 * k + 10240));
        assert(own == legacy_section_bytes(v[k]));
        assert(b.subrange(p, p + 4096) =~= own.subrange(0, 4096));
        assert(own.subrange(0, 4096) =~= v[k].blocks);
        assert(b.subrange(p + 4096, p + 6144) =~= own.subrange(4096, 6144));
        assert(own.subrange(4096, 6144) =~= v[k].metadata);
        assert(b.subrange(p + 6144, p + 8192) =~= own.subrange(6144, 8192));
        assert(own.subrange(6144, 8192) =~= v[k].block_light);
        assert(b.subrange(p + 8192, p + 10240) =~= own.subrange(8192, 10240));
        assert(own.subrange(8192, 10240) =~= v[k].sky_light);
        sections_parse_back(b, v, k + 1, (left - 1) as nat);
        assert(seq![v[k]] + v.skip(k + 1) =~= v.skip(k));
    }
}

} // verus!
