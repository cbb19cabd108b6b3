//! How chunk data lies in its bytes, and what becomes of it between the formats.

use crate::converter::chunk_convert::{newer_section, older_section};
use crate::converter::chunk_repack::{
    biomes_bytes, chunk_at, converted_chunk, encoded_chunk, flat_bytes, flat_from, flat_parts, flat_section_at,
    format_of, full_mask,
    legacy_bytes, legacy_chunk, legacy_from, names_bytes, names_from, newer_sections,
    older_sections, repacked, tall_bytes, tall_section_at, whole_sections, with_oceans, words_bytes, Chunk, ChunkFormat, RepackError,
};
use crate::converter::chunk_section::{
    palette_bits, whole_section, BiomeSection, BlockTable, FlatSection, LegacySection,
};
use crate::version::ProtocolVersion;
use crate::wire::{le16_at, le32_at, le64_at};
use vstd::arithmetic::power2::{lemma2_to64, lemma_pow2_unfold, pow2};
use vstd::prelude::*;
use vstd::utf8::{decode_utf8, encode_utf8};

verus! {

/// The formats by release.
pub proof fn formats_by_release()
    ensures
        format_of(ProtocolVersion::V1_6_4.spec_epoch()) == ChunkFormat::Legacy,
        format_of(ProtocolVersion::V1_7_10.spec_epoch()) == ChunkFormat::Legacy,
        format_of(ProtocolVersion::V1_8.spec_epoch()) == ChunkFormat::Legacy,
        format_of(ProtocolVersion::V1_12_2.spec_epoch()) == ChunkFormat::Legacy,
        format_of(ProtocolVersion::V1_13_2.spec_epoch()) == ChunkFormat::Flattened,
        format_of(ProtocolVersion::V1_16_5.spec_epoch()) == ChunkFormat::ModernBiomes,
        format_of(ProtocolVersion::V1_19_4.spec_epoch()) == ChunkFormat::NewHeight,
        format_of(ProtocolVersion::V1_20_4.spec_epoch()) == ChunkFormat::NewHeight,
        format_of(ProtocolVersion::V1_21.spec_epoch()) == ChunkFormat::NewHeight,
{
}

/// How many of the low `left` bits of a mask are set.
pub open spec fn ones(mask: nat, left: nat) -> nat
    decreases left,
{
    if left == 0 {
        0
    } else {
        mask % 2 + ones(mask / 2, (left - 1) as nat)
    }
}

/// Whether a section from before 1.13 stands at `p`: the ids of its 4096 blocks, then their
/// metadata, then the light of blocks, then that of the sky.
pub open spec fn stands_at(b: Seq<u8>, p: int, s: LegacySection) -> bool {
    &&& s.blocks == b.subrange(p, p + 4096)
    &&& s.metadata == b.subrange(p + 4096, p + 6144)
    &&& s.block_light == b.subrange(p + 6144, p + 8192)
    &&& s.sky_light == b.subrange(p + 8192, p + 10240)
}

/// Sections in a row, one for each bit of the mask.
#[verifier::rlimit(60)]
proof fn sections_in_turn(b: Seq<u8>, p: int, mask: nat, left: nat)
    requires
        0 <= p,
    ensures
        legacy_from(b, p, mask, left) is Some,
        legacy_from(b, p, mask, left)->0 is Ok <==> p + 10240 * ones(mask, left) <= b.len() || ones(mask, left) == 0,
        legacy_from(b, p, mask, left) matches Some(Ok(v)) ==> v.len() == ones(mask, left) && forall|i: int|
            #![trigger v[i]]
            0 <= i < v.len() ==> stands_at(b, p + 10240 * i, v[i]),
    decreases left,
{
    if left > 0 {
        let less = (left - 1) as nat;
        if mask % 2 == 0 {
            sections_in_turn(b, p, mask / 2, less);
        } else {
            sections_in_turn(b, p + 10240, mask / 2, less);
            if p + 10240 <= b.len() {
                match legacy_from(b, p + 10240, mask / 2, less) {
                    Some(Ok(rest)) => {
                        let v = legacy_from(b, p, mask, left)->0->Ok_0;
                        assert forall|i: int| #![trigger v[i]] 0 <= i < v.len() implies stands_at(b, p + 10240 * i, v[i]) by {
                            if i > 0 {
                                assert(v[i] == rest[i - 1]);
                                assert(stands_at(b, p + 10240 + 10240 * (i - 1), rest[i - 1]));
                            }
                        }
                    },
                    _ => {},
                }
            }
        }
    }
}

/// A chunk from before 1.13 has a section for each bit of its mask, two bytes of which the
/// first is the lower one. The sections stand in a row behind it. Data that is too short for
/// them does not read.
pub proof fn legacy_chunk_layout(b: Seq<u8>)
    requires
        b.len() >= 2,
    ensures
        ({
            let n = ones((b[0] + 256 * b[1]) as nat, 16);
            &&& chunk_at(b, ChunkFormat::Legacy) is Some
            &&& (chunk_at(b, ChunkFormat::Legacy)->0 is Ok) == (2 + 10240 * n <= b.len())
            &&& chunk_at(b, ChunkFormat::Legacy) matches Some(Ok(c)) ==> {
                let v = c->Legacy_0;
                &&& c is Legacy
                &&& v.len() == n
                &&& forall|i: int| #![trigger v[i]] 0 <= i < n ==> stands_at(b, 2 + 10240 * i, v[i])
            }
        }),
{
    sections_in_turn(b, 2, le16_at(b, 0) as nat, 16);
}

/// A mask has as many bits as there are sections, the lowest ones.
pub proof fn masks_count_sections(n: nat)
    ensures
        full_mask(n) + 1 == pow2(n),
    decreases n,
{
    lemma2_to64();
    if n > 0 {
        masks_count_sections((n - 1) as nat);
        lemma_pow2_unfold(n);
    }
}

/// Sections that are written in a row stand in it.
#[verifier::rlimit(60)]
proof fn legacy_row(v: Seq<LegacySection>, i: int)
    requires
        whole_sections(v),
        0 <= i < v.len(),
    ensures
        legacy_bytes(v).len() == 10240 * v.len(),
        stands_at(legacy_bytes(v), 10240 * i, v[i]),
    decreases v.len(),
{
    let less = v.drop_last();
    let s = v.last();
    assert(whole_section(v[v.len() - 1]));
    assert forall|k: int| 0 <= k < less.len() implies whole_section(#[trigger] less[k]) by {
        assert(less[k] == v[k]);
    }
    let all = legacy_bytes(v);
    let had = legacy_bytes(less);
    if less.len() > 0 {
        legacy_row(less, 0);
    }
    assert(had.len() == 10240 * less.len());
    if i < less.len() {
        legacy_row(less, i);
        let p = 10240 * i;
        assert(all.subrange(p, p + 4096) =~= had.subrange(p, p + 4096));
        assert(all.subrange(p + 4096, p + 6144) =~= had.subrange(p + 4096, p + 6144));
        assert(all.subrange(p + 6144, p + 8192) =~= had.subrange(p + 6144, p + 8192));
        assert(all.subrange(p + 8192, p + 10240) =~= had.subrange(p + 8192, p + 10240));
    } else {
        let p = 10240 * i;
        assert(all.subrange(p, p + 4096) =~= s.blocks);
        assert(all.subrange(p + 4096, p + 6144) =~= s.metadata);
        assert(all.subrange(p + 6144, p + 8192) =~= s.block_light);
        assert(all.subrange(p + 8192, p + 10240) =~= s.sky_light);
    }
}

/// A chunk from before 1.13 is written as its mask, the lower byte first, and its sections in a
/// row.
#[verifier::rlimit(60)]
pub proof fn legacy_chunk_bytes(v: Seq<LegacySection>, i: int)
    requires
        whole_sections(v),
        0 <= i < v.len(),
        v.len() <= 16,
    ensures
        encoded_chunk(Chunk::Legacy(v), ChunkFormat::Legacy) matches Some(Ok(b)) && b.len() == 2 + 10240 * v.len()
            && b[0] + 256 * b[1] + 1 == pow2(v.len()) && stands_at(b, 2 + 10240 * i, v[i]),
{
    masks_count_sections(v.len());
    lemma2_to64();
    if v.len() < 16 {
        vstd::arithmetic::power2::lemma_pow2_strictly_increases(v.len(), 16);
    }
    legacy_row(v, i);
    let b = encoded_chunk(Chunk::Legacy(v), ChunkFormat::Legacy)->0->Ok_0;
    let row = legacy_bytes(v);
    let p = 10240 * i;
    assert(p + 10240 <= row.len());
    assert(b.subrange(2 + p, 2 + p + 4096) =~= row.subrange(p, p + 4096));
    assert(b.subrange(2 + p + 4096, 2 + p + 6144) =~= row.subrange(p + 4096, p + 6144));
    assert(b.subrange(2 + p + 6144, 2 + p + 8192) =~= row.subrange(p + 6144, p + 8192));
    assert(b.subrange(2 + p + 8192, 2 + p + 10240) =~= row.subrange(p + 8192, p + 10240));
}

/// More than sixteen sections do not fit the mask.
pub proof fn sixteen_sections_at_most(v: Seq<LegacySection>, f: Seq<FlatSection>)
    ensures
        v.len() > 16 ==> encoded_chunk(Chunk::Legacy(v), ChunkFormat::Legacy) is None,
        f.len() > 16 ==> encoded_chunk(Chunk::Flattened(f), ChunkFormat::Flattened) is None,
{
}

/// A number of 16 bits, the lower byte first.
pub open spec fn low_first(n: nat) -> Seq<u8> {
    seq![(n % 256) as u8, (n / 256 % 256) as u8]
}

/// A section of 1.13 or later is written as the width of its indices, the count of its names,
/// the names, each behind its byte count, the byte count of its words, the words, the light of
/// blocks and that of the sky.
#[verifier::rlimit(60)]
pub proof fn flat_sections_in_turn(v: Seq<FlatSection>, s: FlatSection)
    requires
        s.palette.len() <= 0xFFFF,
        s.states.len() < 0x1000_0000,
    ensures
        flat_bytes(v.push(s)) == flat_bytes(v) + (seq![palette_bits(s.palette.len()) as u8] + low_first(
            s.palette.len(),
        ) + names_bytes(s.palette) + (low_first(8 * s.states.len()) + low_first(8 * s.states.len() / 0x1_0000))
            + words_bytes(s.states) + s.block_light + s.sky_light),
        flat_bytes(Seq::empty()) == Seq::<u8>::empty(),
{
    assert(v.push(s).drop_last() =~= v);
    let n: nat = 8 * s.states.len();
    assert(crate::wire::le16(s.palette.len() as u16) =~= low_first(s.palette.len()));
    assert(crate::wire::le32((s.states.len() * 8) as u32) =~= low_first(n) + low_first(n / 0x1_0000));
    assert(flat_bytes(v.push(s)) =~= flat_bytes(v) + (seq![palette_bits(s.palette.len()) as u8] + low_first(
        s.palette.len(),
    ) + names_bytes(s.palette) + (low_first(8 * s.states.len()) + low_first(8 * s.states.len() / 0x1_0000))
        + words_bytes(s.states) + s.block_light + s.sky_light));
}

/// A section of a taller world has its biomes between the words and the lights.
#[verifier::rlimit(60)]
pub proof fn tall_sections_in_turn(v: Seq<BiomeSection>, s: BiomeSection)
    requires
        s.flat.palette.len() <= 0xFFFF,
        s.flat.states.len() < 0x1000_0000,
    ensures
        tall_bytes(v.push(s)) == tall_bytes(v) + (seq![palette_bits(s.flat.palette.len()) as u8] + low_first(
            s.flat.palette.len(),
        ) + names_bytes(s.flat.palette) + (low_first(8 * s.flat.states.len()) + low_first(
            8 * s.flat.states.len() / 0x1_0000,
        )) + words_bytes(s.flat.states) + biomes_bytes(s.biomes) + s.flat.block_light + s.flat.sky_light),
        tall_bytes(Seq::empty()) == Seq::<u8>::empty(),
{
    assert(v.push(s).drop_last() =~= v);
    let n: nat = 8 * s.flat.states.len();
    assert(crate::wire::le16(s.flat.palette.len() as u16) =~= low_first(s.flat.palette.len()));
    assert(crate::wire::le32((s.flat.states.len() * 8) as u32) =~= low_first(n) + low_first(n / 0x1_0000));
    assert(tall_bytes(v.push(s)) =~= tall_bytes(v) + (seq![palette_bits(s.flat.palette.len()) as u8] + low_first(
        s.flat.palette.len(),
    ) + names_bytes(s.flat.palette) + (low_first(8 * s.flat.states.len()) + low_first(
        8 * s.flat.states.len() / 0x1_0000,
    )) + words_bytes(s.flat.states) + biomes_bytes(s.biomes) + s.flat.block_light + s.flat.sky_light));
}

/// Names stand behind their byte counts.
pub proof fn names_in_turn(names: Seq<Seq<char>>, name: Seq<char>)
    requires
        encode_utf8(name).len() <= 0xFFFF,
    ensures
        names_bytes(names.push(name)) == names_bytes(names) + (low_first(encode_utf8(name).len())
            + encode_utf8(name)),
        names_bytes(Seq::empty()) == Seq::<u8>::empty(),
{
    assert(names.push(name).drop_last() =~= names);
    assert(crate::wire::le16(encode_utf8(name).len() as u16) =~= low_first(encode_utf8(name).len()));
}

/// The lowest byte of 32 bits stands first.
proof fn lowest_byte_first(x: u32)
    ensures
        crate::wire::le32(x) == low_first(x as nat) + low_first(x as nat / 0x1_0000),
{
    assert(crate::wire::le32(x) =~= low_first(x as nat) + low_first(x as nat / 0x1_0000));
}

/// Words have their lowest byte first.
pub proof fn words_in_turn(words: Seq<u64>, lo: u32, hi: u32)
    ensures
        words_bytes(words.push((lo + 0x1_0000_0000 * hi) as u64)) == words_bytes(words) + (low_first(lo as nat)
            + low_first(lo as nat / 0x1_0000) + (low_first(hi as nat) + low_first(hi as nat / 0x1_0000))),
        words_bytes(Seq::empty()) == Seq::<u8>::empty(),
{
    let w = (lo + 0x1_0000_0000 * hi) as u64;
    assert(words.push(w).drop_last() =~= words);
    lowest_byte_first(lo);
    lowest_byte_first(hi);
    assert(w % 0x1_0000_0000 == lo && w / 0x1_0000_0000 == hi);
}

/// Biomes have their lowest byte first.
pub proof fn biomes_in_turn(biomes: Seq<i32>, m: i32)
    requires
        0 <= m,
    ensures
        biomes_bytes(biomes.push(m)) == biomes_bytes(biomes) + (low_first(m as nat) + low_first(
            m as nat / 0x1_0000,
        )),
        biomes_bytes(Seq::empty()) == Seq::<u8>::empty(),
{
    assert(biomes.push(m).drop_last() =~= biomes);
    lowest_byte_first(m as u32);
}

/// The lower byte of 16 bits stands first.
proof fn lower_byte_first(x: u16)
    ensures
        crate::wire::le16(x) == low_first(x as nat),
{
    assert(crate::wire::le16(x) =~= low_first(x as nat));
}

/// A mask of up to sixteen sections as a number.
proof fn mask_of(n: nat)
    requires
        n <= 24,
    ensures
        full_mask(n) == pow2(n) - 1,
        n <= 16 ==> full_mask(n) <= 0xFFFF,
        full_mask(n) <= 0xFF_FFFF,
{
    masks_count_sections(n);
    lemma2_to64();
    if n < 24 {
        vstd::arithmetic::power2::lemma_pow2_strictly_increases(n, 24);
    }
    if n < 16 {
        vstd::arithmetic::power2::lemma_pow2_strictly_increases(n, 16);
    }
}

/// The mask stands before the sections of 1.13, two bytes of it.
pub proof fn masks_stand_first(v: Seq<FlatSection>)
    requires
        v.len() <= 16,
    ensures
        encoded_chunk(Chunk::Flattened(v), ChunkFormat::Flattened) == Some(
            Ok::<Seq<u8>, RepackError>(low_first((pow2(v.len()) - 1) as nat) + flat_bytes(v)),
        ),
{
    mask_of(v.len());
    lower_byte_first(full_mask(v.len()) as u16);
}

/// The mask stands before the sections of 1.16, two bytes of it, and their biomes are left out.
pub proof fn masks_stand_first_in_1_16(v: Seq<BiomeSection>)
    requires
        v.len() <= 16,
    ensures
        encoded_chunk(Chunk::ModernBiomes(v), ChunkFormat::ModernBiomes) == Some(
            Ok::<Seq<u8>, RepackError>(low_first((pow2(v.len()) - 1) as nat) + flat_bytes(flat_parts(v))),
        ),
{
    mask_of(v.len());
    lower_byte_first(full_mask(v.len()) as u16);
}

/// The mask stands before the sections of a taller world, four bytes of it.
pub proof fn masks_stand_first_in_tall_worlds(v: Seq<BiomeSection>)
    requires
        v.len() <= 24,
    ensures
        encoded_chunk(Chunk::NewHeight(v), ChunkFormat::NewHeight) == Some(
            Ok::<Seq<u8>, RepackError>(
                low_first((pow2(v.len()) - 1) as nat) + low_first(((pow2(v.len()) - 1) as nat) / 0x1_0000)
                    + tall_bytes(v),
            ),
        ),
{
    mask_of(v.len());
    lowest_byte_first(full_mask(v.len()) as u32);
}

/// A section of 1.13 or later starts with the width of its indices and the count of its names.
/// Behind the names stands the byte count of its words, behind that the words, the light of
/// blocks and that of the sky.
pub proof fn flat_section_layout(b: Seq<u8>, p: int, s: FlatSection, q: int)
    requires
        flat_section_at(b, p) == Some(Ok::<(FlatSection, int), RepackError>((s, q))),
    ensures
        s.states.len() == 64 * b[p],
        s.block_light == b.subrange(q - 4096, q - 2048),
        s.sky_light == b.subrange(q - 2048, q),
        exists|e: int| #[trigger]
            names_from(b, p + 3, (b[p + 1] + 256 * b[p + 2]) as nat) == Some(
                Ok::<(Seq<Seq<char>>, int), RepackError>((s.palette, e)),
            ) && q == e + 4 + le32_at(b, e) + 4096 && forall|i: int|
                0 <= i < 64 * b[p] ==> #[trigger] s.states[i] == le64_at(b, e + 4 + 8 * i),
{
    let e = names_from(b, p + 3, le16_at(b, p + 1) as nat)->0->Ok_0.1;
    assert(names_from(b, p + 3, (b[p + 1] + 256 * b[p + 2]) as nat) == Some(
        Ok::<(Seq<Seq<char>>, int), RepackError>((s.palette, e)),
    ));
}

/// A section of a taller world has 64 biomes between its words and its lights.
pub proof fn tall_section_layout(b: Seq<u8>, p: int, s: BiomeSection, q: int, k: int)
    requires
        tall_section_at(b, p) == Some(Ok::<(BiomeSection, int), RepackError>((s, q))),
        0 <= k < 64,
    ensures
        s.flat.states.len() == 64 * b[p],
        s.flat.block_light == b.subrange(q - 4096, q - 2048),
        s.flat.sky_light == b.subrange(q - 2048, q),
        s.biomes.len() == 64,
        s.biomes[k] == le32_at(b, q - 4352 + 4 * k) as i32,
{
}

/// The names of a palette stand in a row, each behind its byte count.
pub proof fn names_layout(b: Seq<u8>, p: int, n: nat, names: Seq<Seq<char>>, end: int)
    requires
        n > 0,
        names_from(b, p, n) == Some(Ok::<(Seq<Seq<char>>, int), RepackError>((names, end))),
    ensures
        ({
            let q = p + 2 + b[p] + 256 * b[p + 1];
            &&& q <= b.len()
            &&& names.len() == n
            &&& names[0] == decode_utf8(b.subrange(p + 2, q))
            &&& names_from(b, q, (n - 1) as nat) == Some(
                Ok::<(Seq<Seq<char>>, int), RepackError>((names.skip(1), end)),
            )
        }),
    decreases n,
{
    let q = p + 2 + le16_at(b, p);
    let (rest, e) = names_from(b, q, (n - 1) as nat)->0->Ok_0;
    assert(names.skip(1) =~= rest);
    if n > 1 {
        names_layout(b, q, (n - 1) as nat, rest, e);
    }
}

/// A chunk of 1.13 has a section for each bit of its mask, and the first of them stands behind
/// the mask.
pub proof fn flat_chunk_layout(b: Seq<u8>, v: Seq<FlatSection>)
    requires
        b.len() >= 2,
        chunk_at(b, ChunkFormat::Flattened) == Some(Ok::<Chunk, RepackError>(Chunk::Flattened(v))),
    ensures
        v.len() == ones((b[0] + 256 * b[1]) as nat, 16),
        b[0] % 2 == 1 ==> (flat_section_at(b, 2) matches Some(Ok((s, q))) && v[0] == s),
{
    flat_sections_counted(b, 2, le16_at(b, 0) as nat, 16);
    assert((b[0] + 256 * b[1]) % 2 == b[0] % 2);
}

/// One section is read for each bit of the mask.
proof fn flat_sections_counted(b: Seq<u8>, p: int, mask: nat, left: nat)
    ensures
        flat_from(b, p, mask, left) matches Some(Ok(v)) ==> v.len() == ones(mask, left),
    decreases left,
{
    if left > 0 {
        if mask % 2 == 0 {
            flat_sections_counted(b, p, mask / 2, (left - 1) as nat);
        } else {
            match flat_section_at(b, p) {
                Some(Ok((s, q))) => {
                    flat_sections_counted(b, q, mask / 2, (left - 1) as nat);
                },
                _ => {},
            }
        }
    }
}

/// What becomes of a chunk between the formats, section by section: blocks get their names or
/// their ids, biomes are all ocean where there were none, and one in four stays for a taller
/// world. Between chunks from before 1.16 and those of taller worlds there is no way.
#[verifier::rlimit(60)]
pub proof fn formats_between(
    v: Seq<LegacySection>,
    f: Seq<FlatSection>,
    m: Seq<BiomeSection>,
    t: BlockTable,
    i: int,
    any: Chunk,
)
    ensures
        newer_sections(v, t) is Some && 0 <= i < v.len() ==> {
            &&& converted_chunk(Chunk::Legacy(v), ChunkFormat::Legacy, ChunkFormat::Flattened, t) matches Some(
                Ok(Chunk::Flattened(w)),
            ) && w.len() == v.len() && Some(w[i]) == newer_section(v[i], t)
            &&& converted_chunk(Chunk::Legacy(v), ChunkFormat::Legacy, ChunkFormat::ModernBiomes, t) matches Some(
                Ok(Chunk::ModernBiomes(w)),
            ) && w.len() == v.len() && Some(w[i].flat) == newer_section(v[i], t) && w[i].biomes.len() == 256
        },
        older_sections(f, t) is Some && 0 <= i < f.len() ==> (converted_chunk(
            Chunk::Flattened(f),
            ChunkFormat::Flattened,
            ChunkFormat::Legacy,
            t,
        ) matches Some(Ok(Chunk::Legacy(w))) && w.len() == f.len() && Some(w[i]) == older_section(f[i], t)),
        0 <= i < m.len() && older_sections(flat_parts(m), t) is Some ==> (converted_chunk(
            Chunk::ModernBiomes(m),
            ChunkFormat::ModernBiomes,
            ChunkFormat::Legacy,
            t,
        ) matches Some(Ok(Chunk::Legacy(w))) && w.len() == m.len() && Some(w[i]) == older_section(m[i].flat, t)),
        0 <= i < m.len() ==> (converted_chunk(
            Chunk::ModernBiomes(m),
            ChunkFormat::ModernBiomes,
            ChunkFormat::Flattened,
            t,
        ) matches Some(Ok(Chunk::Flattened(w))) && w.len() == m.len() && w[i] == m[i].flat),
        0 <= i < f.len() ==> (converted_chunk(
            Chunk::Flattened(f),
            ChunkFormat::Flattened,
            ChunkFormat::ModernBiomes,
            t,
        ) matches Some(Ok(Chunk::ModernBiomes(w))) && w.len() == f.len() && w[i].flat == f[i] && w[i].biomes
            == Seq::new(256, |k: int| 0i32)),
        converted_chunk(any, ChunkFormat::Legacy, ChunkFormat::NewHeight, t) == Some(
            Err::<Chunk, RepackError>(
                RepackError::Unsupported { from: ChunkFormat::Legacy, to: ChunkFormat::NewHeight },
            ),
        ),
        converted_chunk(any, ChunkFormat::NewHeight, ChunkFormat::Legacy, t) == Some(
            Err::<Chunk, RepackError>(
                RepackError::Unsupported { from: ChunkFormat::NewHeight, to: ChunkFormat::Legacy },
            ),
        ),
        converted_chunk(any, ChunkFormat::Flattened, ChunkFormat::NewHeight, t) == Some(
            Err::<Chunk, RepackError>(
                RepackError::Unsupported { from: ChunkFormat::Flattened, to: ChunkFormat::NewHeight },
            ),
        ),
        converted_chunk(any, ChunkFormat::NewHeight, ChunkFormat::Flattened, t) == Some(
            Err::<Chunk, RepackError>(
                RepackError::Unsupported { from: ChunkFormat::NewHeight, to: ChunkFormat::Flattened },
            ),
        ),
{
}

/// A chunk from before 1.13 is repacked for 1.13 as its sections' newer forms, in order, behind
/// their mask.
pub proof fn legacy_for_1_13(b: Seq<u8>, v: Seq<LegacySection>, w: Seq<FlatSection>, t: BlockTable)
    requires
        legacy_chunk(b) == Some(Ok::<Seq<LegacySection>, RepackError>(v)),
        newer_sections(v, t) == Some(w),
        w.len() <= 16,
    ensures
        repacked(b, ProtocolVersion::V1_12_2, ProtocolVersion::V1_13_2, t) == Some(
            Ok::<Seq<u8>, RepackError>(low_first((pow2(w.len()) - 1) as nat) + flat_bytes(w)),
        ),
        repacked(b, ProtocolVersion::V1_12_2, ProtocolVersion::V1_16_5, t) == Some(
            Ok::<Seq<u8>, RepackError>(low_first((pow2(w.len()) - 1) as nat) + flat_bytes(w)),
        ),
{
    masks_stand_first(w);
    masks_stand_first_in_1_16(with_oceans(w));
    assert(flat_parts(with_oceans(w)) =~= w);
}

/// A section that is cut off says in which of its parts.
pub proof fn cut_off_sections(b: Seq<u8>)
    requires
        b.len() >= 2,
        b[0] % 2 == 1,
    ensures
        b.len() < 4098 ==> chunk_at(b, ChunkFormat::Legacy) == Some(Err::<Chunk, RepackError>(RepackError::BlockIds)),
        4098 <= b.len() < 6146 ==> chunk_at(b, ChunkFormat::Legacy) == Some(
            Err::<Chunk, RepackError>(RepackError::BlockMetadata),
        ),
        6146 <= b.len() < 8194 ==> chunk_at(b, ChunkFormat::Legacy) == Some(
            Err::<Chunk, RepackError>(RepackError::BlockLight),
        ),
        8194 <= b.len() < 10242 ==> chunk_at(b, ChunkFormat::Legacy) == Some(
            Err::<Chunk, RepackError>(RepackError::SkyLight),
        ),
{
    assert((b[0] + 256 * b[1]) % 2 == b[0] % 2);
}

/// A chunk of 1.16.5 is repacked for 1.12.2 as its sections' older forms, in order, behind their
/// mask.
pub proof fn modern_for_1_12_2(b: Seq<u8>, f: Seq<FlatSection>, l: Seq<LegacySection>, t: BlockTable)
    requires
        chunk_at(b, ChunkFormat::Flattened) == Some(Ok::<Chunk, RepackError>(Chunk::Flattened(f))),
        older_sections(f, t) == Some(l),
        l.len() <= 16,
    ensures
        repacked(b, ProtocolVersion::V1_16_5, ProtocolVersion::V1_12_2, t) == Some(
            Ok::<Seq<u8>, RepackError>(low_first((pow2(l.len()) - 1) as nat) + legacy_bytes(l)),
        ),
        repacked(b, ProtocolVersion::V1_13_2, ProtocolVersion::V1_12_2, t) == Some(
            Ok::<Seq<u8>, RepackError>(low_first((pow2(l.len()) - 1) as nat) + legacy_bytes(l)),
        ),
{
    mask_of(l.len());
    lower_byte_first(full_mask(l.len()) as u16);
    assert(flat_parts(with_oceans(f)) =~= f);
}

} // verus!
