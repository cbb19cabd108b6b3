//! One chunk section between its forms before and after the 1.13 flattening.

use crate::converter::chunk_section::{
    air, bits_per_block_for_palette, distinct, distinct_contains, find_name, first_index,
    first_index_finds, flattened_name, legacy_block, packed, packed_bound, packed_digit,
    palette_bits, power, whole_section, BlockStateConverter, BlockTable, FlatSection,
    FlattenedChunkSection, LegacyChunkSection, LegacySection,
    NIBBLE_BYTES, SECTION_BLOCKS,
};
use crate::text::texts;
use vstd::arithmetic::power2::{lemma_pow2_adds, lemma_pow2_pos, pow2};
use vstd::prelude::*;

verus! {

/// The four bits of block `i`, the even block in the lower half of the byte.
pub open spec fn nibble(m: Seq<u8>, i: int) -> u8 {
    if i % 2 == 0 {
        (m[i / 2] % 16) as u8
    } else {
        (m[i / 2] / 16) as u8
    }
}

/// Block `i` of a section from before 1.13: its id and its metadata.
pub open spec fn block_at(s: LegacySection, i: int) -> u16 {
    (s.blocks[i] * 16 + nibble(s.metadata, i)) as u16
}

/// The names of the first `n` blocks.
pub open spec fn names_of(s: LegacySection, t: BlockTable, n: nat) -> Seq<Seq<char>> {
    Seq::new(n, |i: int| flattened_name(t, block_at(s, i)))
}

/// Where each name stands in the palette.
pub open spec fn indices_in(names: Seq<Seq<char>>, palette: Seq<Seq<char>>) -> Seq<nat> {
    Seq::new(names.len(), |i: int| first_index(palette, names[i]))
}

/// How many indices of `bits` bits one word holds.
pub open spec fn per_word(bits: nat) -> int {
    64int / bits as int
}

/// Indices of `bits` bits, 4096 of them, packed into words.
pub open spec fn words_of(indices: Seq<nat>, bits: nat) -> Seq<u64> {
    Seq::new(
        64 * bits,
        |k: int|
            packed(
                indices.subrange(k * per_word(bits), k * per_word(bits) + per_word(bits)),
                pow2(bits),
            ) as u64,
    )
}

/// The newer form of a section, with the names in the order in which they first occur.
/// `None` where there are more than 256 names, for which the words do not suffice.
pub open spec fn newer_section(s: LegacySection, t: BlockTable) -> Option<FlatSection> {
    let names = names_of(s, t, 4096);
    let palette = distinct(names);
    if palette.len() > 256 {
        None
    } else {
        Some(
            FlatSection {
                palette,
                states: words_of(indices_in(names, palette), palette_bits(palette.len())),
                block_light: s.block_light,
                sky_light: s.sky_light,
            },
        )
    }
}

/// The index of block `i` in words of indices of `bits` bits.
pub open spec fn index_at(states: Seq<u64>, i: int, bits: nat) -> nat {
    let per = per_word(bits);
    (states[i / per] as nat / pow2((i % per * bits) as nat)) % pow2(bits)
}

/// The name of block `i`. An index past the palette is air.
pub open spec fn name_at(s: FlatSection, i: int) -> Seq<char> {
    let index = index_at(s.states, i, palette_bits(s.palette.len()));
    if index < s.palette.len() {
        s.palette[index as int]
    } else {
        air()
    }
}

/// The older form of a section. `None` where the palette is larger than its count can say,
/// or the words are too few for 4096 blocks.
pub open spec fn older_section(s: FlatSection, t: BlockTable) -> Option<LegacySection> {
    if s.palette.len() > 0xFFFF || 4095int / per_word(palette_bits(s.palette.len())) >= s.states.len() {
        None
    } else {
        Some(
            LegacySection {
                blocks: Seq::new(
                    4096,
                    |i: int| (legacy_block(t, name_at(s, i)) / 16 % 256) as u8,
                ),
                metadata: Seq::new(
                    2048,
                    |j: int|
                        (legacy_block(t, name_at(s, 2 * j)) % 16 + 16 * (legacy_block(
                            t,
                            name_at(s, 2 * j + 1),
                        ) % 16)) as u8,
                ),
                block_light: s.block_light,
                sky_light: s.sky_light,
            },
        )
    }
}

/// Powers of a power of two.
proof fn power_of_pow2(bits: nat, k: nat)
    ensures
        power(pow2(bits), k) == pow2(k * bits),
    decreases k,
{
    if k == 0 {
        vstd::arithmetic::power2::lemma2_to64();
        assert(0 * bits == 0) by (nonlinear_arith);
    } else {
        power_of_pow2(bits, (k - 1) as nat);
        lemma_pow2_adds(bits, ((k - 1) * bits) as nat);
        assert(bits + (k - 1) * bits == k * bits) by (nonlinear_arith);
        assert((k - 1) * bits >= 0) by (nonlinear_arith)
            requires
                k >= 1,
        ;
    }
}

/// Small palettes have indices of four or eight bits, which fill their words.
proof fn small_palette(n: nat)
    requires
        n <= 256,
    ensures
        palette_bits(n) == 4 || palette_bits(n) == 8,
        n <= pow2(palette_bits(n)),
        per_word(4) == 16,
        per_word(8) == 8,
        pow2(4) == 16,
        pow2(8) == 256,
{
    vstd::arithmetic::power2::lemma2_to64();
    assert(64int / 4 == 16);
    assert(64int / 8 == 8);
}

/// A word of indices fits 64 bits, and its digits are the indices.
proof fn word_holds(digits: Seq<nat>, bits: nat)
    requires
        bits == 4 || bits == 8,
        digits.len() == per_word(bits),
        forall|j: int| 0 <= j < digits.len() ==> digits[j] < pow2(bits),
    ensures
        packed(digits, pow2(bits)) <= u64::MAX,
        forall|j: int| #![trigger digits[j]]
            0 <= j < digits.len() ==> (packed(digits, pow2(bits)) / pow2((j * bits) as nat)) % pow2(bits)
                == digits[j],
{
    small_palette(if bits == 4 { 0 } else { 256 });
    lemma_pow2_pos(bits);
    packed_bound(digits, pow2(bits));
    power_of_pow2(bits, digits.len());
    vstd::arithmetic::power2::lemma2_to64_rest();
    assert forall|j: int| #![trigger digits[j]] 0 <= j < digits.len() implies (packed(
        digits,
        pow2(bits),
    ) / pow2((j * bits) as nat)) % pow2(bits) == digits[j] by {
        packed_digit(digits, pow2(bits), j);
        power_of_pow2(bits, j as nat);
    }
}

/// The index of each block in the words of a section's newer form is the place of its name.
proof fn indices_survive(indices: Seq<nat>, bits: nat, i: int)
    requires
        bits == 4 || bits == 8,
        indices.len() == 4096,
        forall|j: int| 0 <= j < indices.len() ==> indices[j] < pow2(bits),
        0 <= i < 4096,
    ensures
        index_at(words_of(indices, bits), i, bits) == indices[i],
{
    small_palette(if bits == 4 { 0 } else { 256 });
    let per = per_word(bits);
    let (k, j) = (i / per, i % per);
    assert(i == k * per + j && 0 <= j < per && 0 <= k < 64 * bits);
    let digits = indices.subrange(k * per, k * per + per);
    assert(digits[j] == indices[i]);
    word_holds(digits, bits);
}

/// The name of each block in a section's newer form is that of the older block.
proof fn name_survives(s: LegacySection, t: BlockTable, i: int)
    requires
        newer_section(s, t) is Some,
        0 <= i < 4096,
    ensures
        name_at(newer_section(s, t)->0, i) == flattened_name(t, block_at(s, i)),
{
    let names = names_of(s, t, 4096);
    let palette = distinct(names);
    let bits = palette_bits(palette.len());
    let indices = indices_in(names, palette);
    small_palette(palette.len());
    assert forall|j: int| 0 <= j < 4096 implies #[trigger] indices[j] < palette.len() by {
        distinct_contains(names, j);
        first_index_finds(palette, names[j]);
    }
    indices_survive(indices, bits, i);
    distinct_contains(names, i);
    first_index_finds(palette, names[i]);
}

/// A section that is taken to its newer form and back is the same section, where the table
/// leads each of its blocks back to itself and there are names enough in the words.
pub proof fn section_survives(s: LegacySection, t: BlockTable)
    requires
        whole_section(s),
        newer_section(s, t) is Some,
        forall|i: int|
            0 <= i < 4096 ==> legacy_block(t, flattened_name(t, #[trigger] block_at(s, i)))
                == block_at(s, i),
    ensures
        older_section(newer_section(s, t)->0, t) == Some(s),
{
    let f = newer_section(s, t)->0;
    small_palette(f.palette.len());
    let back = older_section(f, t)->0;
    assert(older_section(f, t) is Some) by {
        assert(f.states.len() == 64 * palette_bits(f.palette.len()));
        assert(4095int / 16 == 255 && 4095int / 8 == 511);
    }
    assert forall|i: int| 0 <= i < 4096 implies #[trigger] legacy_block(t, name_at(f, i)) == block_at(
        s,
        i,
    ) by {
        name_survives(s, t, i);
        assert(legacy_block(t, flattened_name(t, block_at(s, i))) == block_at(s, i));
    }
    assert forall|i: int| 0 <= i < 4096 implies #[trigger] back.blocks[i] == s.blocks[i] by {
        assert(legacy_block(t, name_at(f, i)) == block_at(s, i));
        block_parts(s, i);
    }
    assert forall|j: int| 0 <= j < 2048 implies #[trigger] back.metadata[j] == s.metadata[j] by {
        let (a, b) = (2 * j, 2 * j + 1);
        assert(legacy_block(t, name_at(f, a)) == block_at(s, a));
        assert(legacy_block(t, name_at(f, b)) == block_at(s, b));
        block_parts(s, a);
        block_parts(s, b);
        assert(a / 2 == j && b / 2 == j && a % 2 == 0 && b % 2 == 1);
    }
    assert(back.blocks =~= s.blocks);
    assert(back.metadata =~= s.metadata);
}

/// The id and the metadata of a block come back out of it.
proof fn block_parts(s: LegacySection, i: int)
    ensures
        block_at(s, i) / 16 % 256 == s.blocks[i],
        block_at(s, i) % 16 == nibble(s.metadata, i),
{
}

fn legacy_block_of(s: &LegacyChunkSection, i: usize) -> (id: u16)
    requires
        whole_section(s@),
        i < 4096,
    ensures
        id == block_at(s@, i as int),
{
    let m: u8 = s.metadata[i / 2];
    let low: u8 = if i % 2 == 0 { m % 16 } else { m / 16 };
    s.blocks[i] as u16 * 16 + low as u16
}

fn palette_of(s: &LegacyChunkSection, t: &BlockStateConverter) -> (palette: Vec<String>)
    requires
        whole_section(s@),
    ensures
        texts(palette@) == distinct(names_of(s@, t@, 4096)),
{
    let mut palette: Vec<String> = Vec::new();
    let mut i: usize = 0;
    assert(names_of(s@, t@, 0) =~= Seq::<Seq<char>>::empty());
    assert(texts(palette@) =~= distinct(names_of(s@, t@, 0)));
    while i < SECTION_BLOCKS
        invariant
            i <= 4096,
            SECTION_BLOCKS == 4096,
            whole_section(s@),
            texts(palette@) == distinct(names_of(s@, t@, i as nat)),
        decreases SECTION_BLOCKS - i,
    {
        let name: &str = t.to_flattened(legacy_block_of(s, i));
        let ghost had = texts(palette@);
        proof {
            let more = names_of(s@, t@, (i + 1) as nat);
            assert(more.drop_last() =~= names_of(s@, t@, i as nat));
            assert(more.last() == name@);
            first_index_finds(had, name@);
        }
        if find_name(&palette, name).is_none() {
            palette.push(String::from_str(name));
            assert(texts(palette@) =~= had.push(name@));
        }
        i = i + 1;
    }
    palette
}

fn indices_of(s: &LegacyChunkSection, t: &BlockStateConverter, palette: &Vec<String>) -> (ix: Vec<
    u64,
>)
    requires
        whole_section(s@),
        texts(palette@) == distinct(names_of(s@, t@, 4096)),
    ensures
        ix@.len() == 4096,
        forall|i: int|
            0 <= i < 4096 ==> #[trigger] ix@[i] as nat == indices_in(
                names_of(s@, t@, 4096),
                texts(palette@),
            )[i],
        forall|i: int| 0 <= i < 4096 ==> (#[trigger] ix@[i]) < palette@.len(),
{
    let ghost names = names_of(s@, t@, 4096);
    let mut ix: Vec<u64> = Vec::new();
    while ix.len() < SECTION_BLOCKS
        invariant
            ix@.len() <= 4096,
            SECTION_BLOCKS == 4096,
            whole_section(s@),
            names == names_of(s@, t@, 4096),
            texts(palette@) == distinct(names),
            forall|i: int|
                0 <= i < ix@.len() ==> #[trigger] ix@[i] as nat == indices_in(names, texts(palette@))[i],
            forall|i: int| 0 <= i < ix@.len() ==> (#[trigger] ix@[i]) < palette@.len(),
        decreases SECTION_BLOCKS - ix.len(),
    {
        let i: usize = ix.len();
        let name: &str = t.to_flattened(legacy_block_of(s, i));
        proof {
            distinct_contains(names, i as int);
        }
        match find_name(palette, name) {
            Some(k) => ix.push(k as u64),
            None => ix.push(0),
        }
    }
    ix
}

/// The word of the indices from `from` on.
fn word_of(ix: &Vec<u64>, from: usize, per: usize, bits: usize) -> (w: u64)
    requires
        bits == 4 || bits == 8,
        per == per_word(bits as nat),
        ix@.len() == 4096,
        from + per <= 4096,
        forall|i: int| 0 <= i < ix@.len() ==> (#[trigger] ix@[i]) < pow2(bits as nat),
    ensures
        w == packed(
            Seq::new(per as nat, |j: int| ix@[from + j] as nat),
            pow2(bits as nat),
        ),
{
    let ghost digits = Seq::new(per as nat, |j: int| ix@[from + j] as nat);
    let base: u64 = if bits == 4 { 16 } else { 256 };
    proof {
        small_palette(if bits == 4 { 0 } else { 256 });
    }
    let mut w: u64 = 0;
    let mut left: usize = per;
    assert(digits.skip(per as int) =~= Seq::<nat>::empty());
    while left > 0
        invariant
            left <= per,
            bits == 4 || bits == 8,
            per == per_word(bits as nat),
            ix@.len() == 4096,
            from + per <= 4096,
            base == pow2(bits as nat),
            forall|i: int| 0 <= i < ix@.len() ==> (#[trigger] ix@[i]) < pow2(bits as nat),
            digits == Seq::new(per as nat, |j: int| ix@[from + j] as nat),
            w == packed(digits.skip(left as int), pow2(bits as nat)),
        decreases left,
    {
        left = left - 1;
        proof {
            let rest = digits.skip(left as int);
            assert(rest.skip(1) =~= digits.skip(left + 1));
            assert(rest[0] == ix@[from + left] as nat);
            assert forall|i: int| 0 <= i < rest.len() implies rest[i] < pow2(bits as nat) by {
                assert(rest[i] == ix@[from + left + i] as nat);
            }
            packed_bound(rest, pow2(bits as nat));
            power_of_pow2(bits as nat, rest.len());
            small_palette(if bits == 4 { 0 } else { 256 });
            let (n, b) = (rest.len() as int, bits as int);
            assert(n * b <= 64) by (nonlinear_arith)
                requires
                    b == 4 && n <= 16 || b == 8 && n <= 8,
                    0 <= n,
            ;
            if n * b < 64 {
                vstd::arithmetic::power2::lemma_pow2_strictly_increases((n * b) as nat, 64);
            }
            vstd::arithmetic::power2::lemma2_to64_rest();
        }
        w = ix[from + left] + base * w;
    }
    assert(digits.skip(0) =~= digits);
    w
}

/// The newer form of a section, `None` where it has more than 256 names.
pub fn flatten_section(s: LegacyChunkSection, t: &BlockStateConverter) -> (r: Option<
    FlattenedChunkSection,
>)
    requires
        whole_section(s@),
    ensures
        match newer_section(s@, t@) {
            Some(f) => r is Some && r->0@ == f,
            None => r is None,
        },
{
    let palette = palette_of(&s, t);
    if palette.len() > 256 {
        return None;
    }
    let ghost names = names_of(s@, t@, 4096);
    let bits: usize = bits_per_block_for_palette(palette.len());
    let ix = indices_of(&s, t, &palette);
    let per: usize = 64 / bits;
    let count: usize = 64 * bits;
    proof {
        small_palette(palette@.len());
        assert(per * count == 4096) by (nonlinear_arith)
            requires
                per == 16 && count == 256 || per == 8 && count == 512,
        ;
    }
    let ghost indices = indices_in(names, texts(palette@));
    let mut words: Vec<u64> = Vec::new();
    while words.len() < count
        invariant
            bits == 4 || bits == 8,
            per == per_word(bits as nat),
            count == 64 * bits,
            per * count == 4096,
            ix@.len() == 4096,
            indices.len() == 4096,
            words@.len() <= count,
            forall|i: int| 0 <= i < 4096 ==> #[trigger] ix@[i] as nat == indices[i],
            forall|i: int| 0 <= i < 4096 ==> (#[trigger] ix@[i]) < pow2(bits as nat),
            forall|k: int|
                0 <= k < words@.len() ==> #[trigger] words@[k] == words_of(indices, bits as nat)[k],
        decreases count - words.len(),
    {
        let k: usize = words.len();
        proof {
            assert(k * per + per <= 4096 && k * per >= 0) by (nonlinear_arith)
                requires
                    0 <= k < count,
                    per * count == 4096,
                    per >= 0,
            ;
        }
        let from: usize = k * per;
        let w: u64 = word_of(&ix, from, per, bits);
        proof {
            assert(Seq::new(per as nat, |j: int| ix@[from + j] as nat) =~= indices.subrange(
                from as int,
                from + per,
            ));
        }
        words.push(w);
    }
    assert(words@ =~= words_of(indices, bits as nat));
    Some(
        FlattenedChunkSection {
            palette,
            block_states: words,
            block_light: s.block_light,
            sky_light: s.sky_light,
        },
    )
}

/// The digit of `bits` bits that stands `off` bits up.
fn digit_of(word: u64, off: u64, bits: u64) -> (d: u64)
    requires
        off < 64,
        bits <= 32,
    ensures
        d == (word as nat / pow2(off as nat)) % pow2(bits as nat),
{
    proof {
        vstd::bits::lemma_u64_shr_is_div(word, off);
        vstd::arithmetic::power2::lemma2_to64();
        vstd::arithmetic::power2::lemma2_to64_rest();
        lemma_pow2_pos(bits as nat);
        if bits < 32 {
            vstd::arithmetic::power2::lemma_pow2_strictly_increases(bits as nat, 32);
        }
        vstd::bits::lemma_u64_shl_is_mul(1, bits);
    }
    (word >> off) % (1u64 << bits)
}

/// A palette whose size is a 16-bit number has indices of at most 16 bits.
proof fn wire_palette(n: nat)
    requires
        n <= 0xFFFF,
    ensures
        4 <= palette_bits(n) <= 16,
{
    if n > 256 {
        reveal_with_fuel(crate::number::bit_len, 18);
    }
}

fn older_block_of(s: &FlattenedChunkSection, i: usize, t: &BlockStateConverter) -> (id: u16)
    requires
        s@.palette.len() <= 0xFFFF,
        4095int / per_word(palette_bits(s@.palette.len())) < s@.states.len(),
        i < 4096,
    ensures
        id == legacy_block(t@, name_at(s@, i as int)),
{
    let bits: usize = bits_per_block_for_palette(s.palette.len());
    proof {
        wire_palette(s@.palette.len());
    }
    let per: usize = 64 / bits;
    let ghost (p, b) = (per as int, bits as int);
    assert(p >= 4 && p * b <= 64) by (nonlinear_arith)
        requires
            p == 64int / b,
            4 <= b <= 16,
    ;
    assert(i as int / p <= 4095int / p) by (nonlinear_arith)
        requires
            0 <= i <= 4095,
            p >= 4,
    ;
    let j: usize = i % per;
    assert(j * b < 64 && j * b >= 0) by (nonlinear_arith)
        requires
            0 <= j < p,
            p * b <= 64,
            b >= 4,
    ;
    let d: u64 = digit_of(s.block_states[i / per], (j * bits) as u64, bits as u64);
    if d < s.palette.len() as u64 {
        t.to_legacy(s.palette[d as usize].as_str())
    } else {
        t.to_legacy("minecraft:air")
    }
}

/// The older form of a section, `None` where its words are too few for 4096 blocks.
pub fn unflatten_section(s: FlattenedChunkSection, t: &BlockStateConverter) -> (r: Option<
    LegacyChunkSection,
>)
    ensures
        match older_section(s@, t@) {
            Some(l) => r is Some && r->0@ == l,
            None => r is None,
        },
{
    if s.palette.len() > 0xFFFF {
        return None;
    }
    let bits: usize = bits_per_block_for_palette(s.palette.len());
    proof {
        wire_palette(s@.palette.len());
    }
    let per: usize = 64 / bits;
    assert(per >= 4) by (nonlinear_arith)
        requires
            per == 64int / bits as int,
            4 <= bits <= 16,
    ;
    if 4095 / per >= s.block_states.len() {
        return None;
    }
    let ghost whole = older_section(s@, t@)->0;
    let mut blocks: Vec<u8> = Vec::new();
    let mut metadata: Vec<u8> = Vec::new();
    while metadata.len() < NIBBLE_BYTES
        invariant
            NIBBLE_BYTES == 2048,
            metadata@.len() <= 2048,
            blocks@.len() == 2 * metadata@.len(),
            s@.palette.len() <= 0xFFFF,
            4095int / per_word(palette_bits(s@.palette.len())) < s@.states.len(),
            older_section(s@, t@) == Some(whole),
            forall|i: int| 0 <= i < blocks@.len() ==> #[trigger] blocks@[i] == whole.blocks[i],
            forall|j: int| 0 <= j < metadata@.len() ==> #[trigger] metadata@[j] == whole.metadata[j],
        decreases NIBBLE_BYTES - metadata.len(),
    {
        let j: usize = metadata.len();
        let even: u16 = older_block_of(&s, 2 * j, t);
        let odd: u16 = older_block_of(&s, 2 * j + 1, t);
        blocks.push((even / 16 % 256) as u8);
        blocks.push((odd / 16 % 256) as u8);
        metadata.push((even % 16 + 16 * (odd % 16)) as u8);
    }
    assert(blocks@ =~= whole.blocks);
    assert(metadata@ =~= whole.metadata);
    Some(
        LegacyChunkSection {
            blocks,
            metadata,
            block_light: s.block_light,
            sky_light: s.sky_light,
        },
    )
}

/// Biomes of a section's columns, one for every four of them.
pub open spec fn fewer_biomes(biomes: Seq<i32>) -> Seq<i32> {
    Seq::new(((biomes.len() + 3) / 4) as nat, |i: int| biomes[4 * i])
}

/// The biomes of 256 columns, four for each that is given; those past the end are 0.
pub open spec fn more_biomes(biomes: Seq<i32>) -> Seq<i32> {
    Seq::new(256, |k: int| if k / 4 < biomes.len() { biomes[k / 4] } else { 0 })
}

/// Widening 64 biomes and narrowing them again gives the biomes back.
pub proof fn biomes_survive(biomes: Seq<i32>)
    requires
        biomes.len() == 64,
    ensures
        fewer_biomes(more_biomes(biomes)) == biomes,
{
    assert(fewer_biomes(more_biomes(biomes)) =~= biomes);
}

/// Biomes of a section's columns, one for every four of them.
pub fn narrow_biomes(biomes: &Vec<i32>) -> (r: Vec<i32>)
    ensures
        r@ == fewer_biomes(biomes@),
{
    let mut r: Vec<i32> = Vec::new();
    let len: usize = biomes.len();
    let n: usize = if len % 4 == 0 { len / 4 } else { len / 4 + 1 };
    while r.len() < n
        invariant
            len == biomes@.len(),
            n == (len + 3) / 4,
            r@.len() <= n,
            forall|i: int| 0 <= i < r@.len() ==> #[trigger] r@[i] == fewer_biomes(biomes@)[i],
        decreases n - r.len(),
    {
        let i: usize = r.len();
        r.push(biomes[4 * i]);
    }
    assert(r@ =~= fewer_biomes(biomes@));
    r
}

/// The biomes of 256 columns, four for each that is given.
pub fn widen_biomes(biomes: &Vec<i32>) -> (r: Vec<i32>)
    ensures
        r@ == more_biomes(biomes@),
{
    let mut r: Vec<i32> = Vec::new();
    while r.len() < 256
        invariant
            r@.len() <= 256,
            forall|i: int| 0 <= i < r@.len() ==> #[trigger] r@[i] == more_biomes(biomes@)[i],
        decreases 256 - r.len(),
    {
        let k: usize = r.len();
        let b: i32 = if k / 4 < biomes.len() { biomes[k / 4] } else { 0 };
        r.push(b);
    }
    assert(r@ =~= more_biomes(biomes@));
    r
}

// Laws.

/// Which width goes with a palette: four bits up to 16 names, eight up to 256, and beyond
/// that the number of bits of the largest index.
proof fn width_of(n: nat, bits: nat)
    requires
        n <= 16 && bits == 4 || 16 < n <= 256 && bits == 8 || 256 < n && bits > 0 && pow2(
            (bits - 1) as nat,
        ) < n <= pow2(bits),
    ensures
        palette_bits(n) == bits,
{
    if n > 256 {
        let (m, k) = ((n - 1) as nat, palette_bits(n));
        crate::number::bit_len_bounds(m);
        if k < bits {
            if k < bits - 1 {
                vstd::arithmetic::power2::lemma_pow2_strictly_increases(k, (bits - 1) as nat);
            }
        }
        if k > bits {
            if bits < k - 1 {
                vstd::arithmetic::power2::lemma_pow2_strictly_increases(bits, (k - 1) as nat);
            }
        }
    }
}

/// A section has a newer form if its blocks have at most 256 names between them. In it the
/// names of up to 16 take four bits a block and sixteen blocks a word, those of more take
/// eight bits a block and eight blocks a word, the first block lowest. The metadata of two
/// blocks share a byte: that of block `2 * j` are the lower four bits of byte `j`, that of
/// block `2 * j + 1` the upper four.
pub proof fn newer_blocks(s: LegacySection, t: BlockTable, f: FlatSection, j: int)
    requires
        whole_section(s),
        newer_section(s, t) == Some(f),
        0 <= j < 2048,
    ensures
        f.palette.len() <= 256,
        f.block_light == s.block_light,
        f.sky_light == s.sky_light,
        f.palette.len() <= 16 ==> {
            &&& f.states.len() == 256
            &&& f.palette[(f.states[2 * j / 16] as nat / pow2((4 * (2 * j % 16)) as nat) % 16) as int]
                == flattened_name(t, (s.blocks[2 * j] * 16 + s.metadata[j] % 16) as u16)
            &&& f.palette[(f.states[(2 * j + 1) / 16] as nat / pow2(
                (4 * ((2 * j + 1) % 16)) as nat,
            ) % 16) as int] == flattened_name(
                t,
                (s.blocks[2 * j + 1] * 16 + s.metadata[j] / 16) as u16,
            )
        },
        f.palette.len() > 16 ==> {
            &&& f.states.len() == 512
            &&& f.palette[(f.states[2 * j / 8] as nat / pow2((8 * (2 * j % 8)) as nat) % 256) as int]
                == flattened_name(t, (s.blocks[2 * j] * 16 + s.metadata[j] % 16) as u16)
            &&& f.palette[(f.states[(2 * j + 1) / 8] as nat / pow2(
                (8 * ((2 * j + 1) % 8)) as nat,
            ) % 256) as int] == flattened_name(
                t,
                (s.blocks[2 * j + 1] * 16 + s.metadata[j] / 16) as u16,
            )
        },
{
    let (a, b) = (2 * j, 2 * j + 1);
    assert(a / 2 == j && b / 2 == j && a % 2 == 0 && b % 2 == 1);
    small_palette(f.palette.len());
    name_found(s, t, a);
    name_found(s, t, b);
}

/// The name of a block in a section's newer form stands in its palette.
proof fn name_found(s: LegacySection, t: BlockTable, i: int)
    requires
        newer_section(s, t) is Some,
        0 <= i < 4096,
    ensures
        ({
            let f = newer_section(s, t)->0;
            let k = if f.palette.len() <= 16 {
                f.states[i / 16] as nat / pow2((4 * (i % 16)) as nat) % 16
            } else {
                f.states[i / 8] as nat / pow2((8 * (i % 8)) as nat) % 256
            };
            k < f.palette.len() && f.palette[k as int] == flattened_name(t, block_at(s, i))
        }),
{
    let names = names_of(s, t, 4096);
    let palette = distinct(names);
    let bits = palette_bits(palette.len());
    let indices = indices_in(names, palette);
    small_palette(palette.len());
    assert forall|j: int| 0 <= j < 4096 implies #[trigger] indices[j] < palette.len() by {
        distinct_contains(names, j);
        first_index_finds(palette, names[j]);
    }
    indices_survive(indices, bits, i);
    distinct_contains(names, i);
    first_index_finds(palette, names[i]);
    assert(bits == 4 ==> i % 16 * bits == 4 * (i % 16)) by (nonlinear_arith);
    assert(bits == 8 ==> i % 8 * bits == 8 * (i % 8)) by (nonlinear_arith);
}

/// The name of each block in a section's newer form is the table's name for the block's id and
/// metadata, the metadata of the even block in the lower half of the byte.
pub proof fn newer_names(s: LegacySection, t: BlockTable, j: int)
    requires
        whole_section(s),
        newer_section(s, t) is Some,
        0 <= j < 2048,
    ensures
        name_at(newer_section(s, t)->0, 2 * j) == flattened_name(
            t,
            (s.blocks[2 * j] * 16 + s.metadata[j] % 16) as u16,
        ),
        name_at(newer_section(s, t)->0, 2 * j + 1) == flattened_name(
            t,
            (s.blocks[2 * j + 1] * 16 + s.metadata[j] / 16) as u16,
        ),
{
    let (a, b) = (2 * j, 2 * j + 1);
    assert(a / 2 == j && b / 2 == j && a % 2 == 0 && b % 2 == 1);
    name_survives(s, t, a);
    name_survives(s, t, b);
}

/// A section of the newer form has an older one if its words suffice for 4096 blocks and its
/// palette for its count. The block `i` has the name at the index that stands in its word, the
/// first block of a word lowest, and is air where that index is past the palette.
pub proof fn older_blocks(s: FlatSection, t: BlockTable, bits: nat, name: Seq<char>, i: int)
    requires
        s.palette.len() <= 16 && bits == 4 || 16 < s.palette.len() <= 256 && bits == 8 || 256
            < s.palette.len() <= 0xFFFF && bits > 0 && pow2((bits - 1) as nat) < s.palette.len()
            <= pow2(bits),
        0 <= i < 4096,
        ({
            let per = 64int / bits as int;
            let k = s.states[i / per] as nat / pow2((i % per * bits) as nat) % pow2(bits);
            name == if k < s.palette.len() {
                s.palette[k as int]
            } else {
                "minecraft:air"@
            }
        }),
    ensures
        older_section(s, t) is Some <==> 4095int / (64int / bits as int) < s.states.len(),
        older_section(s, t) matches Some(l) ==> {
            &&& whole_halves(l)
            &&& l.block_light == s.block_light
            &&& l.sky_light == s.sky_light
            &&& l.blocks[i] == legacy_block(t, name) / 16 % 256
            &&& i % 2 == 0 ==> l.metadata[i / 2] % 16 == legacy_block(t, name) % 16
            &&& i % 2 == 1 ==> l.metadata[i / 2] / 16 == legacy_block(t, name) % 16
        },
{
    width_of(s.palette.len(), bits);
    assert(name == name_at(s, i));
    if older_section(s, t) is Some {
        let l = older_section(s, t)->0;
        let j = i / 2;
        let low = legacy_block(t, name_at(s, 2 * j)) % 16;
        let high = legacy_block(t, name_at(s, 2 * j + 1)) % 16;
        assert(l.metadata[j] == low + 16 * high);
        assert(i == 2 * j || i == 2 * j + 1);
    }
}

/// A palette of more names than its count can say has no older form.
pub proof fn older_palette_limit(s: FlatSection, t: BlockTable)
    requires
        s.palette.len() > 65535,
    ensures
        older_section(s, t) is None,
{
}

/// Whether a section has a byte for each block and half a byte of metadata.
pub open spec fn whole_halves(l: LegacySection) -> bool {
    l.blocks.len() == 4096 && l.metadata.len() == 2048
}

/// Every fourth biome stays, from the first on.
pub proof fn biomes_thinned(biomes: Seq<i32>, i: int)
    requires
        0 <= i,
        4 * i < biomes.len(),
    ensures
        fewer_biomes(biomes).len() * 4 >= biomes.len(),
        fewer_biomes(biomes).len() * 4 < biomes.len() + 4,
        fewer_biomes(biomes)[i] == biomes[4 * i],
{
}

/// Each of 64 biomes fills four columns in a row.
pub proof fn biomes_spread(biomes: Seq<i32>, i: int, k: int)
    requires
        0 <= i < 64,
        0 <= k < 4,
    ensures
        more_biomes(biomes).len() == 256,
        i < biomes.len() ==> more_biomes(biomes)[4 * i + k] == biomes[i],
        i >= biomes.len() ==> more_biomes(biomes)[4 * i + k] == 0,
{
}

} // verus!
