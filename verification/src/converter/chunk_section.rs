//! Chunk sections before and after the 1.13 flattening, and the tables between their blocks.
//!
//! A section holds 16 × 16 × 16 blocks. Before 1.13 each block is a byte of id and four bits
//! of metadata. From 1.13 on a section has a palette of names, and each block is an index
//! into it, several indices to a 64-bit word.

use crate::number::bit_len;
use crate::text::{is_text, texts};
use vstd::arithmetic::power2::pow2;
use vstd::prelude::*;

verus! {

/// The blocks of a section.
pub const SECTION_BLOCKS: usize = 4096;

/// The bytes of four bits per block.
pub const NIBBLE_BYTES: usize = 2048;

/// The name of the block that stands for an index past the palette.
pub open spec fn air() -> Seq<char> {
    "minecraft:air"@
}

/// A section from before 1.13.
pub struct LegacyChunkSection {
    pub blocks: Vec<u8>,
    pub metadata: Vec<u8>,
    pub block_light: Vec<u8>,
    pub sky_light: Vec<u8>,
}

/// A section of 1.13 or later.
pub struct FlattenedChunkSection {
    pub palette: Vec<String>,
    pub block_states: Vec<u64>,
    pub block_light: Vec<u8>,
    pub sky_light: Vec<u8>,
}

/// A section of 1.13 or later with its biomes.
pub struct BiomeChunkSection {
    pub block_states: FlattenedChunkSection,
    pub biomes: Vec<i32>,
}

/// A section from before 1.13 as sequences.
#[verifier::ext_equal]
pub struct LegacySection {
    pub blocks: Seq<u8>,
    pub metadata: Seq<u8>,
    pub block_light: Seq<u8>,
    pub sky_light: Seq<u8>,
}

/// A section of 1.13 or later as sequences.
#[verifier::ext_equal]
pub struct FlatSection {
    pub palette: Seq<Seq<char>>,
    pub states: Seq<u64>,
    pub block_light: Seq<u8>,
    pub sky_light: Seq<u8>,
}

/// A section with its biomes as sequences.
#[verifier::ext_equal]
pub struct BiomeSection {
    pub flat: FlatSection,
    pub biomes: Seq<i32>,
}

impl View for LegacyChunkSection {
    type V = LegacySection;

    open spec fn view(&self) -> LegacySection {
        LegacySection {
            blocks: self.blocks@,
            metadata: self.metadata@,
            block_light: self.block_light@,
            sky_light: self.sky_light@,
        }
    }
}

impl View for FlattenedChunkSection {
    type V = FlatSection;

    open spec fn view(&self) -> FlatSection {
        FlatSection {
            palette: texts(self.palette@),
            states: self.block_states@,
            block_light: self.block_light@,
            sky_light: self.sky_light@,
        }
    }
}

impl View for BiomeChunkSection {
    type V = BiomeSection;

    open spec fn view(&self) -> BiomeSection {
        BiomeSection { flat: self.block_states@, biomes: self.biomes@ }
    }
}

/// Whether the parts of a section have the sizes of 4096 blocks.
pub open spec fn whole_section(s: LegacySection) -> bool {
    &&& s.blocks.len() == 4096
    &&& s.metadata.len() == 2048
    &&& s.block_light.len() == 2048
    &&& s.sky_light.len() == 2048
}

// Names and ids of blocks.

/// Which name stands for an older block, an id and four bits of metadata, and which older
/// block for a name. The first pair with the id or the name counts.
pub struct BlockStateConverter {
    pub pairs: Vec<(u16, String)>,
    /// The name of a block that is in no pair.
    pub unknown_name: String,
    /// The older block for a name that is in no pair.
    pub unknown_id: u16,
}

/// A block table as sequences.
#[verifier::ext_equal]
pub struct BlockTable {
    pub pairs: Seq<(u16, Seq<char>)>,
    pub unknown_name: Seq<char>,
    pub unknown_id: u16,
}

impl View for BlockStateConverter {
    type V = BlockTable;

    open spec fn view(&self) -> BlockTable {
        BlockTable {
            pairs: Seq::new(self.pairs@.len(), |i: int| (self.pairs@[i].0, self.pairs@[i].1@)),
            unknown_name: self.unknown_name@,
            unknown_id: self.unknown_id,
        }
    }
}

/// The name of the first pair with the id.
pub open spec fn paired_name(pairs: Seq<(u16, Seq<char>)>, id: u16) -> Option<Seq<char>>
    decreases pairs.len(),
{
    if pairs.len() == 0 {
        None
    } else if pairs[0].0 == id {
        Some(pairs[0].1)
    } else {
        paired_name(pairs.skip(1), id)
    }
}

/// The id of the first pair with the name.
pub open spec fn paired_id(pairs: Seq<(u16, Seq<char>)>, name: Seq<char>) -> Option<u16>
    decreases pairs.len(),
{
    if pairs.len() == 0 {
        None
    } else if pairs[0].1 == name {
        Some(pairs[0].0)
    } else {
        paired_id(pairs.skip(1), name)
    }
}

/// The name of an older block.
pub open spec fn flattened_name(t: BlockTable, id: u16) -> Seq<char> {
    match paired_name(t.pairs, id) {
        Some(name) => name,
        None => t.unknown_name,
    }
}

/// The older block of a name.
pub open spec fn legacy_block(t: BlockTable, name: Seq<char>) -> u16 {
    match paired_id(t.pairs, name) {
        Some(id) => id,
        None => t.unknown_id,
    }
}

impl BlockStateConverter {
    /// A table without pairs: all blocks are air. The pairs of the releases come in through the
    /// fields.
    pub fn new() -> (t: Self)
        ensures
            t@.pairs.len() == 0,
            t@.unknown_name == air(),
            t@.unknown_id == 0,
    {
        BlockStateConverter {
            pairs: Vec::new(),
            unknown_name: String::from_str("minecraft:air"),
            unknown_id: 0,
        }
    }

    /// The name of an older block.
    pub fn to_flattened(&self, id: u16) -> (name: &str)
        ensures
            name@ == flattened_name(self@, id),
    {
        let ghost pairs = self@.pairs;
        let mut i: usize = 0;
        assert(pairs.skip(0) =~= pairs);
        while i < self.pairs.len()
            invariant
                i <= self.pairs.len(),
                pairs == self@.pairs,
                paired_name(pairs, id) == paired_name(pairs.skip(i as int), id),
            decreases self.pairs.len() - i,
        {
            assert(pairs.skip(i as int)[0] == pairs[i as int]);
            if self.pairs[i].0 == id {
                return self.pairs[i].1.as_str();
            }
            assert(pairs.skip(i as int).skip(1) =~= pairs.skip(i + 1));
            i = i + 1;
        }
        self.unknown_name.as_str()
    }

    /// The older block of a name.
    pub fn to_legacy(&self, name: &str) -> (id: u16)
        ensures
            id == legacy_block(self@, name@),
    {
        let ghost pairs = self@.pairs;
        let mut i: usize = 0;
        assert(pairs.skip(0) =~= pairs);
        while i < self.pairs.len()
            invariant
                i <= self.pairs.len(),
                pairs == self@.pairs,
                paired_id(pairs, name@) == paired_id(pairs.skip(i as int), name@),
            decreases self.pairs.len() - i,
        {
            assert(pairs.skip(i as int)[0] == pairs[i as int]);
            if is_text(&self.pairs[i].1, name) {
                return self.pairs[i].0;
            }
            assert(pairs.skip(i as int).skip(1) =~= pairs.skip(i + 1));
            i = i + 1;
        }
        self.unknown_id
    }
}

/// Names of biomes by their older numbers.
pub struct BiomeConverter {
    pub pairs: Vec<(i32, String)>,
}

impl BiomeConverter {
    /// A table without pairs. Those of the releases come in through the field.
    pub fn new() -> (t: Self)
        ensures
            t.pairs@.len() == 0,
    {
        BiomeConverter { pairs: Vec::new() }
    }
}

// Palettes.

/// How many bits an index into a palette takes: 4 up to 16 names, 8 up to 256, and beyond
/// that as many as the largest index needs.
pub open spec fn palette_bits(n: nat) -> nat {
    if n <= 16 {
        4
    } else if n <= 256 {
        8
    } else {
        bit_len((n - 1) as nat)
    }
}

/// How many bits an index into a palette takes.
pub fn bits_per_block_for_palette(palette_len: usize) -> (bits: usize)
    ensures
        bits == palette_bits(palette_len as nat),
        4 <= bits <= 64,
{
    if palette_len <= 16 {
        4
    } else if palette_len <= 256 {
        8
    } else {
        let mut m: usize = palette_len - 1;
        let mut bits: usize = 0;
        proof {
            crate::number::bit_len_bounds(m as nat);
            bit_len_of_usize(m);
            eight_bits(m as nat);
        }
        let ghost whole = bit_len(m as nat);
        while m > 0
            invariant
                whole == bits + bit_len(m as nat),
                whole <= 64,
            decreases m,
        {
            m = m / 2;
            bits = bits + 1;
        }
        bits
    }
}

proof fn eight_bits(m: nat)
    requires
        m >= 256,
    ensures
        bit_len(m) >= 9,
{
    reveal_with_fuel(bit_len, 10);
}

/// A machine word has at most 64 bits.
proof fn bit_len_of_usize(m: usize)
    ensures
        bit_len(m as nat) <= 64,
{
    assert(m < pow2(64)) by {
        vstd::arithmetic::power2::lemma2_to64();
        vstd::arithmetic::power2::lemma2_to64_rest();
    }
    bit_len_below(m as nat, 64);
}

proof fn bit_len_below(m: nat, k: nat)
    requires
        m < pow2(k),
    ensures
        bit_len(m) <= k,
    decreases k,
{
    if m > 0 {
        if k == 0 {
            vstd::arithmetic::power2::lemma2_to64();
        } else {
            vstd::arithmetic::power2::lemma_pow2_unfold(k);
            bit_len_below(m / 2, (k - 1) as nat);
        }
    }
}

/// The names in the order in which they first occur.
pub open spec fn distinct(names: Seq<Seq<char>>) -> Seq<Seq<char>>
    decreases names.len(),
{
    if names.len() == 0 {
        seq![]
    } else {
        let had = distinct(names.drop_last());
        if had.contains(names.last()) {
            had
        } else {
            had.push(names.last())
        }
    }
}

/// Where a name first occurs, the length where it does not occur.
pub open spec fn first_index(names: Seq<Seq<char>>, name: Seq<char>) -> nat
    decreases names.len(),
{
    if names.len() == 0 {
        0
    } else if names[0] == name {
        0
    } else {
        1 + first_index(names.skip(1), name)
    }
}

/// The name at the first index is the name, and it occurs exactly if that index is in range.
pub proof fn first_index_finds(names: Seq<Seq<char>>, name: Seq<char>)
    ensures
        first_index(names, name) <= names.len(),
        first_index(names, name) < names.len() <==> names.contains(name),
        first_index(names, name) < names.len() ==> names[first_index(names, name) as int] == name,
    decreases names.len(),
{
    if names.len() > 0 && names[0] != name {
        let rest = names.skip(1);
        first_index_finds(rest, name);
        if names.contains(name) {
            let i = choose|i: int| 0 <= i < names.len() && names[i] == name;
            assert(rest[i - 1] == name);
        }
        if rest.contains(name) {
            let i = choose|i: int| 0 <= i < rest.len() && rest[i] == name;
            assert(names[i + 1] == name);
        }
    }
}

/// Every name occurs among those that first occur.
pub proof fn distinct_contains(names: Seq<Seq<char>>, i: int)
    requires
        0 <= i < names.len(),
    ensures
        distinct(names).contains(names[i]),
        distinct(names).len() <= names.len(),
    decreases names.len(),
{
    let had = distinct(names.drop_last());
    if i < names.len() - 1 {
        distinct_contains(names.drop_last(), i);
        let k = choose|k: int| 0 <= k < had.len() && had[k] == names[i];
        assert(distinct(names)[k] == names[i]);
    } else {
        if names.len() > 1 {
            distinct_contains(names.drop_last(), 0);
        }
        if !had.contains(names.last()) {
            assert(distinct(names).last() == names.last());
        }
    }
}

/// Where a name first occurs, or `None` where it does not occur.
pub fn find_name(names: &Vec<String>, name: &str) -> (r: Option<usize>)
    ensures
        match r {
            Some(i) => i < names@.len() && i == first_index(texts(names@), name@),
            None => !texts(names@).contains(name@),
        },
{
    let ghost all = texts(names@);
    let mut i: usize = 0;
    assert(all.skip(0) =~= all);
    while i < names.len()
        invariant
            i <= names.len(),
            all == texts(names@),
            first_index(all, name@) == i + first_index(all.skip(i as int), name@),
        decreases names.len() - i,
    {
        assert(all.skip(i as int)[0] == names@[i as int]@);
        if is_text(&names[i], name) {
            return Some(i);
        }
        assert(all.skip(i as int).skip(1) =~= all.skip(i + 1));
        i = i + 1;
    }
    proof {
        first_index_finds(all, name@);
    }
    None
}

// Words of indices.

/// Indices as the digits of one number, the first one lowest.
pub open spec fn packed(digits: Seq<nat>, base: nat) -> nat
    decreases digits.len(),
{
    if digits.len() == 0 {
        0
    } else {
        digits[0] + base * packed(digits.skip(1), base)
    }
}

/// `base` to the power of `n`.
pub open spec fn power(base: nat, n: nat) -> nat
    decreases n,
{
    if n == 0 {
        1
    } else {
        base * power(base, (n - 1) as nat)
    }
}

/// Digits below the base give a number below its power.
pub proof fn packed_bound(digits: Seq<nat>, base: nat)
    requires
        base > 0,
        forall|i: int| 0 <= i < digits.len() ==> digits[i] < base,
    ensures
        packed(digits, base) < power(base, digits.len()),
    decreases digits.len(),
{
    if digits.len() > 0 {
        let rest = digits.skip(1);
        assert forall|i: int| 0 <= i < rest.len() implies rest[i] < base by {
            assert(rest[i] == digits[i + 1]);
        }
        packed_bound(rest, base);
        let (v, p) = (packed(rest, base), power(base, rest.len()));
        assert(base * v + base <= base * p) by (nonlinear_arith)
            requires
                v + 1 <= p,
                base > 0,
        ;
    }
}

/// The digits of a packed number are what was packed.
pub proof fn packed_digit(digits: Seq<nat>, base: nat, i: int)
    requires
        base > 0,
        forall|j: int| 0 <= j < digits.len() ==> digits[j] < base,
        0 <= i < digits.len(),
    ensures
        power(base, i as nat) > 0,
        packed(digits, base) / power(base, i as nat) % base == digits[i],
    decreases digits.len(),
{
    let rest = digits.skip(1);
    assert forall|j: int| 0 <= j < rest.len() implies rest[j] < base by {
        assert(rest[j] == digits[j + 1]);
    }
    let v = packed(digits, base) as int;
    let (d, r) = (digits[0] as int, packed(rest, base) as int);
    assert(base as int * r == r * base as int) by (nonlinear_arith);
    vstd::arithmetic::div_mod::lemma_fundamental_div_mod_converse(v, base as int, r, d);
    if i > 0 {
        packed_digit(rest, base, i - 1);
        let p = power(base, (i - 1) as nat) as int;
        assert(base * p > 0) by (nonlinear_arith)
            requires
                base > 0,
                p > 0,
        ;
        vstd::arithmetic::div_mod::lemma_div_denominator(v, base as int, p);
        assert(rest[i - 1] == digits[i]);
    } else {
        assert(v / 1 == v);
    }
}

// Laws.

/// The name of an older block is that of the first pair with its id, and the name for unknown
/// ones where no pair has it.
pub proof fn first_pair_names(t: BlockTable, id: u16, i: int)
    requires
        0 <= i <= t.pairs.len(),
        forall|j: int| 0 <= j < i ==> (#[trigger] t.pairs[j]).0 != id,
    ensures
        i < t.pairs.len() && t.pairs[i].0 == id ==> flattened_name(t, id) == t.pairs[i].1,
        i == t.pairs.len() ==> flattened_name(t, id) == t.unknown_name,
    decreases i,
{
    if i > 0 {
        let rest = BlockTable { pairs: t.pairs.skip(1), ..t };
        assert(t.pairs[0].0 != id);
        assert forall|j: int| 0 <= j < i - 1 implies (#[trigger] rest.pairs[j]).0 != id by {
            assert(rest.pairs[j] == t.pairs[j + 1]);
        }
        first_pair_names(rest, id, i - 1);
    }
}

/// The older block of a name is that of the first pair with the name, and the block for unknown
/// names where no pair has it.
pub proof fn first_pair_counts(t: BlockTable, name: Seq<char>, i: int)
    requires
        0 <= i <= t.pairs.len(),
        forall|j: int| 0 <= j < i ==> (#[trigger] t.pairs[j]).1 != name,
    ensures
        i < t.pairs.len() && t.pairs[i].1 == name ==> legacy_block(t, name) == t.pairs[i].0,
        i == t.pairs.len() ==> legacy_block(t, name) == t.unknown_id,
    decreases i,
{
    if i > 0 {
        let rest = BlockTable { pairs: t.pairs.skip(1), ..t };
        assert(t.pairs[0].1 != name);
        assert forall|j: int| 0 <= j < i - 1 implies (#[trigger] rest.pairs[j]).1 != name by {
            assert(rest.pairs[j] == t.pairs[j + 1]);
        }
        first_pair_counts(rest, name, i - 1);
    }
}

/// The names that first occur are those that occur, each of them once.
pub proof fn distinct_names(names: Seq<Seq<char>>)
    ensures
        forall|a: int, b: int|
            0 <= a < b < distinct(names).len() ==> distinct(names)[a] != distinct(names)[b],
        forall|a: int|
            0 <= a < distinct(names).len() ==> names.contains(#[trigger] distinct(names)[a]),
        names.len() > 0 ==> distinct(names).len() > 0 && distinct(names)[0] == names[0],
    decreases names.len(),
{
    if names.len() > 0 {
        let less = names.drop_last();
        distinct_names(less);
        let had = distinct(less);
        assert forall|a: int| 0 <= a < distinct(names).len() implies names.contains(
            #[trigger] distinct(names)[a],
        ) by {
            if a < had.len() {
                assert(less.contains(had[a]));
                let k = choose|k: int| 0 <= k < less.len() && less[k] == had[a];
                assert(names[k] == distinct(names)[a]);
            } else {
                assert(names[names.len() - 1] == distinct(names)[a]);
            }
        }
        assert forall|a: int, b: int| 0 <= a < b < distinct(names).len() implies distinct(names)[a]
            != distinct(names)[b] by {
            if b >= had.len() {
                assert(had.contains(had[a]));
            }
        }
    }
}

} // verus!
