//! Tables between the ids before and after the 1.13 flattening.
//!
//! The tables hold plain pairs, an older id and the newer id that stands for it. Where an id
//! occurs more than once the first pair counts.

use vstd::prelude::*;

verus! {

/// Item ids.
pub struct ItemFlatteningTable {
    pub pairs: Vec<(i16, u32)>,
}

/// Block states: the older id and its four metadata bits as one number.
pub struct BlockFlatteningTable {
    pub pairs: Vec<(u32, u32)>,
}

/// The newer id of the first pair with the older id.
pub open spec fn newer_item(pairs: Seq<(i16, u32)>, id: i16) -> Option<u32>
    decreases pairs.len(),
{
    if pairs.len() == 0 {
        None
    } else if pairs[0].0 == id {
        Some(pairs[0].1)
    } else {
        newer_item(pairs.skip(1), id)
    }
}

/// The older id of the first pair with the newer id.
pub open spec fn older_item(pairs: Seq<(i16, u32)>, id: u32) -> Option<i16>
    decreases pairs.len(),
{
    if pairs.len() == 0 {
        None
    } else if pairs[0].1 == id {
        Some(pairs[0].0)
    } else {
        older_item(pairs.skip(1), id)
    }
}

/// The newer state of the first pair with the older state.
pub open spec fn newer_block(pairs: Seq<(u32, u32)>, state: u32) -> Option<u32>
    decreases pairs.len(),
{
    if pairs.len() == 0 {
        None
    } else if pairs[0].0 == state {
        Some(pairs[0].1)
    } else {
        newer_block(pairs.skip(1), state)
    }
}

/// The older state of the first pair with the newer state.
pub open spec fn older_block(pairs: Seq<(u32, u32)>, state: u32) -> Option<u32>
    decreases pairs.len(),
{
    if pairs.len() == 0 {
        None
    } else if pairs[0].1 == state {
        Some(pairs[0].0)
    } else {
        older_block(pairs.skip(1), state)
    }
}

impl ItemFlatteningTable {
    /// A table without pairs, which knows no item. The pairs of the releases come in through the
    /// field.
    pub fn new() -> (t: Self)
        ensures
            t.pairs@.len() == 0,
    {
        ItemFlatteningTable { pairs: Vec::new() }
    }

    /// The newer id for an older one.
    pub fn legacy_to_modern(&self, id: i16) -> (r: Option<u32>)
        ensures
            r == newer_item(self.pairs@, id),
    {
        let mut i: usize = 0;
        assert(self.pairs@.skip(0) =~= self.pairs@);
        while i < self.pairs.len()
            invariant
                i <= self.pairs.len(),
                newer_item(self.pairs@, id) == newer_item(self.pairs@.skip(i as int), id),
            decreases self.pairs.len() - i,
        {
            if self.pairs[i].0 == id {
                return Some(self.pairs[i].1);
            }
            assert(self.pairs@.skip(i as int).skip(1) =~= self.pairs@.skip(i + 1));
            i = i + 1;
        }
        None
    }

    /// The older id for a newer one.
    pub fn modern_to_legacy(&self, id: u32) -> (r: Option<i16>)
        ensures
            r == older_item(self.pairs@, id),
    {
        let mut i: usize = 0;
        assert(self.pairs@.skip(0) =~= self.pairs@);
        while i < self.pairs.len()
            invariant
                i <= self.pairs.len(),
                older_item(self.pairs@, id) == older_item(self.pairs@.skip(i as int), id),
            decreases self.pairs.len() - i,
        {
            if self.pairs[i].1 == id {
                return Some(self.pairs[i].0);
            }
            assert(self.pairs@.skip(i as int).skip(1) =~= self.pairs@.skip(i + 1));
            i = i + 1;
        }
        None
    }
}

impl BlockFlatteningTable {
    /// A table without pairs, which knows no block. The pairs of the releases come in through the
    /// field.
    pub fn new() -> (t: Self)
        ensures
            t.pairs@.len() == 0,
    {
        BlockFlatteningTable { pairs: Vec::new() }
    }

    /// The newer state for an older one.
    pub fn legacy_to_modern(&self, state: u32) -> (r: Option<u32>)
        ensures
            r == newer_block(self.pairs@, state),
    {
        let mut i: usize = 0;
        assert(self.pairs@.skip(0) =~= self.pairs@);
        while i < self.pairs.len()
            invariant
                i <= self.pairs.len(),
                newer_block(self.pairs@, state) == newer_block(self.pairs@.skip(i as int), state),
            decreases self.pairs.len() - i,
        {
            if self.pairs[i].0 == state {
                return Some(self.pairs[i].1);
            }
            assert(self.pairs@.skip(i as int).skip(1) =~= self.pairs@.skip(i + 1));
            i = i + 1;
        }
        None
    }

    /// The older state for a newer one.
    pub fn modern_to_legacy(&self, state: u32) -> (r: Option<u32>)
        ensures
            r == older_block(self.pairs@, state),
    {
        let mut i: usize = 0;
        assert(self.pairs@.skip(0) =~= self.pairs@);
        while i < self.pairs.len()
            invariant
                i <= self.pairs.len(),
                older_block(self.pairs@, state) == older_block(self.pairs@.skip(i as int), state),
            decreases self.pairs.len() - i,
        {
            if self.pairs[i].1 == state {
                return Some(self.pairs[i].0);
            }
            assert(self.pairs@.skip(i as int).skip(1) =~= self.pairs@.skip(i + 1));
            i = i + 1;
        }
        None
    }
}

/// The tables that converters look ids up in.
pub struct Flattening {
    pub items: ItemFlatteningTable,
    pub blocks: BlockFlatteningTable,
}

impl Flattening {
    /// Tables without pairs, which know nothing. The pairs of the releases come in through the
    /// fields.
    pub fn new() -> (t: Self)
        ensures
            t.items.pairs@.len() == 0,
            t.blocks.pairs@.len() == 0,
    {
        Flattening { items: ItemFlatteningTable::new(), blocks: BlockFlatteningTable::new() }
    }
}

// Laws.

/// The newer id of an item is that of the first pair with its older id; where no pair has it, there is none.
pub proof fn first_newer_item(pairs: Seq<(i16, u32)>, id: i16, i: int)
    requires
        0 <= i <= pairs.len(),
        forall|j: int| 0 <= j < i ==> (#[trigger] pairs[j]).0 != id,
    ensures
        i < pairs.len() && pairs[i].0 == id ==> newer_item(pairs, id) == Some(pairs[i].1),
        i == pairs.len() ==> newer_item(pairs, id) is None,
    decreases i,
{
    if i > 0 {
        let rest = pairs.skip(1);
        assert(pairs[0].0 != id);
        assert forall|j: int| 0 <= j < i - 1 implies (#[trigger] rest[j]).0 != id by {
            assert(rest[j] == pairs[j + 1]);
        }
        first_newer_item(rest, id, i - 1);
    }
}

/// The older id of an item is that of the first pair with its newer id; where no pair has it, there is none.
pub proof fn first_older_item(pairs: Seq<(i16, u32)>, id: u32, i: int)
    requires
        0 <= i <= pairs.len(),
        forall|j: int| 0 <= j < i ==> (#[trigger] pairs[j]).1 != id,
    ensures
        i < pairs.len() && pairs[i].1 == id ==> older_item(pairs, id) == Some(pairs[i].0),
        i == pairs.len() ==> older_item(pairs, id) is None,
    decreases i,
{
    if i > 0 {
        let rest = pairs.skip(1);
        assert(pairs[0].1 != id);
        assert forall|j: int| 0 <= j < i - 1 implies (#[trigger] rest[j]).1 != id by {
            assert(rest[j] == pairs[j + 1]);
        }
        first_older_item(rest, id, i - 1);
    }
}

/// The newer state of a block is that of the first pair with its older state; where no pair has it, there is none.
pub proof fn first_newer_block(pairs: Seq<(u32, u32)>, id: u32, i: int)
    requires
        0 <= i <= pairs.len(),
        forall|j: int| 0 <= j < i ==> (#[trigger] pairs[j]).0 != id,
    ensures
        i < pairs.len() && pairs[i].0 == id ==> newer_block(pairs, id) == Some(pairs[i].1),
        i == pairs.len() ==> newer_block(pairs, id) is None,
    decreases i,
{
    if i > 0 {
        let rest = pairs.skip(1);
        assert(pairs[0].0 != id);
        assert forall|j: int| 0 <= j < i - 1 implies (#[trigger] rest[j]).0 != id by {
            assert(rest[j] == pairs[j + 1]);
        }
        first_newer_block(rest, id, i - 1);
    }
}

/// The older state of a block is that of the first pair with its newer state; where no pair has it, there is none.
pub proof fn first_older_block(pairs: Seq<(u32, u32)>, id: u32, i: int)
    requires
        0 <= i <= pairs.len(),
        forall|j: int| 0 <= j < i ==> (#[trigger] pairs[j]).1 != id,
    ensures
        i < pairs.len() && pairs[i].1 == id ==> older_block(pairs, id) == Some(pairs[i].0),
        i == pairs.len() ==> older_block(pairs, id) is None,
    decreases i,
{
    if i > 0 {
        let rest = pairs.skip(1);
        assert(pairs[0].1 != id);
        assert forall|j: int| 0 <= j < i - 1 implies (#[trigger] rest[j]).1 != id by {
            assert(rest[j] == pairs[j + 1]);
        }
        first_older_block(rest, id, i - 1);
    }
}

} // verus!
