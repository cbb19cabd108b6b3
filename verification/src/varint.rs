//! Variable-length integers: seven bits a byte, least significant group first,
//! the top bit set on every byte but the last, at most five bytes.

use vstd::prelude::*;

verus! {

/// The most bytes that one integer takes.
pub const MAX_VARINT_BYTES: u8 = 5;

/// The encoding of the unsigned integer `u`.
pub open spec fn varint_bytes(u: nat) -> Seq<u8>
    decreases u,
{
    if u < 0x80 {
        seq![u as u8]
    } else {
        seq![(u % 0x80 + 0x80) as u8] + varint_bytes(u / 0x80)
    }
}

/// The encoding of the signed integer `x`: that of its 32-bit pattern.
pub open spec fn varint(x: i32) -> Seq<u8> {
    varint_bytes((x as u32) as nat)
}

/// The groups that stand at `p`, within `left` bytes: the number they spell and the
/// position behind them. `None` where no byte with a clear top bit comes in time.
pub open spec fn varint_groups(s: Seq<u8>, p: int, left: nat) -> Option<(nat, int)>
    decreases left,
{
    if left == 0 || p < 0 || p >= s.len() {
        None
    } else if s[p] < 0x80 {
        Some((s[p] as nat, p + 1))
    } else {
        match varint_groups(s, p + 1, (left - 1) as nat) {
            Some((v, end)) => Some(((s[p] - 0x80) as nat + 0x80 * v, end)),
            None => None,
        }
    }
}

/// The signed integer that stands at `p`, and the position behind it. Bits past the
/// thirty-second are dropped.
pub open spec fn varint_at(s: Seq<u8>, p: int) -> Option<(i32, int)> {
    match varint_groups(s, p, MAX_VARINT_BYTES as nat) {
        Some((v, end)) => Some((((v % 0x1_0000_0000) as u32) as i32, end)),
        None => None,
    }
}

/// The number of values that `n` groups can spell.
pub open spec fn group_limit(n: nat) -> nat
    decreases n,
{
    if n == 0 {
        1
    } else {
        0x80 * group_limit((n - 1) as nat)
    }
}

/// Where groups stand at `p` they end inside the sequence, and within `left` bytes.
pub proof fn varint_groups_bounds(s: Seq<u8>, p: int, left: nat)
    ensures
        varint_groups(s, p, left) matches Some((v, end)) ==> {
            &&& 0 <= p < end <= s.len()
            &&& end <= p + left
            &&& v < group_limit(left)
        },
    decreases left,
{
    if left > 0 && 0 <= p < s.len() {
        if s[p] < 0x80 {
            group_limit_positive((left - 1) as nat);
        } else {
            varint_groups_bounds(s, p + 1, (left - 1) as nat);
        }
    }
}

proof fn group_limit_positive(n: nat)
    ensures
        group_limit(n) >= 1,
    decreases n,
{
    if n > 0 {
        group_limit_positive((n - 1) as nat);
    }
}

/// A five-group number stays below two to the thirty-fifth.
pub proof fn group_limit_of_five()
    ensures
        group_limit(5) == 0x8_0000_0000,
{
    reveal_with_fuel(group_limit, 6);
}

/// An integer that stands at `p` ends inside the sequence.
pub proof fn varint_at_bounds(s: Seq<u8>, p: int)
    ensures
        varint_at(s, p) matches Some((x, end)) ==> 0 <= p < end <= s.len() && end <= p + 5,
{
    varint_groups_bounds(s, p, MAX_VARINT_BYTES as nat);
}

/// The encoding of a number below `group_limit(left)` takes at most `left` bytes, and
/// what stands behind it does not change how it reads.
proof fn groups_of_encoding(u: nat, rest: Seq<u8>, pre: Seq<u8>, left: nat)
    requires
        left >= 1,
        u < group_limit(left),
    ensures
        varint_groups(pre + varint_bytes(u) + rest, pre.len() as int, left) == Some(
            (u, (pre.len() + varint_bytes(u).len()) as int),
        ),
    decreases left,
{
    let s = pre + varint_bytes(u) + rest;
    let p = pre.len() as int;
    assert(s[p] == varint_bytes(u)[0]);
    if u >= 0x80 {
        let head = seq![(u % 0x80 + 0x80) as u8];
        let next = pre + head;
        assert(left >= 2) by {
            reveal_with_fuel(group_limit, 2);
        }
        groups_of_encoding(u / 0x80, rest, next, (left - 1) as nat);
        assert(next + varint_bytes(u / 0x80) + rest =~= s);
        assert(s[p] == (u % 0x80 + 0x80) as u8);
        assert(0x80 * (u / 0x80) + u % 0x80 == u);
    }
}

/// Encoding an integer and decoding it gives the integer back, whatever stands before
/// and behind it.
pub proof fn varint_round_trip(x: i32, pre: Seq<u8>, rest: Seq<u8>)
    ensures
        varint_at(pre + varint(x) + rest, pre.len() as int) == Some(
            (x, (pre.len() + varint(x).len()) as int),
        ),
{
    let u = x as u32;
    group_limit_of_five();
    groups_of_encoding(u as nat, rest, pre, 5);
    assert((u as nat % 0x1_0000_0000) as u32 == u);
    assert((x as u32) as i32 == x) by (bit_vector);
}

/// The encoding of an integer takes between one and five bytes.
pub proof fn varint_len(x: i32)
    ensures
        1 <= varint(x).len() <= 5,
{
    varint_round_trip(x, Seq::empty(), Seq::empty());
    varint_at_bounds(Seq::<u8>::empty() + varint(x) + Seq::<u8>::empty(), 0);
    assert(Seq::<u8>::empty() + varint(x) + Seq::<u8>::empty() =~= varint(x));
}

/// An integer below 128 is one byte.
pub proof fn varint_small(x: i32)
    requires
        0 <= x < 0x80,
    ensures
        varint(x) == seq![x as u8],
{
    assert((x as u32) as int == x as int);
}

// Laws.

/// Groups of seven bits, the lowest first, each but the last one with the top bit set.
pub proof fn lowest_group_first(x: i32)
    ensures
        0x80 <= x < 0x4000 ==> varint(x) == seq![(x % 0x80 + 0x80) as u8, (x / 0x80) as u8],
        0x4000 <= x < 0x20_0000 ==> varint(x) == seq![
            (x % 0x80 + 0x80) as u8,
            (x / 0x80 % 0x80 + 0x80) as u8,
            (x / 0x4000) as u8,
        ],
        x < 0 ==> varint(x).len() == 5 && varint(x)[4] >= 8 && varint(x)[4] < 16,
{
    reveal_with_fuel(varint_bytes, 6);
    if x < 0 {
        let u = x as u32;
        assert(u >= 0x8000_0000) by (bit_vector)
            requires
                x < 0,
                u == x as u32,
        ;
    } else if 0x80 <= x < 0x4000 {
        assert(varint(x) =~= seq![(x % 0x80 + 0x80) as u8, (x / 0x80) as u8]);
    } else if 0x4000 <= x < 0x20_0000 {
        assert(varint(x) =~= seq![(x % 0x80 + 0x80) as u8, (x / 0x80 % 0x80 + 0x80) as u8, (x / 0x4000) as u8]);
    }
}

} // verus!
