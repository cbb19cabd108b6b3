//! The protocol versions that the proxy knows, and what they have in common.

use vstd::prelude::*;

verus! {

/// A registered release.
#[derive(Clone, Copy, PartialEq, Eq, Structural, Debug)]
pub enum ProtocolVersion {
    V1_6_4,
    V1_7_10,
    V1_8,
    V1_12_2,
    V1_13_2,
    V1_16_5,
    V1_19_4,
    V1_20_4,
    V1_21,
}

/// A run of releases that share their wire shapes.
#[derive(Clone, Copy, PartialEq, Eq, Structural, Debug)]
#[allow(non_camel_case_types)]
pub enum Epoch {
    PreNetty,
    V1_7,
    V1_8,
    V1_9_To_1_12,
    V1_13_To_1_15,
    V1_16,
    V1_17_To_1_18,
    V1_19,
    V1_20,
    V1_21Plus,
    Unknown,
}

/// A release whose packets are typed on their own.
#[derive(Clone, Copy, PartialEq, Eq, Structural, Debug)]
pub enum CanonicalVersion {
    V1_6_4,
    V1_7_10,
    V1_8,
    V1_12_2,
    V1_16_5,
    V1_19_4,
    V1_20_4,
    V1_21,
}

impl ProtocolVersion {
    /// The protocol number of the release.
    pub open spec fn spec_id(self) -> u32 {
        match self {
            ProtocolVersion::V1_6_4 => 78,
            ProtocolVersion::V1_7_10 => 5,
            ProtocolVersion::V1_8 => 47,
            ProtocolVersion::V1_12_2 => 340,
            ProtocolVersion::V1_13_2 => 404,
            ProtocolVersion::V1_16_5 => 754,
            ProtocolVersion::V1_19_4 => 762,
            ProtocolVersion::V1_20_4 => 765,
            ProtocolVersion::V1_21 => 767,
        }
    }

    /// The protocol number of the release.
    pub fn id(self) -> (n: u32)
        ensures
            n == self.spec_id(),
    {
        match self {
            ProtocolVersion::V1_6_4 => 78,
            ProtocolVersion::V1_7_10 => 5,
            ProtocolVersion::V1_8 => 47,
            ProtocolVersion::V1_12_2 => 340,
            ProtocolVersion::V1_13_2 => 404,
            ProtocolVersion::V1_16_5 => 754,
            ProtocolVersion::V1_19_4 => 762,
            ProtocolVersion::V1_20_4 => 765,
            ProtocolVersion::V1_21 => 767,
        }
    }

    /// The place of the release among the registered ones, oldest first. Protocol numbers
    /// do not order the releases: they were counted anew with 1.7.
    pub open spec fn spec_release(self) -> int {
        match self {
            ProtocolVersion::V1_6_4 => 0,
            ProtocolVersion::V1_7_10 => 1,
            ProtocolVersion::V1_8 => 2,
            ProtocolVersion::V1_12_2 => 3,
            ProtocolVersion::V1_13_2 => 4,
            ProtocolVersion::V1_16_5 => 5,
            ProtocolVersion::V1_19_4 => 6,
            ProtocolVersion::V1_20_4 => 7,
            ProtocolVersion::V1_21 => 8,
        }
    }

    /// Whether the release came after 1.8.
    pub fn newer_than_1_8(self) -> (r: bool)
        ensures
            r == (self.spec_release() > ProtocolVersion::V1_8.spec_release()),
    {
        match self {
            ProtocolVersion::V1_6_4 | ProtocolVersion::V1_7_10 | ProtocolVersion::V1_8 => false,
            _ => true,
        }
    }

    /// Whether the release came after 1.16.5.
    pub fn newer_than_1_16_5(self) -> (r: bool)
        ensures
            r == (self.spec_release() > ProtocolVersion::V1_16_5.spec_release()),
    {
        match self {
            ProtocolVersion::V1_19_4 | ProtocolVersion::V1_20_4 | ProtocolVersion::V1_21 => true,
            _ => false,
        }
    }

    /// The epoch that the release falls in.
    pub open spec fn spec_epoch(self) -> Epoch {
        match self {
            ProtocolVersion::V1_6_4 => Epoch::PreNetty,
            ProtocolVersion::V1_7_10 => Epoch::V1_7,
            ProtocolVersion::V1_8 => Epoch::V1_8,
            ProtocolVersion::V1_12_2 => Epoch::V1_9_To_1_12,
            ProtocolVersion::V1_13_2 => Epoch::V1_13_To_1_15,
            ProtocolVersion::V1_16_5 => Epoch::V1_16,
            ProtocolVersion::V1_19_4 => Epoch::V1_19,
            ProtocolVersion::V1_20_4 => Epoch::V1_20,
            ProtocolVersion::V1_21 => Epoch::V1_21Plus,
        }
    }

    /// The epoch that the release falls in.
    pub fn epoch(self) -> (e: Epoch)
        ensures
            e == self.spec_epoch(),
    {
        match self {
            ProtocolVersion::V1_6_4 => Epoch::PreNetty,
            ProtocolVersion::V1_7_10 => Epoch::V1_7,
            ProtocolVersion::V1_8 => Epoch::V1_8,
            ProtocolVersion::V1_12_2 => Epoch::V1_9_To_1_12,
            ProtocolVersion::V1_13_2 => Epoch::V1_13_To_1_15,
            ProtocolVersion::V1_16_5 => Epoch::V1_16,
            ProtocolVersion::V1_19_4 => Epoch::V1_19,
            ProtocolVersion::V1_20_4 => Epoch::V1_20,
            ProtocolVersion::V1_21 => Epoch::V1_21Plus,
        }
    }

    /// The release whose typed packets stand for this one's.
    pub open spec fn spec_canonical(self) -> CanonicalVersion {
        match self {
            ProtocolVersion::V1_6_4 => CanonicalVersion::V1_6_4,
            ProtocolVersion::V1_7_10 => CanonicalVersion::V1_7_10,
            ProtocolVersion::V1_8 => CanonicalVersion::V1_8,
            ProtocolVersion::V1_12_2 => CanonicalVersion::V1_12_2,
            ProtocolVersion::V1_13_2 => CanonicalVersion::V1_12_2,
            ProtocolVersion::V1_16_5 => CanonicalVersion::V1_16_5,
            ProtocolVersion::V1_19_4 => CanonicalVersion::V1_19_4,
            ProtocolVersion::V1_20_4 => CanonicalVersion::V1_20_4,
            ProtocolVersion::V1_21 => CanonicalVersion::V1_21,
        }
    }

    /// The release whose typed packets stand for this one's.
    pub fn canonical_typed_packet_version(self) -> (c: CanonicalVersion)
        ensures
            c == self.spec_canonical(),
    {
        match self {
            ProtocolVersion::V1_6_4 => CanonicalVersion::V1_6_4,
            ProtocolVersion::V1_7_10 => CanonicalVersion::V1_7_10,
            ProtocolVersion::V1_8 => CanonicalVersion::V1_8,
            ProtocolVersion::V1_12_2 | ProtocolVersion::V1_13_2 => CanonicalVersion::V1_12_2,
            ProtocolVersion::V1_16_5 => CanonicalVersion::V1_16_5,
            ProtocolVersion::V1_19_4 => CanonicalVersion::V1_19_4,
            ProtocolVersion::V1_20_4 => CanonicalVersion::V1_20_4,
            ProtocolVersion::V1_21 => CanonicalVersion::V1_21,
        }
    }
}

/// The registered release for a protocol number: the newest that is not newer. The
/// numbers 73 to 78 are those of the 1.6 releases, which precede 1.7 although their
/// numbers are higher.
pub open spec fn nearest_version(raw: u32) -> ProtocolVersion {
    if 73 <= raw <= 78 {
        ProtocolVersion::V1_6_4
    } else if raw < 47 {
        ProtocolVersion::V1_7_10
    } else if raw < 107 {
        ProtocolVersion::V1_8
    } else if raw < 393 {
        ProtocolVersion::V1_12_2
    } else if raw < 735 {
        ProtocolVersion::V1_13_2
    } else if raw < 759 {
        ProtocolVersion::V1_16_5
    } else if raw < 763 {
        ProtocolVersion::V1_19_4
    } else if raw < 767 {
        ProtocolVersion::V1_20_4
    } else {
        ProtocolVersion::V1_21
    }
}

/// The registered release for a protocol number.
pub fn nearest(raw: u32) -> (v: ProtocolVersion)
    ensures
        v == nearest_version(raw),
{
    if 73 <= raw && raw <= 78 {
        ProtocolVersion::V1_6_4
    } else if raw < 47 {
        ProtocolVersion::V1_7_10
    } else if raw < 107 {
        ProtocolVersion::V1_8
    } else if raw < 393 {
        ProtocolVersion::V1_12_2
    } else if raw < 735 {
        ProtocolVersion::V1_13_2
    } else if raw < 759 {
        ProtocolVersion::V1_16_5
    } else if raw < 763 {
        ProtocolVersion::V1_19_4
    } else if raw < 767 {
        ProtocolVersion::V1_20_4
    } else {
        ProtocolVersion::V1_21
    }
}

/// The protocol number of a registered release is nearest to the release itself.
pub proof fn nearest_of_registered(v: ProtocolVersion)
    ensures
        nearest_version(v.spec_id()) == v,
{
}

} // verus!
