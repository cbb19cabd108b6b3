//! Unique ids.

use vstd::prelude::*;
use vstd::utf8::encode_utf8;

verus! {

/// Whether the two halves are those of a random unique id: version 4, and the variant that
/// goes with it.
pub open spec fn is_random_uuid(id: (u64, u64)) -> bool {
    &&& id.0 / 0x1000 % 0x10 == 4
    &&& id.1 / 0x4000_0000_0000_0000 == 2
}

/// `uuid::Uuid::new_v4`, as two halves: a random unique id. Which one is left to chance.
#[verifier::external_body]
pub(crate) fn fresh_uuid() -> (id: (u64, u64))
    ensures
        is_random_uuid(id),
{
    uuid::Uuid::new_v4().as_u64_pair()
}

/// A unique id for packets that hold none: it has the form of a random one, and is written
/// nowhere.
pub(crate) fn unused_uuid() -> (id: (u64, u64))
    ensures
        is_random_uuid(id),
{
    (0x4000, 0x8000_0000_0000_0000)
}

/// The unique id of a name within a namespace, by MD5.
pub uninterp spec fn uuid_v3(namespace: u128, name: Seq<u8>) -> (u64, u64);

/// The namespace of object identifiers.
pub const NAMESPACE_OID: u128 = 0x6ba7_b812_9dad_11d1_80b4_00c0_4fd4_30c8;

/// `uuid::Uuid::new_v3`, as two halves: the unique id of a name within a namespace. Its
/// version and variant stand in it; the rest is left to its name.
#[verifier::external_body]
fn name_uuid(namespace: u128, name: &[u8]) -> (id: (u64, u64))
    ensures
        id == uuid_v3(namespace, name@),
        id.0 / 0x1000 % 0x10 == 3,
        id.1 / 0x4000_0000_0000_0000 == 2,
{
    uuid::Uuid::new_v3(&uuid::Uuid::from_u128(namespace), name).as_u64_pair()
}

/// The unique id of a player that no account stands behind.
pub open spec fn offline_id(username: Seq<char>) -> (u64, u64) {
    uuid_v3(NAMESPACE_OID, encode_utf8("OfflinePlayer:"@ + username))
}

/// The unique id of a player that no account stands behind.
pub fn offline_uuid(username: &str) -> (id: (u64, u64))
    ensures
        id == offline_id(username@),
{
    let mut name = String::from_str("OfflinePlayer:");
    name.append(username);
    name_uuid(NAMESPACE_OID, name.as_str().as_bytes())
}

} // verus!
