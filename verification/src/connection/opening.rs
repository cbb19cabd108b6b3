//! The first bytes of a connection, by which its client is known.

use crate::wire::content;
use crate::writer::Writer;
use bytes::Bytes;
use vstd::prelude::*;

verus! {

broadcast use crate::writer::empty_then;

/// What the first byte calls for.
#[derive(Clone, Copy, Debug, PartialEq, Eq, Structural)]
pub enum Opening {
    /// A server-list ping of a client before 1.7.
    LegacyPing,
    /// Perhaps a Bedrock client: the sixteen bytes that follow decide.
    MaybeBedrock,
    /// A login of a 1.6 client.
    LegacyLogin,
    /// A handshake; the byte is the first of its length and goes back to the stream.
    Handshake,
}

/// What a first byte calls for.
pub open spec fn opening_of(byte: u8) -> Opening {
    if byte == 0xFE {
        Opening::LegacyPing
    } else if byte == 0x05 {
        Opening::MaybeBedrock
    } else if byte == 0x02 {
        Opening::LegacyLogin
    } else {
        Opening::Handshake
    }
}

/// What a first byte calls for.
pub fn opening(byte: u8) -> (o: Opening)
    ensures
        o == opening_of(byte),
{
    if byte == 0xFE {
        Opening::LegacyPing
    } else if byte == 0x05 {
        Opening::MaybeBedrock
    } else if byte == 0x02 {
        Opening::LegacyLogin
    } else {
        Opening::Handshake
    }
}

/// The bytes by which RakNet marks messages outside a connection.
pub open spec fn raknet_magic() -> Seq<u8> {
    seq![
        0x00u8,
        0xff,
        0xff,
        0x00,
        0xfe,
        0xfe,
        0xfe,
        0xfe,
        0xfd,
        0xfd,
        0xfd,
        0xfd,
        0x12,
        0x34,
        0x56,
        0x78,
    ]
}

/// The bytes by which RakNet marks messages outside a connection.
fn magic() -> (v: Vec<u8>)
    ensures
        v@ == raknet_magic(),
{
    let v: Vec<u8> = vec![
        0x00, 0xff, 0xff, 0x00, 0xfe, 0xfe, 0xfe, 0xfe, 0xfd, 0xfd, 0xfd, 0xfd, 0x12, 0x34, 0x56, 0x78,
    ];
    assert(v@ =~= raknet_magic());
    v
}

/// Whether the bytes behind a 0x05 are those of a Bedrock client. Bytes that did not come
/// in time are no Bedrock client's.
pub fn looks_like_bedrock(probe: Option<&Vec<u8>>) -> (r: bool)
    ensures
        r == (probe matches Some(p) && p@ == raknet_magic()),
{
    match probe {
        None => false,
        Some(p) => {
            let known: Vec<u8> = magic();
            if p.len() != known.len() {
                return false;
            }
            let mut i: usize = 0;
            while i < known.len()
                invariant
                    i <= known.len(),
                    known@ == raknet_magic(),
                    probe == Some(p),
                    p@.len() == known@.len(),
                    forall|j: int| 0 <= j < i ==> p@[j] == known@[j],
                decreases known.len() - i,
            {
                if p[i] != known[i] {
                    return false;
                }
                i = i + 1;
            }
            assert(p@ =~= raknet_magic());
            true
        },
    }
}

/// What a Bedrock client is told: that no version of its protocol is spoken here.
pub open spec fn bedrock_farewell() -> Seq<u8> {
    seq![0x19u8, 0x00] + raknet_magic() + seq![0u8, 0, 0, 0, 0, 0, 0, 0]
}

/// What a Bedrock client is told: that no version of its protocol is spoken here.
pub fn bedrock_reply() -> (b: Bytes)
    ensures
        content(b) == bedrock_farewell(),
{
    let mut w = Writer::new();
    w.u8(0x19);
    w.u8(0);
    w.raw(magic().as_slice());
    w.i64(0);
    proof {
        assert(crate::wire::be_i64(0) =~= seq![0u8, 0, 0, 0, 0, 0, 0, 0]) by {
            assert(crate::wire::be64(0) =~= seq![0u8, 0, 0, 0, 0, 0, 0, 0]);
        }
        assert(w@ =~= bedrock_farewell());
    }
    w.freeze()
}

/// How a connection starts when a load balancer may speak before the client.
#[derive(Clone, Copy, Debug, PartialEq, Eq, Structural)]
pub enum ProxyHeader {
    /// The client speaks at once.
    Absent,
    /// A header may come first.
    Optional,
    /// A header must come first.
    Required,
}

/// Whether a header is expected, by the two settings for it.
pub fn proxy_header(enabled: bool, optional: bool) -> (h: ProxyHeader)
    ensures
        h == if !enabled {
            ProxyHeader::Absent
        } else if optional {
            ProxyHeader::Optional
        } else {
            ProxyHeader::Required
        },
{
    if !enabled {
        ProxyHeader::Absent
    } else if optional {
        ProxyHeader::Optional
    } else {
        ProxyHeader::Required
    }
}

/// What came of one more read of a legacy ping.
#[derive(Clone, Copy, Debug, PartialEq, Eq, Structural)]
pub enum Drained {
    /// So many bytes, none at the end.
    Bytes(usize),
    /// The socket failed.
    Failed,
    /// Nothing came in time.
    Late,
}

/// How many bytes of a legacy ping are read at most before it is answered.
pub const PING_DRAIN: usize = 1024;

/// Takes note of one more read of a legacy ping, of which `total` bytes came before: the
/// bytes there are now, and whether to read on. All that a client sends is read before it
/// is answered, up to a bound.
pub fn drain(total: usize, read: Drained) -> (r: (usize, bool))
    requires
        total < PING_DRAIN,
        read matches Drained::Bytes(n) ==> total + n <= usize::MAX,
    ensures
        r == match read {
            Drained::Bytes(n) => ((total + n) as usize, 0 < n && total + n < PING_DRAIN),
            _ => (total, false),
        },
        r.1 ==> r.0 < PING_DRAIN,
{
    match read {
        Drained::Bytes(n) => (total + n, n > 0 && total + n < PING_DRAIN),
        Drained::Failed | Drained::Late => (total, false),
    }
}

} // verus!
