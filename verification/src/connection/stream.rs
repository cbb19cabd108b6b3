//! A client's stream, which turns from plain to encrypted in the middle of a login, and to
//! which bytes that were read too early can be given back.

use crate::connection::cipher::{decrypted, encrypted, fed_all, EncryptedStream, WriteZero};
use std::collections::VecDeque;
use vstd::prelude::*;

verus! {

/// What lies under a stream. It is empty while the relay holds the socket.
pub enum McStreamKind {
    Empty,
    Plain,
    Encrypted(EncryptedStream),
}

/// A stream and the bytes that the next reads take before the socket is asked.
pub struct McStream {
    kind: McStreamKind,
    prefix: VecDeque<u8>,
}

/// Where the next read takes its bytes from.
#[derive(Clone, Copy, PartialEq, Eq, Debug)]
pub enum Source {
    Prefix,
    Nothing,
    Plain,
    Encrypted,
}

impl McStream {
    /// What lies under the stream.
    pub closed spec fn kind(&self) -> McStreamKind {
        self.kind
    }

    /// The bytes that were given back.
    pub closed spec fn prefix(&self) -> Seq<u8> {
        self.prefix@
    }

    /// An encrypted stream has well-formed ciphers.
    pub open spec fn wf(&self) -> bool {
        self.kind() matches McStreamKind::Encrypted(s) ==> s.wf()
    }

    /// A plain stream.
    pub fn plain() -> (s: Self)
        ensures
            s.kind() is Plain,
            s.prefix() == Seq::<u8>::empty(),
    {
        McStream { kind: McStreamKind::Plain, prefix: VecDeque::new() }
    }

    /// A stream with nothing under it.
    pub fn empty() -> (s: Self)
        ensures
            s.kind() is Empty,
            s.prefix() == Seq::<u8>::empty(),
    {
        McStream { kind: McStreamKind::Empty, prefix: VecDeque::new() }
    }

    /// Gives bytes back: the next reads take them before anything else, what was given back
    /// before and then the socket behind them.
    pub fn push_prefix(&mut self, bytes: &[u8])
        ensures
            final(self).prefix() == bytes@ + old(self).prefix(),
            final(self).kind() == old(self).kind(),
    {
        let mut i: usize = bytes.len();
        assert(bytes@.skip(i as int) + self.prefix() =~= self.prefix());
        while i > 0
            invariant
                i <= bytes.len(),
                self.prefix() == bytes@.skip(i as int) + old(self).prefix(),
                self.kind() == old(self).kind(),
            decreases i,
        {
            i = i - 1;
            self.prefix.push_front(bytes[i]);
            assert(self.prefix() =~= bytes@.skip(i as int) + old(self).prefix());
        }
        assert(bytes@.skip(0) =~= bytes@);
    }

    /// Turns a plain stream into an encrypted one. What was given back stays: it was plain
    /// when it was read. A stream that is encrypted already stays as it is.
    pub fn enable_encryption(&mut self, key: &[u8])
        requires
            old(self).kind() !is Empty,
            old(self).kind() is Plain ==> key@.len() == 16,
            old(self).wf(),
        ensures
            final(self).wf(),
            final(self).prefix() == old(self).prefix(),
            old(self).kind() is Encrypted ==> final(self).kind() == old(self).kind(),
            old(self).kind() is Plain ==> (final(self).kind() matches McStreamKind::Encrypted(s) && {
                &&& s.enc().key() == key@
                &&& s.enc().register() == key@
                &&& s.dec().key() == key@
                &&& s.dec().register() == key@
                &&& s.waiting() == Seq::<u8>::empty()
            }),
    {
        match self.kind {
            McStreamKind::Plain => {
                self.kind = McStreamKind::Encrypted(EncryptedStream::new(key));
            },
            _ => {},
        }
    }

    /// Where the next read takes its bytes from: what was given back comes first.
    pub fn source(&self) -> (s: Source)
        ensures
            s == if self.prefix().len() > 0 {
                Source::Prefix
            } else {
                match self.kind() {
                    McStreamKind::Empty => Source::Nothing,
                    McStreamKind::Plain => Source::Plain,
                    McStreamKind::Encrypted(_) => Source::Encrypted,
                }
            },
    {
        if self.prefix.len() > 0 {
            Source::Prefix
        } else {
            match &self.kind {
                McStreamKind::Empty => Source::Nothing,
                McStreamKind::Plain => Source::Plain,
                McStreamKind::Encrypted(_) => Source::Encrypted,
            }
        }
    }

    /// Takes at most `n` of the bytes that were given back, the first first.
    pub fn take_prefix(&mut self, n: usize) -> (v: Vec<u8>)
        ensures
            final(self).kind() == old(self).kind(),
            ({
                let k = if n < old(self).prefix().len() { n as int } else { old(self).prefix().len() as int };
                &&& v@ == old(self).prefix().take(k)
                &&& final(self).prefix() == old(self).prefix().skip(k)
            }),
    {
        let ghost all = self.prefix();
        let mut v: Vec<u8> = Vec::new();
        assert(all.skip(0) =~= all);
        while v.len() < n && self.prefix.len() > 0
            invariant
                v.len() <= n,
                v.len() <= all.len(),
                v@ == all.take(v.len() as int),
                self.prefix() == all.skip(v.len() as int),
                self.kind() == old(self).kind(),
                all == old(self).prefix(),
            decreases self.prefix().len(),
        {
            let ghost k = v.len() as int;
            match self.prefix.pop_front() {
                Some(b) => {
                    v.push(b);
                },
                None => {},
            }
            proof {
                assert(v@ =~= all.take(k + 1));
                assert(self.prefix() =~= all.skip(k + 1));
            }
        }
        v
    }

    /// What the socket received, as the stream's reader sees it.
    pub fn received(&mut self, data: Vec<u8>) -> (plain: Vec<u8>)
        requires
            old(self).wf(),
        ensures
            final(self).wf(),
            final(self).prefix() == old(self).prefix(),
            match old(self).kind() {
                McStreamKind::Encrypted(before) => {
                    &&& plain@ == decrypted(before.dec().key(), before.dec().register(), data@)
                    &&& final(self).kind() matches McStreamKind::Encrypted(after)
                    &&& after.dec().key() == before.dec().key()
                    &&& after.dec().register() == fed_all(before.dec().register(), data@)
                    &&& after.enc() == before.enc()
                    &&& after.waiting() == before.waiting()
                },
                _ => plain@ == data@ && final(self).kind() == old(self).kind(),
            },
    {
        match &mut self.kind {
            McStreamKind::Encrypted(s) => s.received(data),
            _ => data,
        }
    }

    /// The encrypted bytes that wait for the socket.
    pub open spec fn waiting(&self) -> Seq<u8> {
        match self.kind() {
            McStreamKind::Encrypted(s) => s.waiting(),
            _ => Seq::empty(),
        }
    }

    /// Encrypts what is to be sent and lets it wait for the socket. A stream that is not
    /// encrypted takes nothing, and says so.
    pub fn send(&mut self, data: &[u8]) -> (taken: bool)
        requires
            old(self).wf(),
        ensures
            final(self).wf(),
            taken == (old(self).kind() is Encrypted),
            final(self).prefix() == old(self).prefix(),
            match old(self).kind() {
                McStreamKind::Encrypted(before) => {
                    let sealed = encrypted(before.enc().key(), before.enc().register(), data@);
                    &&& final(self).kind() matches McStreamKind::Encrypted(after)
                    &&& after.waiting() == before.waiting() + sealed
                    &&& after.enc().key() == before.enc().key()
                    &&& after.enc().register() == fed_all(before.enc().register(), sealed)
                    &&& after.dec() == before.dec()
                },
                _ => final(self).kind() == old(self).kind(),
            },
    {
        match &mut self.kind {
            McStreamKind::Encrypted(s) => {
                s.send(data);
                true
            },
            _ => false,
        }
    }

    /// The bytes to offer to the socket.
    pub fn to_write(&self) -> (v: Vec<u8>)
        ensures
            v@ == self.waiting(),
    {
        match &self.kind {
            McStreamKind::Encrypted(s) => s.to_write(),
            _ => Vec::new(),
        }
    }

    /// Notes how many of the waiting bytes the socket took. A socket that takes none of them
    /// has failed.
    pub fn wrote(&mut self, n: usize) -> (r: Result<(), WriteZero>)
        requires
            old(self).wf(),
            n <= old(self).waiting().len(),
        ensures
            final(self).wf(),
            r is Err <==> n == 0,
            final(self).waiting() == old(self).waiting().skip(n as int),
            final(self).prefix() == old(self).prefix(),
            match old(self).kind() {
                McStreamKind::Encrypted(before) => {
                    &&& final(self).kind() matches McStreamKind::Encrypted(after)
                    &&& after.enc() == before.enc()
                    &&& after.dec() == before.dec()
                },
                _ => final(self).kind() == old(self).kind(),
            },
    {
        match &mut self.kind {
            McStreamKind::Encrypted(s) => s.wrote(n),
            _ => {
                assert(old(self).waiting().skip(0) =~= old(self).waiting());
                Err(WriteZero)
            },
        }
    }
}

} // verus!
