//! The cipher of an encrypted connection: AES-128 with eight bits of feedback.
//!
//! Each byte is combined with the first byte of an encrypted register of sixteen bytes, and
//! the encrypted byte is shifted into the register.

use crate::wire::{
    bytes_mut_extend, bytes_mut_len, bytes_mut_new, bytes_mut_split_to, bytes_mut_to_vec, written,
};
use bytes::BytesMut;
use vstd::prelude::*;
use vstd::slice::slice_to_vec;

verus! {

/// A block that AES-128 has encrypted under a key.
pub uninterp spec fn aes128(key: Seq<u8>, block: Seq<u8>) -> Seq<u8>;

/// `aes::Aes128`, made by `KeyInit::new` and asked to `encrypt_block`: the block under the
/// key, which both have sixteen bytes, as the result has. What it is, is left to its name.
#[verifier::external_body]
fn aes128_block(key: &[u8], block: &[u8]) -> (out: Vec<u8>)
    requires
        key@.len() == 16,
        block@.len() == 16,
    ensures
        out@ == aes128(key@, block@),
        out@.len() == 16,
{
    let cipher = <aes::Aes128 as aes::cipher::KeyInit>::new(aes::cipher::generic_array::GenericArray::from_slice(key));
    let mut out = aes::cipher::generic_array::GenericArray::clone_from_slice(block);
    aes::cipher::BlockEncrypt::encrypt_block(&cipher, &mut out);
    out.to_vec()
}

/// The byte that the next one is combined with.
pub open spec fn key_byte(key: Seq<u8>, register: Seq<u8>) -> u8 {
    aes128(key, register)[0]
}

/// The register after an encrypted byte.
pub open spec fn fed(register: Seq<u8>, byte: u8) -> Seq<u8> {
    register.drop_first().push(byte)
}

/// The register after encrypted bytes.
pub open spec fn fed_all(register: Seq<u8>, bytes: Seq<u8>) -> Seq<u8>
    decreases bytes.len(),
{
    if bytes.len() == 0 {
        register
    } else {
        fed_all(fed(register, bytes[0]), bytes.drop_first())
    }
}

/// Plain bytes, encrypted.
pub open spec fn encrypted(key: Seq<u8>, register: Seq<u8>, plain: Seq<u8>) -> Seq<u8>
    decreases plain.len(),
{
    if plain.len() == 0 {
        seq![]
    } else {
        let byte = plain[0] ^ key_byte(key, register);
        seq![byte] + encrypted(key, fed(register, byte), plain.drop_first())
    }
}

/// Encrypted bytes, decrypted.
pub open spec fn decrypted(key: Seq<u8>, register: Seq<u8>, sealed: Seq<u8>) -> Seq<u8>
    decreases sealed.len(),
{
    if sealed.len() == 0 {
        seq![]
    } else {
        seq![sealed[0] ^ key_byte(key, register)] + decrypted(key, fed(register, sealed[0]), sealed.drop_first())
    }
}

/// Decrypting gives back what was encrypted, under the same key and register.
pub proof fn decrypts_what_was_encrypted(key: Seq<u8>, register: Seq<u8>, plain: Seq<u8>)
    ensures
        decrypted(key, register, encrypted(key, register, plain)) == plain,
        encrypted(key, register, plain).len() == plain.len(),
    decreases plain.len(),
{
    if plain.len() > 0 {
        let (a, k) = (plain[0], key_byte(key, register));
        let byte = a ^ k;
        assert((a ^ k) ^ k == a) by (bit_vector);
        let rest = encrypted(key, fed(register, byte), plain.drop_first());
        decrypts_what_was_encrypted(key, fed(register, byte), plain.drop_first());
        assert((seq![byte] + rest).drop_first() =~= rest);
        assert(seq![a] + plain.drop_first() =~= plain);
    }
}

/// Encrypting in two pieces gives what encrypting at once gives.
pub proof fn encrypts_piece_by_piece(key: Seq<u8>, register: Seq<u8>, first: Seq<u8>, second: Seq<u8>)
    ensures
        encrypted(key, register, first + second) == encrypted(key, register, first) + encrypted(
            key,
            fed_all(register, encrypted(key, register, first)),
            second,
        ),
    decreases first.len(),
{
    if first.len() == 0 {
        assert(first + second =~= second);
        assert(seq![] + encrypted(key, register, second) =~= encrypted(key, register, second));
    } else {
        let byte = first[0] ^ key_byte(key, register);
        let next = fed(register, byte);
        let head = encrypted(key, next, first.drop_first());
        encrypts_piece_by_piece(key, next, first.drop_first(), second);
        assert((first + second).drop_first() =~= first.drop_first() + second);
        assert((seq![byte] + head).drop_first() =~= head);
        let tail = encrypted(key, fed_all(next, head), second);
        assert(seq![byte] + (head + tail) =~= (seq![byte] + head) + tail);
    }
}

/// Decrypting in two pieces gives what decrypting at once gives.
pub proof fn decrypts_piece_by_piece(key: Seq<u8>, register: Seq<u8>, first: Seq<u8>, second: Seq<u8>)
    ensures
        decrypted(key, register, first + second) == decrypted(key, register, first) + decrypted(
            key,
            fed_all(register, first),
            second,
        ),
    decreases first.len(),
{
    if first.len() == 0 {
        assert(first + second =~= second);
        assert(seq![] + decrypted(key, register, second) =~= decrypted(key, register, second));
    } else {
        let next = fed(register, first[0]);
        let byte = first[0] ^ key_byte(key, register);
        decrypts_piece_by_piece(key, next, first.drop_first(), second);
        assert((first + second).drop_first() =~= first.drop_first() + second);
        let head = decrypted(key, next, first.drop_first());
        let tail = decrypted(key, fed_all(next, first.drop_first()), second);
        assert(seq![byte] + (head + tail) =~= (seq![byte] + head) + tail);
    }
}

/// Feeding the register in two pieces leaves what feeding it at once leaves.
proof fn fed_piece_by_piece(register: Seq<u8>, first: Seq<u8>, byte: u8)
    ensures
        fed_all(register, first.push(byte)) == fed(fed_all(register, first), byte),
    decreases first.len(),
{
    if first.len() == 0 {
        assert(first.push(byte).drop_first() =~= Seq::<u8>::empty());
        assert(fed_all(fed(register, byte), Seq::empty()) == fed(register, byte));
    } else {
        assert(first.push(byte).drop_first() =~= first.drop_first().push(byte));
        fed_piece_by_piece(fed(register, first[0]), first.drop_first(), byte);
    }
}

/// One direction of the cipher.
pub struct Cfb8State {
    key: Vec<u8>,
    sr: Vec<u8>,
}

impl Cfb8State {
    /// The key.
    pub closed spec fn key(&self) -> Seq<u8> {
        self.key@
    }

    /// The register.
    pub closed spec fn register(&self) -> Seq<u8> {
        self.sr@
    }

    /// Key and register have sixteen bytes.
    pub open spec fn wf(&self) -> bool {
        self.key().len() == 16 && self.register().len() == 16
    }

    /// A cipher that starts with the register at `iv`.
    pub fn new(key: &[u8], iv: &[u8]) -> (c: Self)
        requires
            key@.len() == 16,
            iv@.len() == 16,
        ensures
            c.wf(),
            c.key() == key@,
            c.register() == iv@,
    {
        Cfb8State { key: slice_to_vec(key), sr: slice_to_vec(iv) }
    }

    /// The byte to combine the next one with.
    fn next_key_byte(&self) -> (k: u8)
        requires
            self.wf(),
        ensures
            k == key_byte(self.key(), self.register()),
    {
        let block: Vec<u8> = aes128_block(self.key.as_slice(), self.sr.as_slice());
        block[0]
    }

    /// Shifts an encrypted byte into the register.
    fn feed(&mut self, byte: u8)
        requires
            old(self).wf(),
        ensures
            final(self).wf(),
            final(self).key() == old(self).key(),
            final(self).register() == fed(old(self).register(), byte),
    {
        self.sr.remove(0);
        self.sr.push(byte);
        assert(self.sr@ =~= fed(old(self).sr@, byte));
    }

    /// Encrypts bytes in place.
    pub fn encrypt(&mut self, data: &mut Vec<u8>)
        requires
            old(self).wf(),
        ensures
            final(self).wf(),
            final(self).key() == old(self).key(),
            final(data)@ == encrypted(old(self).key(), old(self).register(), old(data)@),
            final(self).register() == fed_all(old(self).register(), final(data)@),
    {
        let ghost plain = data@;
        let ghost start = self.register();
        let ghost key = self.key();
        let mut i: usize = 0;
        while i < data.len()
            invariant
                i <= data.len(),
                data@.len() == plain.len(),
                self.wf(),
                self.key() == key,
                data@.skip(i as int) == plain.skip(i as int),
                data@.take(i as int) == encrypted(key, start, plain.take(i as int)),
                self.register() == fed_all(start, data@.take(i as int)),
            decreases data.len() - i,
        {
            let ghost before = data@;
            let k: u8 = self.next_key_byte();
            let byte: u8 = data[i] ^ k;
            data.set(i, byte);
            self.feed(byte);
            proof {
                assert(before.skip(i as int)[0] == plain.skip(i as int)[0]);
                let done = plain.take(i as int);
                encrypts_piece_by_piece(key, start, done, seq![plain[i as int]]);
                let register = fed_all(start, encrypted(key, start, done));
                assert(seq![plain[i as int]].drop_first() =~= Seq::<u8>::empty());
                assert(encrypted(key, fed(register, byte), Seq::<u8>::empty()) == Seq::<u8>::empty());
                assert(encrypted(key, register, seq![plain[i as int]]) =~= seq![byte]);
                assert(done + seq![plain[i as int]] =~= plain.take(i + 1));
                assert(data@.take(i + 1) =~= before.take(i as int) + seq![byte]);
                assert(data@.take(i + 1) =~= before.take(i as int).push(byte));
                fed_piece_by_piece(start, before.take(i as int), byte);
                assert(data@.skip(i + 1) =~= plain.skip(i + 1)) by {
                    assert(before.skip(i as int).drop_first() =~= before.skip(i + 1));
                    assert(plain.skip(i as int).drop_first() =~= plain.skip(i + 1));
                    assert(data@.skip(i + 1) =~= before.skip(i + 1));
                }
            }
            i = i + 1;
        }
        proof {
            assert(data@.take(i as int) =~= data@);
            assert(plain.take(i as int) =~= plain);
        }
    }

    /// Decrypts bytes in place.
    pub fn decrypt(&mut self, data: &mut Vec<u8>)
        requires
            old(self).wf(),
        ensures
            final(self).wf(),
            final(self).key() == old(self).key(),
            final(data)@ == decrypted(old(self).key(), old(self).register(), old(data)@),
            final(self).register() == fed_all(old(self).register(), old(data)@),
    {
        let ghost sealed = data@;
        let ghost start = self.register();
        let ghost key = self.key();
        let mut i: usize = 0;
        while i < data.len()
            invariant
                i <= data.len(),
                data@.len() == sealed.len(),
                self.wf(),
                self.key() == key,
                data@.skip(i as int) == sealed.skip(i as int),
                data@.take(i as int) == decrypted(key, start, sealed.take(i as int)),
                self.register() == fed_all(start, sealed.take(i as int)),
            decreases data.len() - i,
        {
            let ghost before = data@;
            let k: u8 = self.next_key_byte();
            let byte: u8 = data[i];
            let plain: u8 = byte ^ k;
            data.set(i, plain);
            self.feed(byte);
            proof {
                assert(before.skip(i as int)[0] == sealed.skip(i as int)[0]);
                assert(byte == sealed[i as int]);
                let done = sealed.take(i as int);
                decrypts_piece_by_piece(key, start, done, seq![byte]);
                let register = fed_all(start, done);
                assert(seq![byte].drop_first() =~= Seq::<u8>::empty());
                assert(decrypted(key, fed(register, byte), Seq::<u8>::empty()) == Seq::<u8>::empty());
                assert(decrypted(key, register, seq![byte]) =~= seq![plain]);
                assert(done + seq![byte] =~= sealed.take(i + 1));
                assert(done.push(byte) =~= sealed.take(i + 1));
                assert(data@.take(i + 1) =~= before.take(i as int) + seq![plain]);
                fed_piece_by_piece(start, done, byte);
                assert(data@.skip(i + 1) =~= sealed.skip(i + 1)) by {
                    assert(before.skip(i as int).drop_first() =~= before.skip(i + 1));
                    assert(sealed.skip(i as int).drop_first() =~= sealed.skip(i + 1));
                    assert(data@.skip(i + 1) =~= before.skip(i + 1));
                }
            }
            i = i + 1;
        }
        proof {
            assert(data@.take(i as int) =~= data@);
            assert(sealed.take(i as int) =~= sealed);
        }
    }
}

/// Both directions of an encrypted connection, and the encrypted bytes that the socket has
/// not taken yet.
pub struct EncryptedStream {
    enc: Cfb8State,
    dec: Cfb8State,
    write_buf: BytesMut,
}

/// The socket took no byte of what was offered.
#[derive(Clone, Copy, PartialEq, Eq, Debug)]
pub struct WriteZero;

impl EncryptedStream {
    /// The cipher of what is sent.
    pub closed spec fn enc(&self) -> Cfb8State {
        self.enc
    }

    /// The cipher of what is received.
    pub closed spec fn dec(&self) -> Cfb8State {
        self.dec
    }

    /// The bytes that wait for the socket.
    pub closed spec fn waiting(&self) -> Seq<u8> {
        written(self.write_buf)
    }

    /// Both ciphers are well formed.
    pub open spec fn wf(&self) -> bool {
        self.enc().wf() && self.dec().wf()
    }

    /// A stream under a key of sixteen bytes, from which both registers start.
    pub fn new(key: &[u8]) -> (s: Self)
        requires
            key@.len() == 16,
        ensures
            s.wf(),
            s.enc().key() == key@,
            s.enc().register() == key@,
            s.dec().key() == key@,
            s.dec().register() == key@,
            s.waiting() == Seq::<u8>::empty(),
    {
        EncryptedStream { enc: Cfb8State::new(key, key), dec: Cfb8State::new(key, key), write_buf: bytes_mut_new() }
    }

    /// What the socket received, decrypted.
    pub fn received(&mut self, data: Vec<u8>) -> (plain: Vec<u8>)
        requires
            old(self).wf(),
        ensures
            final(self).wf(),
            plain@ == decrypted(old(self).dec().key(), old(self).dec().register(), data@),
            final(self).dec().key() == old(self).dec().key(),
            final(self).dec().register() == fed_all(old(self).dec().register(), data@),
            final(self).enc() == old(self).enc(),
            final(self).waiting() == old(self).waiting(),
    {
        let mut plain = data;
        self.dec.decrypt(&mut plain);
        plain
    }

    /// Encrypts what is to be sent and puts it behind what waits.
    pub fn send(&mut self, data: &[u8])
        requires
            old(self).wf(),
        ensures
            final(self).wf(),
            ({
                let sealed = encrypted(old(self).enc().key(), old(self).enc().register(), data@);
                &&& final(self).waiting() == old(self).waiting() + sealed
                &&& final(self).enc().register() == fed_all(old(self).enc().register(), sealed)
            }),
            final(self).enc().key() == old(self).enc().key(),
            final(self).dec() == old(self).dec(),
    {
        let mut sealed: Vec<u8> = slice_to_vec(data);
        self.enc.encrypt(&mut sealed);
        bytes_mut_extend(&mut self.write_buf, sealed.as_slice());
    }

    /// Whether bytes wait for the socket.
    pub fn is_waiting(&self) -> (r: bool)
        ensures
            r == (self.waiting().len() > 0),
    {
        bytes_mut_len(&self.write_buf) > 0
    }

    /// The bytes to offer to the socket.
    pub fn to_write(&self) -> (v: Vec<u8>)
        ensures
            v@ == self.waiting(),
    {
        bytes_mut_to_vec(&self.write_buf)
    }

    /// Notes how many of the waiting bytes the socket took. A socket that takes none of them
    /// has failed.
    pub fn wrote(&mut self, n: usize) -> (r: Result<(), WriteZero>)
        requires
            n <= old(self).waiting().len(),
        ensures
            r is Err <==> n == 0,
            final(self).waiting() == old(self).waiting().skip(n as int),
            final(self).enc() == old(self).enc(),
            final(self).dec() == old(self).dec(),
    {
        if n == 0 {
            assert(self.waiting().skip(0) =~= self.waiting());
            return Err(WriteZero);
        }
        bytes_mut_split_to(&mut self.write_buf, n);
        Ok(())
    }
}

/// What one end sends, however it is cut into pieces on the way, the other end receives.
pub proof fn other_end_reads_it(key: Seq<u8>, register: Seq<u8>, plain: Seq<u8>, cut: int)
    requires
        0 <= cut <= plain.len(),
    ensures
        ({
            let sealed = encrypted(key, register, plain);
            let (first, second) = (sealed.take(cut), sealed.skip(cut));
            decrypted(key, register, first) + decrypted(key, fed_all(register, first), second) == plain
        }),
{
    let sealed = encrypted(key, register, plain);
    decrypts_what_was_encrypted(key, register, plain);
    decrypts_piece_by_piece(key, register, sealed.take(cut), sealed.skip(cut));
    assert(sealed.take(cut) + sealed.skip(cut) =~= sealed);
}

} // verus!
