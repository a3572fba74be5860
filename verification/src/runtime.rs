//! Channel naming, message headers and buffering for the protocol state
//! machines.
//!
//! Every message carries a 28-byte header: a 20-byte channel tag and a
//! 64-bit waitpoint. Channel tags are derived deterministically — a fixed
//! tag for the shared channel, a hash of the sorted participant pair for a
//! private channel, and a hash of `(parent, index)` for child channels — so
//! that both ends of a conversation compute the same header without
//! negotiation. Waitpoints count up locally within a channel handle.

use vstd::prelude::*;
use crate::protocol::{Participant, Message, MessageData, clone_bytes};
use crate::scalars::bytes_eq;

verus! {

/// The number of bytes in a channel tag.
pub const TAG_SIZE: usize = 20;

/// The number of bytes in a message header.
pub const HEADER_SIZE: usize = 28;

/// The tag of the private root channel of a (sorted) pair of participants,
/// as the sponge derives it.
pub uninterp spec fn private_root_of(lo: u32, hi: u32) -> Seq<u8>;

/// The tag of the `i`-th child of a channel, as the sponge derives it.
pub uninterp spec fn child_of(parent: Seq<u8>, i: u64) -> Seq<u8>;

/// The fixed tag of the shared root channel.
pub open spec fn shared_root_spec() -> Seq<u8> {
    seq![
        0x73u8, 0x68u8, 0x61u8, 0x72u8, 0x65u8, 0x64u8, 0x20u8, 0x72u8, 0x6fu8, 0x6fu8,
        0x74u8, 0x20u8, 0x63u8, 0x68u8, 0x61u8, 0x6eu8, 0x6eu8, 0x65u8, 0x6cu8, 0x2eu8,
    ]
}

/// The fixed 20-byte tag of the shared root channel (the ASCII text
/// `shared root channel.`).
pub fn shared_root_tag() -> (r: Vec<u8>)
    ensures
        r@ == shared_root_spec(),
        r@.len() == TAG_SIZE,
{
    let mut out: Vec<u8> = Vec::new();
    out.push(0x73);
    out.push(0x68);
    out.push(0x61);
    out.push(0x72);
    out.push(0x65);
    out.push(0x64);
    out.push(0x20);
    out.push(0x72);
    out.push(0x6f);
    out.push(0x6f);
    out.push(0x74);
    out.push(0x20);
    out.push(0x63);
    out.push(0x68);
    out.push(0x61);
    out.push(0x6e);
    out.push(0x6e);
    out.push(0x65);
    out.push(0x6c);
    out.push(0x2e);
    proof {
        assert(out@ =~= shared_root_spec());
    }
    out
}

/// Relies on `ck_meow::Meow`: the private-root tag is 20 sponge bytes over
/// the sorted pair of participant identifiers, a deterministic function of
/// the pair.
#[verifier::external_body]
fn private_root_compute(lo: u32, hi: u32) -> (r: Vec<u8>)
    ensures
        r@ == private_root_of(lo, hi),
        r@.len() == TAG_SIZE,
{
    let mut meow = ck_meow::Meow::new(b"cait-sith channel tags");
    meow.meta_ad(b"root private", false);
    meow.meta_ad(b"p0", false);
    meow.ad(&lo.to_le_bytes(), false);
    meow.meta_ad(b"p1", false);
    meow.ad(&hi.to_le_bytes(), false);
    let mut out = vec![0u8; 20];
    meow.prf(&mut out, false);
    out
}

/// Relies on `ck_meow::Meow`: a child tag is 20 sponge bytes over the
/// parent tag and the child index, a deterministic function of both.
#[verifier::external_body]
fn child_compute(parent: &Vec<u8>, i: u64) -> (r: Vec<u8>)
    ensures
        r@ == child_of(parent@, i),
        r@.len() == TAG_SIZE,
{
    let mut meow = ck_meow::Meow::new(b"cait-sith channel tags");
    meow.meta_ad(b"parent", false);
    meow.ad(parent, false);
    meow.meta_ad(b"i", false);
    meow.ad(&i.to_le_bytes(), false);
    let mut out = vec![0u8; 20];
    meow.prf(&mut out, false);
    out
}

/// The little-endian bytes of a 64-bit value.
pub open spec fn u64_le_bytes(x: u64) -> Seq<u8> {
    seq![
        (x & 0xff) as u8,
        ((x >> 8) & 0xff) as u8,
        ((x >> 16) & 0xff) as u8,
        ((x >> 24) & 0xff) as u8,
        ((x >> 32) & 0xff) as u8,
        ((x >> 40) & 0xff) as u8,
        ((x >> 48) & 0xff) as u8,
        ((x >> 56) & 0xff) as u8,
    ]
}

/// Append the little-endian bytes of a 64-bit value.
pub fn push_u64_le(out: &mut Vec<u8>, x: u64)
    ensures
        final(out)@ == old(out)@ + u64_le_bytes(x),
{
    out.push((x & 0xff) as u8);
    out.push(((x >> 8) & 0xff) as u8);
    out.push(((x >> 16) & 0xff) as u8);
    out.push(((x >> 24) & 0xff) as u8);
    out.push(((x >> 32) & 0xff) as u8);
    out.push(((x >> 40) & 0xff) as u8);
    out.push(((x >> 48) & 0xff) as u8);
    out.push(((x >> 56) & 0xff) as u8);
    proof {
        assert(out@ =~= old(out)@ + u64_le_bytes(x));
    }
}

/// Read back the little-endian bytes of a 64-bit value.
pub fn read_u64_le(b: &Vec<u8>, at: usize) -> (r: u64)
    requires
        at + 8 <= b@.len(),
    ensures
        u64_le_bytes(r) == b@.subrange(at as int, at as int + 8),
{
    let n = b.len();
    proof {
        assert(at + 8 <= n);
    }
    let r = (b[at] as u64)
        | (b[at + 1] as u64) << 8
        | (b[at + 2] as u64) << 16
        | (b[at + 3] as u64) << 24
        | (b[at + 4] as u64) << 32
        | (b[at + 5] as u64) << 40
        | (b[at + 6] as u64) << 48
        | (b[at + 7] as u64) << 56;
    proof {
        let b0 = b@[at as int];
        let b1 = b@[at as int + 1];
        let b2 = b@[at as int + 2];
        let b3 = b@[at as int + 3];
        let b4 = b@[at as int + 4];
        let b5 = b@[at as int + 5];
        let b6 = b@[at as int + 6];
        let b7 = b@[at as int + 7];
        assert(u64_le_bytes(r) =~= b@.subrange(at as int, at as int + 8)) by {
            lemma_u64_le_decompose(b0, b1, b2, b3, b4, b5, b6, b7);
        }
    }
    r
}

proof fn lemma_u64_le_decompose(b0: u8, b1: u8, b2: u8, b3: u8, b4: u8, b5: u8, b6: u8, b7: u8)
    ensures
        ({
            let x = (b0 as u64)
                | (b1 as u64) << 8
                | (b2 as u64) << 16
                | (b3 as u64) << 24
                | (b4 as u64) << 32
                | (b5 as u64) << 40
                | (b6 as u64) << 48
                | (b7 as u64) << 56;
            &&& (x & 0xff) as u8 == b0
            &&& ((x >> 8) & 0xff) as u8 == b1
            &&& ((x >> 16) & 0xff) as u8 == b2
            &&& ((x >> 24) & 0xff) as u8 == b3
            &&& ((x >> 32) & 0xff) as u8 == b4
            &&& ((x >> 40) & 0xff) as u8 == b5
            &&& ((x >> 48) & 0xff) as u8 == b6
            &&& ((x >> 56) & 0xff) as u8 == b7
        }),
{
    assert(({
        let x = (b0 as u64)
            | (b1 as u64) << 8
            | (b2 as u64) << 16
            | (b3 as u64) << 24
            | (b4 as u64) << 32
            | (b5 as u64) << 40
            | (b6 as u64) << 48
            | (b7 as u64) << 56;
        &&& (x & 0xff) == b0
        &&& ((x >> 8) & 0xff) == b1
        &&& ((x >> 16) & 0xff) == b2
        &&& ((x >> 24) & 0xff) == b3
        &&& ((x >> 32) & 0xff) == b4
        &&& ((x >> 40) & 0xff) == b5
        &&& ((x >> 48) & 0xff) == b6
        &&& ((x >> 56) & 0xff) == b7
    })) by (bit_vector);
}

/// A header routing a message: a channel tag plus a waitpoint within the
/// channel.
#[derive(Debug)]
pub struct MessageHeader {
    tag: Vec<u8>,
    waitpoint: u64,
}

impl MessageHeader {
    /// The channel tag.
    pub closed spec fn tag_spec(self) -> Seq<u8> {
        self.tag@
    }

    /// The waitpoint within the channel.
    pub closed spec fn waitpoint_spec(self) -> u64 {
        self.waitpoint
    }

    /// A tag is always 20 bytes.
    #[verifier::type_invariant]
    pub closed spec fn inv(self) -> bool {
        self.tag@.len() == TAG_SIZE
    }

    /// The header's byte encoding: tag, then waitpoint.
    pub open spec fn enc(self) -> Seq<u8> {
        self.tag_spec() + u64_le_bytes(self.waitpoint_spec())
    }

    /// A fresh header on a channel, at waitpoint zero.
    pub fn new(tag: Vec<u8>) -> (r: MessageHeader)
        requires
            tag@.len() == TAG_SIZE,
        ensures
            r.tag_spec() == tag@,
            r.waitpoint_spec() == 0,
    {
        MessageHeader { tag, waitpoint: 0 }
    }

    /// Encode this header as bytes.
    pub fn to_bytes(&self) -> (r: Vec<u8>)
        ensures
            r@ == self.enc(),
            r@.len() == HEADER_SIZE,
    {
        proof {
            use_type_invariant(self);
        }
        let mut out = clone_bytes(&self.tag);
        push_u64_le(&mut out, self.waitpoint);
        out
    }

    /// Decode a header from the front of a message.
    ///
    /// Succeeds exactly on buffers of at least 28 bytes, and returns the
    /// header whose encoding is the buffer's first 28 bytes.
    pub fn from_bytes(bytes: &Vec<u8>) -> (r: Option<MessageHeader>)
        ensures
            r is Some <==> bytes@.len() >= HEADER_SIZE,
            r matches Some(h) ==> h.enc() == bytes@.subrange(0, HEADER_SIZE as int),
    {
        if bytes.len() < HEADER_SIZE {
            return None;
        }
        let mut tag: Vec<u8> = Vec::new();
        let mut i: usize = 0;
        while i < TAG_SIZE
            invariant
                i <= TAG_SIZE,
                bytes@.len() >= HEADER_SIZE,
                tag@ == bytes@.subrange(0, i as int),
            decreases TAG_SIZE - i,
        {
            tag.push(bytes[i]);
            proof {
                assert(tag@ =~= bytes@.subrange(0, i + 1));
            }
            i = i + 1;
        }
        let waitpoint = read_u64_le(bytes, TAG_SIZE);
        let h = MessageHeader { tag, waitpoint };
        proof {
            assert(h.enc() =~= bytes@.subrange(0, HEADER_SIZE as int));
        }
        Some(h)
    }

    /// This header with another waitpoint.
    pub fn with_waitpoint(&self, waitpoint: u64) -> (r: MessageHeader)
        ensures
            r.tag_spec() == self.tag_spec(),
            r.waitpoint_spec() == waitpoint,
    {
        proof {
            use_type_invariant(self);
        }
        MessageHeader { tag: clone_bytes(&self.tag), waitpoint }
    }

    /// Take the next waitpoint on this channel: the `n`-th call on a handle
    /// starting at zero returns `n`.
    pub fn next_waitpoint(&mut self) -> (r: u64)
        requires
            old(self).waitpoint_spec() < u64::MAX,
        ensures
            r == old(self).waitpoint_spec(),
            final(self).waitpoint_spec() == old(self).waitpoint_spec() + 1,
            final(self).tag_spec() == old(self).tag_spec(),
    {
        proof {
            use_type_invariant(&*self);
        }
        let out = self.waitpoint;
        self.waitpoint = self.waitpoint + 1;
        out
    }

    /// The header of the `i`-th child channel, at waitpoint zero.
    pub fn child(&self, i: u64) -> (r: MessageHeader)
        ensures
            r.tag_spec() == child_of(self.tag_spec(), i),
            r.waitpoint_spec() == 0,
    {
        proof {
            use_type_invariant(self);
        }
        MessageHeader { tag: child_compute(&self.tag, i), waitpoint: 0 }
    }

    /// The header of the shared root channel.
    pub fn shared() -> (r: MessageHeader)
        ensures
            r.tag_spec() == shared_root_spec(),
            r.waitpoint_spec() == 0,
    {
        MessageHeader { tag: shared_root_tag(), waitpoint: 0 }
    }

    /// The header of the private root channel between two participants:
    /// both orders of the pair give the same channel.
    pub fn private(a: Participant, b: Participant) -> (r: MessageHeader)
        ensures
            r.tag_spec() == private_root_of(
                if a.0 <= b.0 { a.0 } else { b.0 },
                if a.0 <= b.0 { b.0 } else { a.0 },
            ),
            r.waitpoint_spec() == 0,
    {
        let (lo, hi) = if a.id() <= b.id() { (a.id(), b.id()) } else { (b.id(), a.id()) };
        MessageHeader { tag: private_root_compute(lo, hi), waitpoint: 0 }
    }
}

impl Clone for MessageHeader {
    fn clone(&self) -> (r: Self)
        ensures
            r.tag_spec() == self.tag_spec(),
            r.waitpoint_spec() == self.waitpoint_spec(),
    {
        proof {
            use_type_invariant(self);
        }
        MessageHeader { tag: clone_bytes(&self.tag), waitpoint: self.waitpoint }
    }
}

/// The communication state of one protocol instance: messages received but
/// not yet consumed, and messages queued to be sent.
pub struct Comms {
    buffer: Vec<(Vec<u8>, Participant, Vec<u8>)>,
    outgoing: Vec<Message>,
}

impl Comms {
    /// The buffered incoming messages: header encoding, sender, payload.
    pub closed spec fn buffered(self) -> Seq<(Seq<u8>, Participant, Seq<u8>)> {
        self.buffer@.map_values(|t: (Vec<u8>, Participant, Vec<u8>)| (t.0@, t.1, t.2@))
    }

    /// The queued outgoing messages.
    pub closed spec fn queued(self) -> Seq<Message> {
        self.outgoing@
    }

    /// A fresh communication state with nothing buffered or queued.
    pub fn new() -> (r: Comms)
        ensures
            r.buffered().len() == 0,
            r.queued().len() == 0,
    {
        Comms { buffer: Vec::new(), outgoing: Vec::new() }
    }

    /// Buffer an incoming message under its header; malformed messages
    /// (shorter than a header) are dropped.
    pub fn push_message(&mut self, from: Participant, data: MessageData)
    {
        if data.len() < HEADER_SIZE {
            return;
        }
        let mut header: Vec<u8> = Vec::new();
        let mut payload: Vec<u8> = Vec::new();
        let mut i: usize = 0;
        while i < HEADER_SIZE
            invariant
                i <= HEADER_SIZE,
                data@.len() >= HEADER_SIZE,
            decreases HEADER_SIZE - i,
        {
            header.push(data[i]);
            i = i + 1;
        }
        let mut j: usize = HEADER_SIZE;
        while j < data.len()
            invariant
                HEADER_SIZE <= j <= data@.len(),
            decreases data@.len() - j,
        {
            payload.push(data[j]);
            j = j + 1;
        }
        self.buffer.push((header, from, payload));
    }

    /// Take the first buffered message for a header, if any.
    pub fn recv(&mut self, header: &MessageHeader) -> (r: Option<(Participant, Vec<u8>)>)
        ensures
            final(self).queued() == old(self).queued(),
            r is Some ==> final(self).buffered().len() + 1 == old(self).buffered().len(),
            r is None ==> *final(self) == *old(self),
    {
        let hb = header.to_bytes();
        let mut i: usize = 0;
        while i < self.buffer.len()
            invariant
                i <= self.buffer@.len(),
                self == old(self),
            decreases self.buffer@.len() - i,
        {
            if bytes_eq(&self.buffer[i].0, &hb) {
                let (_, from, payload) = self.buffer.remove(i);
                return Some((from, payload));
            }
            i = i + 1;
        }
        None
    }

    /// Queue a broadcast of `payload` on a header: the queued bytes are
    /// the header's encoding followed by the payload.
    pub fn send_many(&mut self, header: &MessageHeader, payload: &Vec<u8>)
        ensures
            final(self).buffered() == old(self).buffered(),
            final(self).queued().len() == old(self).queued().len() + 1,
            final(self).queued().drop_last() == old(self).queued(),
            final(self).queued().last() matches Message::Many(d)
                && d@ == header.enc() + payload@,
    {
        let mut data = header.to_bytes();
        let mut i: usize = 0;
        while i < payload.len()
            invariant
                i <= payload@.len(),
                self == old(self),
                data@ == header.enc() + payload@.subrange(0, i as int),
            decreases payload@.len() - i,
        {
            data.push(payload[i]);
            proof {
                assert(data@ =~= header.enc() + payload@.subrange(0, i + 1));
            }
            i = i + 1;
        }
        proof {
            assert(data@ =~= header.enc() + payload@);
        }
        self.outgoing.push(Message::Many(data));
        proof {
            assert(final(self).queued().drop_last() =~= old(self).queued());
        }
    }

    /// Queue a private send of `payload` to `to` on a header: the queued
    /// bytes are the header's encoding followed by the payload.
    pub fn send_private(&mut self, to: Participant, header: &MessageHeader, payload: &Vec<u8>)
        ensures
            final(self).buffered() == old(self).buffered(),
            final(self).queued().len() == old(self).queued().len() + 1,
            final(self).queued().drop_last() == old(self).queued(),
            final(self).queued().last() matches Message::Private(dest, d)
                && dest == to && d@ == header.enc() + payload@,
    {
        let mut data = header.to_bytes();
        let mut i: usize = 0;
        while i < payload.len()
            invariant
                i <= payload@.len(),
                self == old(self),
                data@ == header.enc() + payload@.subrange(0, i as int),
            decreases payload@.len() - i,
        {
            data.push(payload[i]);
            proof {
                assert(data@ =~= header.enc() + payload@.subrange(0, i + 1));
            }
            i = i + 1;
        }
        proof {
            assert(data@ =~= header.enc() + payload@);
        }
        self.outgoing.push(Message::Private(to, data));
        proof {
            assert(final(self).queued().drop_last() =~= old(self).queued());
        }
    }

    /// Take the oldest queued outgoing message, if any.
    pub fn pop_outgoing(&mut self) -> (r: Option<Message>)
        ensures
            final(self).buffered() == old(self).buffered(),
            r is Some <==> old(self).queued().len() > 0,
            r matches Some(m) ==> m == old(self).queued().first()
                && final(self).queued() == old(self).queued().drop_first(),
            r is None ==> *final(self) == *old(self),
    {
        if self.outgoing.len() == 0 {
            return None;
        }
        let m = self.outgoing.remove(0);
        proof {
            assert(self.outgoing@ =~= old(self).queued().drop_first());
        }
        Some(m)
    }

    /// How many messages are waiting in the buffer.
    pub fn buffered_len(&self) -> (r: usize)
        ensures
            r == self.buffered().len(),
    {
        self.buffer.len()
    }

    /// Whether anything is queued to send.
    pub fn has_outgoing(&self) -> (r: bool)
        ensures
            r == (self.queued().len() > 0),
    {
        self.outgoing.len() > 0
    }
}

} // verus!
