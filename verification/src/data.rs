//! Test data: what the server sends when the client asked to receive.

use crate::model::UDP_HEADER_LEN;
use crate::wire;
use vstd::prelude::*;

verus! {

/// Length of a datagram's sequence number, and so of the shortest datagram.
pub const SEQ_LEN: u16 = 4;

/// Length of what is written at a time in a TCP test: the size that the client asked for, but not
/// nothing.
pub open spec fn tcp_payload_len(tx_size: u16) -> nat {
    if tx_size == 0 {
        1
    } else {
        tx_size as nat
    }
}

/// Length of a datagram's contents: together with the headers it has the size that the client
/// asked for, unless there would be no room for the sequence number.
pub open spec fn packet_len(tx_size: u16) -> nat {
    if tx_size < UDP_HEADER_LEN + SEQ_LEN {
        SEQ_LEN as nat
    } else {
        (tx_size - UDP_HEADER_LEN) as nat
    }
}

/// So many zero bytes.
pub open spec fn zeros(len: nat) -> Seq<u8> {
    Seq::new(len, |i: int| 0u8)
}

/// The contents of a datagram: its sequence number, then zeros.
pub open spec fn packet(seq: u32, len: nat) -> Seq<u8> {
    wire::be_u32_bytes(seq) + zeros((len - SEQ_LEN) as nat)
}

/// The sequence number after another: one more, back to zero at the end.
pub open spec fn seq_after(seq: int) -> int {
    (seq + 1) % 0x1_0000_0000
}

/// The sequence number of a session's next datagram after it has sent `count` of them.
pub open spec fn seq_at(count: nat) -> int
    decreases count,
{
    if count == 0 {
        1
    } else {
        seq_after(seq_at((count - 1) as nat))
    }
}

/// What is written at a time in a TCP test: zeros.
pub fn tcp_payload(tx_size: u16) -> (payload: Vec<u8>)
    ensures
        payload@ == zeros(tcp_payload_len(tx_size)),
        payload@.len() == if tx_size == 0 {
            1
        } else {
            tx_size as int
        },
        forall|i: int| 0 <= i < payload@.len() ==> payload@[i] == 0,
{
    let len = if tx_size == 0 {
        1
    } else {
        tx_size as usize
    };
    let payload = vec![0u8; len];
    assert(payload@ =~= zeros(tcp_payload_len(tx_size)));
    payload
}

/// The datagrams of a session, one after the other.
pub struct PacketSource {
    buf: Vec<u8>,
    seq: u32,
}

impl PacketSource {
    #[verifier::type_invariant]
    spec fn valid(self) -> bool {
        &&& self.buf@.len() >= SEQ_LEN
        &&& forall|i: int| SEQ_LEN <= i < self.buf@.len() ==> self.buf@[i] == 0
    }

    /// Length of each datagram.
    pub closed spec fn len(self) -> nat {
        self.buf@.len()
    }

    /// Sequence number of the next datagram.
    pub closed spec fn next_seq(self) -> int {
        self.seq as int
    }

    pub fn new(tx_size: u16) -> (source: PacketSource)
        ensures
            source.len() == packet_len(tx_size),
            source.len() == if tx_size < 32 {
                4
            } else {
                tx_size - 28
            },
            source.next_seq() == seq_at(0),
            source.next_seq() == 1,
    {
        let room: u16 = tx_size.saturating_sub(UDP_HEADER_LEN);
        let len = if room < SEQ_LEN {
            SEQ_LEN as usize
        } else {
            room as usize
        };
        PacketSource { buf: vec![0u8; len], seq: 1 }
    }

    /// The next datagram.
    pub fn next_packet(&mut self) -> (bytes: &[u8])
        ensures
            bytes@ == packet(old(self).next_seq() as u32, old(self).len()),
            bytes@.len() == old(self).len(),
            0x100_0000 * bytes@[0] + 0x1_0000 * bytes@[1] + 0x100 * bytes@[2] + bytes@[3] == old(
                self,
            ).next_seq(),
            forall|i: int| 4 <= i < bytes@.len() ==> bytes@[i] == 0,
            old(self).next_seq() < u32::MAX ==> final(self).next_seq() == old(self).next_seq() + 1,
            old(self).next_seq() == u32::MAX ==> final(self).next_seq() == 0,
            final(self).next_seq() == seq_after(old(self).next_seq()),
            final(self).len() == old(self).len(),
    {
        proof {
            use_type_invariant(&*self);
        }
        let seq = self.seq;
        assert((seq >> 24) as u8 == seq / 0x100_0000) by (bit_vector);
        assert((seq >> 16) as u8 == seq / 0x1_0000 % 0x100) by (bit_vector);
        assert((seq >> 8) as u8 == seq / 0x100 % 0x100) by (bit_vector);
        assert(seq as u8 == seq % 0x100) by (bit_vector);
        // Write sequence number (big-endian) in first 4 bytes
        self.buf[0] = (seq >> 24) as u8;
        self.buf[1] = (seq >> 16) as u8;
        self.buf[2] = (seq >> 8) as u8;
        self.buf[3] = seq as u8;
        self.seq = seq.wrapping_add(1);
        assert(self.buf@ =~= packet(seq, old(self).len()));
        proof {
            wire::law_be_u32_roundtrip(seq);
        }
        self.buf.as_slice()
    }
}

/// Test data is zeros, and as much of it as the client asked for at a time, but at least one byte.
pub proof fn law_tcp_payload(tx_size: u16)
    ensures
        tx_size >= 1 ==> zeros(tcp_payload_len(tx_size)).len() == tx_size,
        zeros(tcp_payload_len(0)).len() == 1,
        forall|i: int|
            0 <= i < tcp_payload_len(tx_size) ==> #[trigger] zeros(tcp_payload_len(tx_size))[i] == 0,
{
}

/// A datagram has four bytes for its number, high byte first, and zeros; with its 28 header bytes
/// it has the size that the client asked for, and where that is too small it is the number alone.
pub proof fn law_datagram_bytes(tx_size: u16, seq: u32)
    ensures
        ({
            let bytes = packet(seq, packet_len(tx_size));
            &&& tx_size >= 32 ==> bytes.len() + 28 == tx_size
            &&& tx_size < 32 ==> bytes.len() == 4
            &&& 0x100_0000 * bytes[0] + 0x1_0000 * bytes[1] + 0x100 * bytes[2] + bytes[3] == seq
            &&& forall|i: int| 4 <= i < bytes.len() ==> #[trigger] bytes[i] == 0
        }),
{
    wire::law_be_u32_roundtrip(seq);
}

/// A datagram is never shorter than its sequence number, which can be read back from it; where
/// the client asked for room enough, it has the size that the client asked for, headers included.
pub proof fn law_datagram_size(tx_size: u16, seq: u32)
    ensures
        packet(seq, packet_len(tx_size)).len() == packet_len(tx_size),
        packet_len(tx_size) >= SEQ_LEN,
        wire::be_u32(packet(seq, packet_len(tx_size))) == seq,
        tx_size >= UDP_HEADER_LEN + SEQ_LEN ==> packet_len(tx_size) + UDP_HEADER_LEN == tx_size,
{
    wire::law_be_u32_roundtrip(seq);
}

/// The datagrams of a session are numbered from one on.
pub proof fn law_datagrams_numbered(count: nat)
    ensures
        seq_at(count) == (1 + count) % 0x1_0000_0000,
    decreases count,
{
    if count > 0 {
        law_datagrams_numbered((count - 1) as nat);
    }
}

/// Of two datagrams the later has the larger number, as long as the numbers last.
pub proof fn law_datagram_numbers_increase(earlier: nat, later: nat)
    requires
        earlier < later < u32::MAX,
    ensures
        seq_at(earlier) < seq_at(later),
{
    law_datagrams_numbered(earlier);
    law_datagrams_numbered(later);
}

} // verus!
