use vstd::prelude::*;
use crate::command::be_word;

verus! {

/// Bytes in one packet of the video stream.
pub const PACKET_SIZE: usize = 164;

/// What a packet validator decides.
#[derive(Clone, Copy, Debug, PartialEq, Eq, Structural)]
pub enum PacketVerdict {
    Accept,
    Discard(DiscardReason),
}

/// Why a packet was discarded.
#[derive(Clone, Copy, Debug, PartialEq, Eq, Structural)]
pub enum DiscardReason {
    /// The line identifier carries the discard marker.
    Marked,
    /// The checksum field does not match the packet's contents.
    Checksum,
}

/// The CRC-16/XMODEM checksum of a byte sequence.
pub uninterp spec fn crc16_xmodem(data: Seq<u8>) -> u16;

/// Relies on crc::Crc::<u16>::checksum, set up with crc::CRC_16_XMODEM: the
/// CRC-16/XMODEM checksum of the bytes, a function of the bytes alone.
#[verifier::external_body]
fn crc16_xmodem_checksum(data: &[u8]) -> (r: u16)
    ensures
        r == crc16_xmodem(data@),
{
    crc::Crc::<u16>::new(&crc::CRC_16_XMODEM).checksum(data)
}

/// The 16-bit line identifier at the head of a packet.
pub open spec fn line_id(p: Seq<u8>) -> u16 {
    be_word(p[0], p[1])
}

/// Whether the low nibble of the identifier marks the packet as a discard.
pub open spec fn is_discard_marked(p: Seq<u8>) -> bool {
    p[0] & 0x0f == 0x0f
}

/// The checksum that the packet carries in bytes 2 and 3.
pub open spec fn checksum_field(p: Seq<u8>) -> u16 {
    be_word(p[2], p[3])
}

/// The bytes that the checksum covers: the packet with the top nibble of the
/// identifier and the whole checksum field cleared.
pub open spec fn checksum_input_of(p: Seq<u8>) -> Seq<u8> {
    p.update(0, p[0] & 0x0f).update(2, 0u8).update(3, 0u8)
}

/// The verdict on a packet, given the checksum computed over its covered bytes.
pub open spec fn verdict_given(p: Seq<u8>, computed: u16) -> PacketVerdict {
    if is_discard_marked(p) {
        PacketVerdict::Discard(DiscardReason::Marked)
    } else if computed == checksum_field(p) {
        PacketVerdict::Accept
    } else {
        PacketVerdict::Discard(DiscardReason::Checksum)
    }
}

/// The verdict on a packet.
pub open spec fn packet_verdict(p: Seq<u8>) -> PacketVerdict {
    verdict_given(p, crc16_xmodem(checksum_input_of(p)))
}

/// A copy of the packet as the checksum sees it; the packet itself is left
/// as it was.
pub fn checksum_input(packet: &[u8]) -> (r: Vec<u8>)
    requires
        packet@.len() == PACKET_SIZE,
    ensures
        r@ == checksum_input_of(packet@),
{
    let mut data: Vec<u8> = Vec::with_capacity(packet.len());
    let mut i: usize = 0;
    while i < packet.len()
        invariant
            i <= packet@.len(),
            data@ == packet@.subrange(0, i as int),
        decreases packet@.len() - i,
    {
        data.push(packet[i]);
        i = i + 1;
    }
    assert(data@ == packet@);
    data.set(0, packet[0] & 0x0f);
    data.set(2, 0);
    data.set(3, 0);
    data
}

/// Decides on a packet from the checksum computed over its covered bytes.
pub fn verdict_for_checksum(packet: &[u8], computed: u16) -> (r: PacketVerdict)
    requires
        packet@.len() == PACKET_SIZE,
    ensures
        r == verdict_given(packet@, computed),
{
    if packet[0] & 0x0f == 0x0f {
        PacketVerdict::Discard(DiscardReason::Marked)
    } else if computed == packet[2] as u16 * 256 + packet[3] as u16 {
        PacketVerdict::Accept
    } else {
        PacketVerdict::Discard(DiscardReason::Checksum)
    }
}

/// Whether the checksum field matches the checksum of the covered bytes.
pub fn check_crc(packet: &[u8]) -> (r: bool)
    requires
        packet@.len() == PACKET_SIZE,
    ensures
        r == (crc16_xmodem(checksum_input_of(packet@)) == checksum_field(packet@)),
{
    let data = checksum_input(packet);
    crc16_xmodem_checksum(data.as_slice()) == packet[2] as u16 * 256 + packet[3] as u16
}

/// Validates one packet: a discard marker rejects it whatever its checksum;
/// otherwise it is accepted exactly when its checksum matches.
pub fn validate_packet(packet: &[u8]) -> (r: PacketVerdict)
    requires
        packet@.len() == PACKET_SIZE,
    ensures
        r == packet_verdict(packet@),
{
    let data = checksum_input(packet);
    let computed = crc16_xmodem_checksum(data.as_slice());
    verdict_for_checksum(packet, computed)
}

/// A packet that carries the discard marker is discarded, whatever its
/// checksum field holds.
pub proof fn lemma_marked_is_discarded(p: Seq<u8>)
    requires
        p.len() == PACKET_SIZE,
        is_discard_marked(p),
    ensures
        packet_verdict(p) == PacketVerdict::Discard(DiscardReason::Marked),
{
}

/// An unmarked packet whose checksum field holds the checksum of its covered
/// bytes is accepted, and an accepted packet is such a packet.
pub proof fn lemma_accept_exactly_on_matching_checksum(p: Seq<u8>)
    requires
        p.len() == PACKET_SIZE,
    ensures
        (packet_verdict(p) == PacketVerdict::Accept) == (!is_discard_marked(p)
            && checksum_field(p) == crc16_xmodem(checksum_input_of(p))),
{
}

/// The covered bytes do not depend on the checksum field nor on the top
/// nibble of the identifier.
pub proof fn lemma_checksum_input_ignores_excluded(p: Seq<u8>, q: Seq<u8>)
    requires
        p.len() == PACKET_SIZE,
        q.len() == PACKET_SIZE,
        p[0] & 0x0f == q[0] & 0x0f,
        p[1] == q[1],
        forall|i: int| 4 <= i < PACKET_SIZE ==> p[i] == q[i],
    ensures
        checksum_input_of(p) == checksum_input_of(q),
{
    assert(checksum_input_of(p) =~= checksum_input_of(q));
}

} // verus!
