//! What holds of the two codecs for every header and every buffer.

use crate::packet::{DecodeError, FragmentHeader, HeaderParser, PacketHeader};
use crate::wire::lemma_be_round_trip;
use vstd::prelude::*;

verus! {

/// Parsing what `write` leaves in a buffer of at least three bytes gives
/// back the packet header that was written, whatever followed it.
pub proof fn lemma_packet_round_trip(h: PacketHeader, buf: Seq<u8>)
    requires
        buf.len() >= PacketHeader::wire_size(),
    ensures
        PacketHeader::parsed(h.encoding() + buf.subrange(3, buf.len() as int)) == Ok::<
            PacketHeader,
            DecodeError,
        >(h),
{
    lemma_be_round_trip(h.sequence);
}

/// Parsing what `write` leaves in a buffer of at least five bytes gives
/// back the fragment header that was written, whatever followed it.
pub proof fn lemma_fragment_round_trip(h: FragmentHeader, buf: Seq<u8>)
    requires
        buf.len() >= FragmentHeader::wire_size(),
    ensures
        FragmentHeader::parsed(h.encoding() + buf.subrange(5, buf.len() as int)) == Ok::<
            FragmentHeader,
            DecodeError,
        >(h),
{
    lemma_be_round_trip(h.sequence);
}

/// A packet header takes three bytes and a fragment header five, whatever
/// their fields hold.
pub proof fn lemma_fixed_sizes(p: PacketHeader, f: FragmentHeader)
    ensures
        PacketHeader::wire_size() == 3,
        FragmentHeader::wire_size() == 5,
        p.encoding().len() == PacketHeader::wire_size(),
        f.encoding().len() == FragmentHeader::wire_size(),
{
}

/// Fewer than three bytes never parse as a packet header; when they are
/// empty or lead with the packet tag, the failure is `Truncated`.
pub proof fn lemma_packet_truncated(bytes: Seq<u8>)
    requires
        bytes.len() < PacketHeader::wire_size(),
    ensures
        PacketHeader::parsed(bytes) is Err,
        bytes.len() == 0 || bytes[0] == 0 ==> PacketHeader::parsed(bytes) == Err::<
            PacketHeader,
            DecodeError,
        >(DecodeError::Truncated),
{
}

/// Fewer than five bytes never parse as a fragment header; when they are
/// empty or lead with the fragment tag, the failure is `Truncated`.
pub proof fn lemma_fragment_truncated(bytes: Seq<u8>)
    requires
        bytes.len() < FragmentHeader::wire_size(),
    ensures
        FragmentHeader::parsed(bytes) is Err,
        bytes.len() == 0 || bytes[0] == 1 ==> FragmentHeader::parsed(bytes) == Err::<
            FragmentHeader,
            DecodeError,
        >(DecodeError::Truncated),
{
}

/// The bytes of a fragment header, whatever follows them, fail to parse as a
/// packet header with `WrongType`, and the bytes of a packet header fail to
/// parse as a fragment header the same way.
pub proof fn lemma_wrong_codec(p: PacketHeader, f: FragmentHeader, rest: Seq<u8>)
    ensures
        PacketHeader::parsed(f.encoding() + rest) == Err::<PacketHeader, DecodeError>(
            DecodeError::WrongType,
        ),
        FragmentHeader::parsed(p.encoding() + rest) == Err::<FragmentHeader, DecodeError>(
            DecodeError::WrongType,
        ),
{
}

} // verus!
