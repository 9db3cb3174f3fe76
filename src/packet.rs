//! The two header types and the codec shape that both follow.

use crate::wire::{from_be, hi_byte, lo_byte, read_be_u16, write_be_u16};
use vstd::prelude::*;

verus! {

/// Most fragments one logical datagram may be split into.
pub const FRAGMENT_MAX_COUNT: usize = 256;

/// Most payload bytes one fragment may carry.
pub const FRAGMENT_MAX_SIZE: usize = 1024;

/// Why a header could not be written.
#[derive(Clone, Copy, Debug, PartialEq, Eq, Structural)]
pub enum EncodeError {
    /// The destination is shorter than the header.
    BufferTooSmall,
}

/// Why a header could not be read.
#[derive(Clone, Copy, Debug, PartialEq, Eq, Structural)]
pub enum DecodeError {
    /// The source ends before the header does.
    Truncated,
    /// The leading byte is the tag of another header type.
    WrongType,
}

/// The kind of datagram, as told by its leading byte.
#[derive(Clone, Copy, Debug, PartialEq, Eq, Structural)]
pub enum PacketType {
    Packet,
    Fragment,
}

impl PacketType {
    /// The byte that leads a datagram of this kind.
    pub open spec fn spec_tag(self) -> u8 {
        match self {
            PacketType::Packet => 0,
            PacketType::Fragment => 1,
        }
    }

    /// The byte that leads a datagram of this kind.
    pub fn tag(&self) -> (r: u8)
        ensures
            r == self.spec_tag(),
    {
        match self {
            PacketType::Packet => 0,
            PacketType::Fragment => 1,
        }
    }
}

/// A header with a fixed size on the wire, written into and parsed from
/// byte buffers that the caller owns.
pub trait HeaderParser: Sized {
    type Header;

    /// How many bytes the header takes on the wire.
    spec fn wire_size() -> nat;

    /// The bytes that stand for `self` on the wire, `wire_size()` of them.
    spec fn encoding(&self) -> Seq<u8>;

    /// What parsing a buffer that holds `bytes` gives.
    spec fn parsed(bytes: Seq<u8>) -> Result<Self::Header, DecodeError>;

    /// Reads a header from the front of `reader`.
    fn parse(reader: &[u8]) -> (r: Result<Self::Header, DecodeError>)
        ensures
            r == Self::parsed(reader@),
    ;

    /// Writes the header into the front of `writer`, leaving the rest of
    /// it as it was; a buffer that is too short is left untouched.
    fn write(&self, writer: &mut [u8]) -> (r: Result<(), EncodeError>)
        ensures
            old(writer)@.len() < Self::wire_size() ==> r == Err::<(), EncodeError>(
                EncodeError::BufferTooSmall,
            ) && final(writer)@ == old(writer)@,
            old(writer)@.len() >= Self::wire_size() ==> r == Ok::<(), EncodeError>(())
                && final(writer)@ == self.encoding() + old(writer)@.subrange(
                Self::wire_size() as int,
                old(writer)@.len() as int,
            ),
    ;

    /// Header size in bytes.
    fn size() -> (r: usize)
        ensures
            r == Self::wire_size(),
    ;
}

/// The header of a datagram sent whole: tag 0, then the sequence number.
#[derive(Clone, Copy, Debug, PartialEq, Eq, Structural)]
pub struct PacketHeader {
    pub sequence: u16,
}

impl HeaderParser for PacketHeader {
    type Header = Self;

    open spec fn wire_size() -> nat {
        3
    }

    open spec fn encoding(&self) -> Seq<u8> {
        seq![PacketType::Packet.spec_tag(), hi_byte(self.sequence), lo_byte(self.sequence)]
    }

    open spec fn parsed(bytes: Seq<u8>) -> Result<Self, DecodeError> {
        if bytes.len() == 0 {
            Err(DecodeError::Truncated)
        } else if bytes[0] != PacketType::Packet.spec_tag() {
            Err(DecodeError::WrongType)
        } else if bytes.len() < 3 {
            Err(DecodeError::Truncated)
        } else {
            Ok(PacketHeader { sequence: from_be(bytes[1], bytes[2]) })
        }
    }

    fn size() -> (r: usize) {
        3
    }

    fn write(&self, writer: &mut [u8]) -> (r: Result<(), EncodeError>) {
        if writer.len() < 3 {
            return Err(EncodeError::BufferTooSmall);
        }
        writer[0] = PacketType::Packet.tag();
        write_be_u16(writer, 1, self.sequence);
        assert(writer@ =~= self.encoding() + old(writer)@.subrange(3, old(writer)@.len() as int));
        Ok(())
    }

    fn parse(reader: &[u8]) -> (r: Result<Self, DecodeError>) {
        if reader.len() < 1 {
            return Err(DecodeError::Truncated);
        }
        if reader[0] != PacketType::Packet.tag() {
            return Err(DecodeError::WrongType);
        }
        if reader.len() < 3 {
            return Err(DecodeError::Truncated);
        }
        let sequence = read_be_u16(reader, 1);
        Ok(PacketHeader { sequence })
    }
}

/// The header of one fragment of a split datagram: tag 1, the sequence
/// number of the datagram, the fragment's index and the fragment count.
#[derive(Clone, Copy, Debug, PartialEq, Eq, Structural)]
pub struct FragmentHeader {
    pub sequence: u16,
    pub fragment_id: u8,
    pub num_fragments: u8,
}

impl HeaderParser for FragmentHeader {
    type Header = Self;

    open spec fn wire_size() -> nat {
        5
    }

    open spec fn encoding(&self) -> Seq<u8> {
        seq![
            PacketType::Fragment.spec_tag(),
            hi_byte(self.sequence),
            lo_byte(self.sequence),
            self.fragment_id,
            self.num_fragments,
        ]
    }

    open spec fn parsed(bytes: Seq<u8>) -> Result<Self, DecodeError> {
        if bytes.len() == 0 {
            Err(DecodeError::Truncated)
        } else if bytes[0] != PacketType::Fragment.spec_tag() {
            Err(DecodeError::WrongType)
        } else if bytes.len() < 5 {
            Err(DecodeError::Truncated)
        } else {
            Ok(
                FragmentHeader {
                    sequence: from_be(bytes[1], bytes[2]),
                    fragment_id: bytes[3],
                    num_fragments: bytes[4],
                },
            )
        }
    }

    fn size() -> (r: usize) {
        5
    }

    fn write(&self, writer: &mut [u8]) -> (r: Result<(), EncodeError>) {
        if writer.len() < 5 {
            return Err(EncodeError::BufferTooSmall);
        }
        writer[0] = PacketType::Fragment.tag();
        write_be_u16(writer, 1, self.sequence);
        writer[3] = self.fragment_id;
        writer[4] = self.num_fragments;
        assert(writer@ =~= self.encoding() + old(writer)@.subrange(5, old(writer)@.len() as int));
        Ok(())
    }

    fn parse(reader: &[u8]) -> (r: Result<Self, DecodeError>) {
        if reader.len() < 1 {
            return Err(DecodeError::Truncated);
        }
        if reader[0] != PacketType::Fragment.tag() {
            return Err(DecodeError::WrongType);
        }
        if reader.len() < 5 {
            return Err(DecodeError::Truncated);
        }
        let sequence = read_be_u16(reader, 1);
        let fragment_id = reader[3];
        let num_fragments = reader[4];
        Ok(FragmentHeader { sequence, fragment_id, num_fragments })
    }
}

} // verus!
