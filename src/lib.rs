//! Wire headers of a datagram transport: a whole-packet header and a
//! fragment header, each with a fixed big-endian layout led by a type tag.

mod wire;

pub mod laws;
pub mod packet;

pub use packet::{
    DecodeError, EncodeError, FragmentHeader, HeaderParser, PacketHeader, PacketType,
    FRAGMENT_MAX_COUNT, FRAGMENT_MAX_SIZE,
};
