use vstd::prelude::*;

verus! {

/// Number of data bytes that one `LOG_DATA` message carries.
pub const LOG_DATA_PACKET_SIZE: usize = 90;

/// Number of bins requested at once before moving to the next chunk.
pub const LOG_CHUNK_BINS: usize = 2048;

/// Size in bytes of one download chunk.
pub const LOG_CHUNK_SIZE: usize = LOG_CHUNK_BINS * LOG_DATA_PACKET_SIZE;

/// A `LOG_DATA` packet reduced to the fields that drive the chunk state machine.
pub struct LogDataPacket {
    pub ofs: u32,
    pub count: u8,
    pub data: [u8; 90],
}

} // verus!
