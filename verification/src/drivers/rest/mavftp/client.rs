use vstd::prelude::*;

use vstd::slice::slice_subrange;

use super::protocol::{
    check_nak, spec_check_nak, FtpError, FtpNakError, FtpOpcode, FtpPayload, FTP_DATA_MAX_LEN,
};

verus! {

/// A range of the file that the burst phase skipped and that is read again afterwards.
#[derive(Clone, Copy, Debug)]
pub struct MissingBlock {
    pub offset: u32,
    pub size: u32,
}

/// Why a response could not be copied into the file.
#[derive(Debug, Clone, Copy, PartialEq, Eq, Structural)]
pub enum ChunkError {
    /// The response declared more bytes than it carried.
    ShortChunk { declared: usize, provided: usize },
}

/// `n` zero bytes.
pub open spec fn zeros(n: int) -> Seq<u8> {
    Seq::new(n as nat, |_i: int| 0u8)
}

/// The buffer after copying `size` bytes of `chunk` to `offset`: the buffer is first extended
/// with zeros up to `offset + size` when it is shorter.
pub open spec fn spec_copy_chunk(file: Seq<u8>, offset: int, size: int, chunk: Seq<u8>) -> Seq<u8> {
    let end = offset + size;
    let grown = if end > file.len() { file + zeros(end - file.len()) } else { file };
    grown.subrange(0, offset) + chunk.subrange(0, size) + grown.subrange(end, grown.len() as int)
}

/// Copies the first `chunk_size` bytes of `chunk_data` to `chunk_offset` of the file,
/// growing the file with zeros when needed. Fails, leaving the file as it was, when the
/// chunk carries fewer bytes than it declares.
pub fn copy_chunk_into_buffer(
    file_data: &mut Vec<u8>,
    chunk_offset: u32,
    chunk_size: usize,
    chunk_data: &[u8],
) -> (r: Result<(), ChunkError>)
    requires
        chunk_size <= chunk_data@.len() ==> chunk_offset as int + chunk_size <= isize::MAX,
    ensures
        chunk_data@.len() < chunk_size <==> (r is Err),
        (r is Err) ==> r == Err::<(), ChunkError>(ChunkError::ShortChunk { declared: chunk_size, provided: chunk_data@.len() as usize }),
        (r is Err) ==> final(file_data)@ == old(file_data)@,
        (r is Ok) ==> final(file_data)@ == spec_copy_chunk(old(file_data)@, chunk_offset as int, chunk_size as int, chunk_data@),
{
    if chunk_data.len() < chunk_size {
        return Err(ChunkError::ShortChunk { declared: chunk_size, provided: chunk_data.len() });
    }
    let ghost before = file_data@;
    let offset = chunk_offset as usize;
    let end = offset + chunk_size;
    while file_data.len() < end
        invariant
            end == offset + chunk_size,
            before.len() <= file_data@.len(),
            file_data@.len() <= before.len() || file_data@.len() <= end,
            file_data@ =~= before + zeros(file_data@.len() - before.len()),
        decreases end - file_data@.len(),
    {
        file_data.push(0u8);
    }
    let ghost grown = file_data@;
    assert(grown =~= (if end > before.len() { before + zeros(end - before.len()) } else { before }));
    let mut i: usize = 0;
    while i < chunk_size
        invariant
            end == offset + chunk_size,
            end <= grown.len(),
            file_data@.len() == grown.len(),
            chunk_size <= chunk_data@.len(),
            0 <= i <= chunk_size,
            forall|j: int| 0 <= j < offset ==> file_data@[j] == grown[j],
            forall|j: int| end <= j < grown.len() ==> file_data@[j] == grown[j],
            forall|j: int| offset <= j < offset + i ==> file_data@[j] == chunk_data@[j - offset],
        decreases chunk_size - i,
    {
        file_data.set(offset + i, chunk_data[i]);
        i = i + 1;
    }
    assert(file_data@ =~= spec_copy_chunk(before, chunk_offset as int, chunk_size as int, chunk_data@));
    Ok(())
}

/// State of a burst read: the file assembled so far and the ranges skipped on the way.
pub struct BurstReadState {
    pub file_data: Vec<u8>,
    /// The next offset the burst phase expects to extend.
    pub contiguous_end: u32,
    /// All copied bytes, gap repair included.
    pub bytes_written: u32,
    pub missing_blocks: Vec<MissingBlock>,
    pub total_packets: u64,
}

/// The missing blocks are non-empty, in increasing order, do not overlap, and lie before `end`.
pub open spec fn blocks_ordered(blocks: Seq<MissingBlock>, end: int) -> bool {
    &&& forall|i: int| 0 <= i < blocks.len() ==> #[trigger] blocks[i].size > 0
    &&& forall|i: int| 0 <= i < blocks.len() ==> #[trigger] blocks[i].offset + blocks[i].size <= end
    &&& forall|i: int, j: int|
        0 <= i < j < blocks.len() ==> #[trigger] blocks[i].offset + blocks[i].size <= #[trigger] blocks[j].offset
}

/// The file so far, the contiguous end, the bytes written, the missing blocks and the
/// packet count of a burst read.
pub type BurstFields = (Seq<u8>, u32, u32, Seq<MissingBlock>, u64);

/// What a burst response does to a burst read: see [`BurstReadState::apply_burst_chunk`].
pub open spec fn spec_apply_burst_chunk(f: BurstFields, resp: FtpPayload) -> (Result<bool, ChunkError>, BurstFields) {
    let (file, end, written, blocks, total) = f;
    let off = resp.offset as int;
    let size = resp.size as int;
    let gap = MissingBlock { offset: end, size: (off - end) as u32 };
    let new_blocks = if off > end { blocks.push(gap) } else { blocks };
    if size == 0 || off < end {
        (Ok(false), f)
    } else if resp.data@.len() < size {
        (Err(ChunkError::ShortChunk { declared: size as usize, provided: resp.data@.len() as usize }), (file, end, written, new_blocks, total))
    } else {
        (Ok(true), (spec_copy_chunk(file, off, size, resp.data@), (off + size) as u32, (written + size) as u32, new_blocks, total))
    }
}

/// The arithmetic of a burst response that gets copied stays in range: its end fits in
/// 32 bits and in a buffer, and so does the count of bytes written after it.
pub open spec fn burst_chunk_fits(f: BurstFields, resp: FtpPayload) -> bool {
    (resp.size > 0 && resp.offset >= f.1 && resp.size <= resp.data@.len()) ==> {
        &&& resp.offset + resp.size <= u32::MAX
        &&& resp.offset + resp.size <= isize::MAX
        &&& f.2 + resp.size <= u32::MAX
    }
}

/// The arithmetic of a repair response that gets copied at `read_offset` stays in range.
pub open spec fn gap_fill_fits(bytes_written: u32, read_offset: u32, resp: FtpPayload) -> bool {
    (spec_check_nak(resp.opcode, resp.data@) is None && resp.size > 0 && resp.size <= resp.data@.len()) ==> {
        &&& read_offset + resp.size <= u32::MAX
        &&& read_offset + resp.size <= isize::MAX
        &&& bytes_written + resp.size <= u32::MAX
    }
}

impl BurstReadState {
    /// The skipped ranges lie, in order and without overlap, before the contiguous end.
    pub open spec fn wf(&self) -> bool {
        blocks_ordered(self.missing_blocks@, self.contiguous_end as int)
    }

    /// The state as values.
    pub open spec fn fields(&self) -> BurstFields {
        (self.file_data@, self.contiguous_end, self.bytes_written, self.missing_blocks@, self.total_packets)
    }

    /// Starts a burst read of a file of `file_size` bytes.
    pub fn new(file_size: usize) -> (s: Self)
        ensures
            s.wf(),
            s.file_data@ == Seq::new(file_size as nat, |_i: int| 0u8),
            s.contiguous_end == 0,
            s.bytes_written == 0,
            s.missing_blocks@.len() == 0,
            s.total_packets == 0,
    {
        let file_data = vec![0u8; file_size];
        assert(file_data@ =~= Seq::new(file_size as nat, |_i: int| 0u8));
        BurstReadState {
            file_data,
            contiguous_end: 0,
            bytes_written: 0,
            missing_blocks: Vec::new(),
            total_packets: 0,
        }
    }

    /// Counts `chunk_size` more copied bytes.
    pub fn record_bytes_written(&mut self, chunk_size: u32)
        requires
            old(self).bytes_written + chunk_size <= u32::MAX,
        ensures
            final(self).bytes_written == old(self).bytes_written + chunk_size,
            final(self).file_data@ == old(self).file_data@,
            final(self).contiguous_end == old(self).contiguous_end,
            final(self).missing_blocks@ == old(self).missing_blocks@,
            final(self).total_packets == old(self).total_packets,
    {
        self.bytes_written = self.bytes_written + chunk_size;
    }

    /// Applies a burst response. A chunk that starts past the contiguous end records the
    /// skipped range as missing; one that starts before it, or an empty one, is ignored
    /// (`Ok(false)`). Otherwise the chunk is copied and the contiguous end moves to its end
    /// (`Ok(true)`). A chunk that carries fewer bytes than it declares fails after the
    /// skipped range was recorded.
    pub fn apply_burst_chunk(&mut self, resp: &FtpPayload) -> (r: Result<bool, ChunkError>)
        requires
            old(self).wf(),
            burst_chunk_fits(old(self).fields(), *resp),
        ensures
            (r is Ok) ==> final(self).wf(),
            old(self).contiguous_end <= final(self).contiguous_end,
            (r, final(self).fields()) == spec_apply_burst_chunk(old(self).fields(), *resp),
    {
        let chunk_size = resp.size as usize;
        if chunk_size == 0 {
            return Ok(false);
        }
        let chunk_offset = resp.offset;
        if chunk_offset > self.contiguous_end {
            let gap = MissingBlock { offset: self.contiguous_end, size: chunk_offset - self.contiguous_end };
            self.missing_blocks.push(gap);
        } else if chunk_offset < self.contiguous_end {
            return Ok(false);
        }
        match copy_chunk_into_buffer(&mut self.file_data, chunk_offset, chunk_size, &resp.data) {
            Ok(()) => {},
            Err(e) => {
                return Err(e);
            },
        }
        self.contiguous_end = chunk_offset + resp.size as u32;
        self.record_bytes_written(resp.size as u32);
        Ok(true)
    }

    /// The burst phase is over: the file ends at the contiguous end.
    pub fn finish(self) -> (file: Vec<u8>)
        ensures
            file@ == if (self.contiguous_end as int) < self.file_data@.len() {
                self.file_data@.subrange(0, self.contiguous_end as int)
            } else {
                self.file_data@
            },
    {
        let mut file = self.file_data;
        file.truncate(self.contiguous_end as usize);
        file
    }
}

/// What the burst phase got while waiting.
#[derive(Debug)]
pub enum BurstEvent {
    /// A `FILE_TRANSFER_PROTOCOL` response of the target.
    Response(FtpPayload),
    /// Nothing came within the burst timeout.
    Timeout,
    /// Receiving failed.
    ReceiveError,
}

/// Why a burst read failed.
#[derive(Debug)]
pub enum BurstError {
    /// The autopilot refused the read.
    Nak(FtpNakError),
    /// A response declared more bytes than it carried.
    Chunk(ChunkError),
    /// Too many bursts timed out.
    TimedOut,
}

/// What the burst phase does next.
#[derive(Debug)]
pub enum BurstStep {
    /// Keep waiting for responses of this burst.
    Wait,
    /// Send the next burst request, from the contiguous end.
    NextBurst,
    /// The whole file was sent: repair the missing blocks.
    EndOfFile,
    /// The read failed; terminate the session first where `terminate` says so.
    Failed { error: BurstError, terminate: bool },
}

/// The request that starts a burst at `offset` of the file open in `session`.
pub fn burst_request(session: u8, offset: u32) -> (p: FtpPayload)
    ensures
        p.opcode == FtpOpcode::BurstReadFile,
        p.session == session,
        p.offset == offset,
        p.size == FTP_DATA_MAX_LEN,
        p.data@.len() == 0,
{
    let mut p = FtpPayload::new_request(FtpOpcode::BurstReadFile, 0);
    p.session = session;
    p.offset = offset;
    p.size = FTP_DATA_MAX_LEN as u8;
    p
}

impl BurstReadState {
    /// Takes what the burst phase got, with the count of bursts that timed out in a row:
    /// an end-of-file NAK ends the phase and any other NAK fails it; a response other than
    /// an ACK of a burst read is ignored; an ACK is applied as a burst chunk, and one that
    /// extends the file resets the timeouts, counts a packet and, when it completes the
    /// burst, asks for the next one. A timeout asks for the next burst until the timeouts
    /// exceed the retry limit.
    pub fn on_burst_event(&mut self, event: &BurstEvent, retries: &mut u32) -> (r: BurstStep)
        requires
            old(self).wf(),
            event is Timeout ==> *old(retries) < u32::MAX,
            event matches BurstEvent::Response(resp) ==> (
                resp.opcode == FtpOpcode::Ack && resp.req_opcode == FtpOpcode::BurstReadFile ==> {
                    &&& burst_chunk_fits(old(self).fields(), *resp)
                    &&& old(self).total_packets < u64::MAX
                }),
        ensures
            (r !is Failed) ==> final(self).wf(),
            *old(retries) <= FTP_MAX_RETRIES ==> (*final(retries) <= FTP_MAX_RETRIES || r is Failed),
            match event {
                BurstEvent::Timeout => {
                    &&& final(self).fields() == old(self).fields()
                    &&& *final(retries) == *old(retries) + 1
                    &&& if *old(retries) + 1 > FTP_MAX_RETRIES {
                        r matches BurstStep::Failed { error, terminate } && error is TimedOut && terminate
                    } else {
                        r is NextBurst
                    }
                },
                BurstEvent::ReceiveError => {
                    &&& r is Wait
                    &&& final(self).fields() == old(self).fields()
                    &&& *final(retries) == *old(retries)
                },
                BurstEvent::Response(resp) => match spec_check_nak(resp.opcode, resp.data@) {
                    Some((code, errno)) => {
                        &&& final(self).fields() == old(self).fields()
                        &&& *final(retries) == *old(retries)
                        &&& if code == FtpError::Eof {
                            r is EndOfFile
                        } else {
                            r matches BurstStep::Failed { error, terminate } && terminate
                                && (error matches BurstError::Nak(e) && e.err_code == code && e.errno == errno)
                        }
                    },
                    None => if resp.opcode != FtpOpcode::Ack || resp.req_opcode != FtpOpcode::BurstReadFile {
                        &&& r is Wait
                        &&& final(self).fields() == old(self).fields()
                        &&& *final(retries) == *old(retries)
                    } else {
                        let (applied, f) = spec_apply_burst_chunk(old(self).fields(), *resp);
                        match applied {
                            Err(e) => {
                                &&& r matches BurstStep::Failed { error, terminate } && !terminate
                                    && (error matches BurstError::Chunk(c) && c == e)
                                &&& final(self).fields() == f
                                &&& *final(retries) == *old(retries)
                            },
                            Ok(false) => {
                                &&& r is Wait
                                &&& final(self).fields() == f
                                &&& *final(retries) == *old(retries)
                            },
                            Ok(true) => {
                                &&& final(self).fields() == (f.0, f.1, f.2, f.3, (f.4 + 1) as u64)
                                &&& *final(retries) == 0
                                &&& if resp.burst_complete == 1 { r is NextBurst } else { r is Wait }
                            },
                        }
                    },
                },
            },
    {
        match event {
            BurstEvent::Timeout => {
                *retries = *retries + 1;
                if *retries > FTP_MAX_RETRIES {
                    return BurstStep::Failed { error: BurstError::TimedOut, terminate: true };
                }
                BurstStep::NextBurst
            },
            BurstEvent::ReceiveError => BurstStep::Wait,
            BurstEvent::Response(resp) => {
                match check_nak(resp) {
                    Ok(()) => {},
                    Err(nak) => {
                        if nak.err_code == FtpError::Eof {
                            return BurstStep::EndOfFile;
                        }
                        return BurstStep::Failed { error: BurstError::Nak(nak), terminate: true };
                    },
                }
                if resp.opcode != FtpOpcode::Ack || resp.req_opcode != FtpOpcode::BurstReadFile {
                    return BurstStep::Wait;
                }
                match self.apply_burst_chunk(resp) {
                    Err(e) => BurstStep::Failed { error: BurstError::Chunk(e), terminate: false },
                    Ok(false) => BurstStep::Wait,
                    Ok(true) => {
                        *retries = 0;
                        self.total_packets = self.total_packets + 1;
                        if resp.burst_complete == 1 {
                            BurstStep::NextBurst
                        } else {
                            BurstStep::Wait
                        }
                    },
                }
            },
        }
    }
}

/// The offset and size of the next read that repairs a missing block of which `filled`
/// bytes were already read: at most one message worth of data.
pub fn gap_fill_request(missing: MissingBlock, filled: u32) -> (r: (u32, u32))
    requires
        filled < missing.size,
        missing.offset + missing.size <= u32::MAX,
    ensures
        r.0 == missing.offset + filled,
        r.1 == if missing.size - filled < FTP_DATA_MAX_LEN { missing.size - filled } else { FTP_DATA_MAX_LEN as int },
        0 < r.1 <= FTP_DATA_MAX_LEN,
{
    let remaining = missing.size - filled;
    let read_size = if remaining < FTP_DATA_MAX_LEN as u32 { remaining } else { FTP_DATA_MAX_LEN as u32 };
    (missing.offset + filled, read_size)
}

/// What a read that repairs a missing block brought.
#[derive(Debug, Clone, Copy, PartialEq, Eq, Structural)]
pub enum GapFillChunkOutcome {
    /// This many bytes were copied.
    Filled(u32),
    /// The response carried no data.
    NoData,
    /// The autopilot reported the end of the file.
    EndOfFile,
}

/// Why the repair of a missing block failed.
#[derive(Debug, Clone)]
pub enum GapFillError {
    Nak(FtpNakError),
    Chunk(ChunkError),
}

impl BurstReadState {
    /// Applies the response to a repair read at `read_offset`: an end-of-file NAK ends the
    /// block, any other NAK fails, an empty response brings nothing, and otherwise its data
    /// is copied at `read_offset`.
    pub fn apply_gap_fill_response(&mut self, read_offset: u32, resp: &FtpPayload) -> (r: Result<GapFillChunkOutcome, GapFillError>)
        requires
            gap_fill_fits(old(self).bytes_written, read_offset, *resp),
        ensures
            final(self).contiguous_end == old(self).contiguous_end,
            final(self).missing_blocks@ == old(self).missing_blocks@,
            final(self).total_packets == old(self).total_packets,
            match spec_check_nak(resp.opcode, resp.data@) {
                Some((code, errno)) => {
                    &&& final(self).file_data@ == old(self).file_data@
                    &&& final(self).bytes_written == old(self).bytes_written
                    &&& if code == FtpError::Eof {
                        r == Ok::<GapFillChunkOutcome, GapFillError>(GapFillChunkOutcome::EndOfFile)
                    } else {
                        r matches Err(GapFillError::Nak(e)) && e.err_code == code && e.errno == errno
                    }
                },
                None => if resp.size == 0 {
                    &&& r == Ok::<GapFillChunkOutcome, GapFillError>(GapFillChunkOutcome::NoData)
                    &&& final(self).file_data@ == old(self).file_data@
                    &&& final(self).bytes_written == old(self).bytes_written
                } else if resp.data@.len() < resp.size {
                    &&& r matches Err(GapFillError::Chunk(e)) && e == ChunkError::ShortChunk { declared: resp.size as usize, provided: resp.data@.len() as usize }
                    &&& final(self).file_data@ == old(self).file_data@
                    &&& final(self).bytes_written == old(self).bytes_written
                } else {
                    &&& r == Ok::<GapFillChunkOutcome, GapFillError>(GapFillChunkOutcome::Filled(resp.size as u32))
                    &&& final(self).file_data@ == spec_copy_chunk(old(self).file_data@, read_offset as int, resp.size as int, resp.data@)
                    &&& final(self).bytes_written == old(self).bytes_written + resp.size
                },
            },
    {
        match check_nak(resp) {
            Ok(()) => {},
            Err(nak) => {
                if nak.err_code == FtpError::Eof {
                    return Ok(GapFillChunkOutcome::EndOfFile);
                }
                return Err(GapFillError::Nak(nak));
            },
        }
        let chunk_size = resp.size as usize;
        if chunk_size == 0 {
            return Ok(GapFillChunkOutcome::NoData);
        }
        match copy_chunk_into_buffer(&mut self.file_data, read_offset, chunk_size, &resp.data) {
            Ok(()) => {},
            Err(e) => return Err(GapFillError::Chunk(e)),
        }
        self.record_bytes_written(resp.size as u32);
        Ok(GapFillChunkOutcome::Filled(resp.size as u32))
    }
}


/// Number of retries of a request before it fails.
pub const FTP_MAX_RETRIES: u32 = 5;

/// The little-endian 32-bit value of the first four bytes.
pub open spec fn le_u32_of(b: Seq<u8>) -> int {
    b[0] + b[1] * 256 + b[2] * 65536 + b[3] * 16777216
}

/// A request for `opcode` that carries `path`; the size field holds the length of the
/// path truncated to eight bits.
pub fn path_request(opcode: FtpOpcode, seq_number: u16, path: &[u8]) -> (p: FtpPayload)
    ensures
        p.seq_number == seq_number,
        p.opcode == opcode,
        p.session == 0,
        p.offset == 0,
        p.req_opcode == FtpOpcode::NoOp,
        p.burst_complete == 0,
        p.data@ == path@,
        p.size == path@.len() % 256,
{
    let mut p = FtpPayload::new_request(opcode, seq_number);
    p.data = vstd::slice::slice_to_vec(path);
    p.size = (path.len() % 256) as u8;
    p
}

/// The data of a `Rename` request: the old path, a NUL byte, then the new path.
pub fn rename_data(from: &[u8], to: &[u8]) -> (r: Vec<u8>)
    ensures
        r@ == from@ + seq![0u8] + to@,
{
    let mut data = vstd::slice::slice_to_vec(from);
    data.push(0u8);
    let mut i: usize = 0;
    while i < to.len()
        invariant
            0 <= i <= to@.len(),
            data@ == from@ + seq![0u8] + to@.subrange(0, i as int),
        decreases to@.len() - i,
    {
        data.push(to[i]);
        i = i + 1;
        assert(data@ =~= from@ + seq![0u8] + to@.subrange(0, i as int));
    }
    assert(to@.subrange(0, to@.len() as int) =~= to@);
    data
}

/// The size of the file that an `OpenFileRO` response announces: the first four data bytes
/// in little-endian order when the response carries them, otherwise zero.
pub fn announced_file_size(resp: &FtpPayload) -> (r: usize)
    ensures
        r == if resp.size >= 4 && resp.data@.len() >= 4 { le_u32_of(resp.data@) } else { 0 },
{
    if resp.size >= 4 && resp.data.len() >= 4 {
        (resp.data[0] as usize) + (resp.data[1] as usize) * 256 + (resp.data[2] as usize) * 65536
            + (resp.data[3] as usize) * 16777216
    } else {
        0
    }
}

/// Why a file cannot be read.
#[derive(Debug, Clone, Copy, PartialEq, Eq, Structural)]
pub enum FileSizeError {
    /// The file is larger than the limit the caller set.
    TooLarge { file_size: usize, max: usize },
}

/// Refuses a file that is larger than the optional limit.
pub fn check_file_size(file_size: usize, max_size: Option<usize>) -> (r: Result<(), FileSizeError>)
    ensures
        match max_size {
            Some(max) => if file_size > max {
                r == Err::<(), FileSizeError>(FileSizeError::TooLarge { file_size, max })
            } else {
                r is Ok
            },
            None => r is Ok,
        },
{
    match max_size {
        Some(max) => {
            if file_size > max {
                Err(FileSizeError::TooLarge { file_size, max })
            } else {
                Ok(())
            }
        },
        None => Ok(()),
    }
}

/// The CRC32 that a `CalcFileCRC32` response carries in its first four data bytes; `None`
/// when the response is too short.
pub fn crc32_from_response(resp: &FtpPayload) -> (r: Option<u32>)
    ensures
        resp.data@.len() >= 4 <==> (r is Some),
        (r is Some) ==> r->0 == le_u32_of(resp.data@),
{
    if resp.data.len() >= 4 {
        Some((resp.data[0] as u32) + (resp.data[1] as u32) * 256 + (resp.data[2] as u32) * 65536
            + (resp.data[3] as u32) * 16777216)
    } else {
        None
    }
}

/// The pieces in which a file is written: piece `k` starts at byte `k * FTP_DATA_MAX_LEN`
/// and holds at most `FTP_DATA_MAX_LEN` bytes.
pub open spec fn spec_write_piece(data: Seq<u8>, k: int) -> (u32, Seq<u8>) {
    let start = k * FTP_DATA_MAX_LEN;
    let end = if start + FTP_DATA_MAX_LEN < data.len() { start + FTP_DATA_MAX_LEN } else { data.len() as int };
    (start as u32, data.subrange(start, end))
}

/// The bytes of the first `m` pieces of a file, one after the other.
pub open spec fn spec_joined_pieces(data: Seq<u8>, m: int) -> Seq<u8>
    decreases m,
{
    if m <= 0 {
        Seq::empty()
    } else {
        spec_joined_pieces(data, m - 1) + spec_write_piece(data, m - 1).1
    }
}

/// The pieces of a file, one after the other, give back the file.
pub proof fn lemma_pieces_join_to_data(data: Seq<u8>)
    ensures
        spec_joined_pieces(data, (data.len() + FTP_DATA_MAX_LEN - 1) / FTP_DATA_MAX_LEN as int) == data,
{
    assert(FTP_DATA_MAX_LEN == 239);
    let len = data.len() as int;
    let n = (len + 238) / 239;
    assert(0 <= n && (n == 0 || (n - 1) * 239 < len) && n * 239 >= len) by (nonlinear_arith)
        requires
            len >= 0,
            n == (len + 238) / 239,
    ;
    lemma_joined_prefix(data, n);
    assert(data.subrange(0, len) =~= data);
}

proof fn lemma_joined_prefix(data: Seq<u8>, m: int)
    requires
        0 <= m,
        (m - 1) * FTP_DATA_MAX_LEN < data.len() || m == 0,
    ensures
        spec_joined_pieces(data, m) == data.subrange(0, if m * FTP_DATA_MAX_LEN < data.len() { m * FTP_DATA_MAX_LEN } else { data.len() as int }),
    decreases m,
{
    assert(FTP_DATA_MAX_LEN == 239);
    if m > 0 {
        lemma_joined_prefix(data, m - 1);
        let start = (m - 1) * FTP_DATA_MAX_LEN;
        let end = if start + FTP_DATA_MAX_LEN < data.len() { start + FTP_DATA_MAX_LEN } else { data.len() as int };
        assert(data.subrange(0, start) + data.subrange(start, end) =~= data.subrange(0, end));
    }
}

/// Splits the data of a file into the `(offset, bytes)` pieces of its `WriteFile` requests.
pub fn write_pieces(data: &[u8]) -> (r: Vec<(u32, Vec<u8>)>)
    requires
        data@.len() <= u32::MAX,
    ensures
        r@.len() == (data@.len() + FTP_DATA_MAX_LEN - 1) / FTP_DATA_MAX_LEN as int,
        forall|k: int| 0 <= k < r@.len() ==> (#[trigger] r@[k]).0 == spec_write_piece(data@, k).0
            && r@[k].1@ == spec_write_piece(data@, k).1,
{
    let mut pieces: Vec<(u32, Vec<u8>)> = Vec::new();
    let mut start: usize = 0;
    assert(data@.len() == 0 ==> (data@.len() + 238) / 239 == 0);
    assert(pieces@.len() == 0);
    assert(pieces@.len() * FTP_DATA_MAX_LEN == 0);
    while start < data.len()
        invariant
            data@.len() <= u32::MAX,
            data@.len() <= u32::MAX,
            start <= data@.len(),
            start < data@.len() ==> start == pieces@.len() * FTP_DATA_MAX_LEN,
            start == data@.len() ==> pieces@.len() == (data@.len() + FTP_DATA_MAX_LEN - 1) / FTP_DATA_MAX_LEN as int,
            forall|k: int| 0 <= k < pieces@.len() ==> (#[trigger] pieces@[k]).0 == spec_write_piece(data@, k).0
                && pieces@[k].1@ == spec_write_piece(data@, k).1,
        decreases data@.len() - start,
    {
        let end = if data.len() - start > FTP_DATA_MAX_LEN { start + FTP_DATA_MAX_LEN } else { data.len() };
        let piece = vstd::slice::slice_to_vec(slice_subrange(data, start, end));
        let ghost k = pieces@.len() as int;
        assert(start == k * FTP_DATA_MAX_LEN);
        pieces.push((start as u32, piece));
        assert(pieces@[k].1@ =~= spec_write_piece(data@, k).1);
        start = end;
        proof {
            let n = data@.len() as int;
            if start < n {
                assert(start == (k + 1) * 239);
            } else {
                assert((n + 238) / 239 == k + 1) by (nonlinear_arith)
                    requires k * 239 < n, n <= k * 239 + 239;
            }
        }
    }
    pieces
}
} // verus!
