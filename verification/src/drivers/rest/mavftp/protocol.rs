use vstd::prelude::*;

use vstd::slice::slice_subrange;

use crate::text::{find_byte, lemma_next_index_of, next_index_of, parse_u64_bytes, spec_parse_u64, spec_utf8_lossy, utf8_lossy};

verus! {

/// Bytes of the FTP header that precede the data.
pub const FTP_HEADER_LEN: usize = 12;

/// Bytes of the payload of one `FILE_TRANSFER_PROTOCOL` message.
pub const FTP_MESSAGE_PAYLOAD: usize = 251;

/// Largest number of data bytes one FTP message carries.
pub const FTP_DATA_MAX_LEN: usize = FTP_MESSAGE_PAYLOAD - FTP_HEADER_LEN;

/// FTP operation codes (<https://mavlink.io/en/services/ftp.html#opcodes>).
#[derive(Debug, Clone, Copy, PartialEq, Eq, Structural)]
pub enum FtpOpcode {
    /// No operation (wire value 0).
    NoOp,
    TerminateSession,
    ResetSessions,
    ListDirectory,
    OpenFileRO,
    ReadFile,
    CreateFile,
    WriteFile,
    RemoveFile,
    CreateDirectory,
    RemoveDirectory,
    OpenFileWO,
    TruncateFile,
    Rename,
    CalcFileCRC32,
    BurstReadFile,
    Ack,
    Nak,
}

impl FtpOpcode {
    /// The wire value of the opcode.
    pub open spec fn spec_code(self) -> u8 {
        match self {
            FtpOpcode::NoOp => 0,
            FtpOpcode::TerminateSession => 1,
            FtpOpcode::ResetSessions => 2,
            FtpOpcode::ListDirectory => 3,
            FtpOpcode::OpenFileRO => 4,
            FtpOpcode::ReadFile => 5,
            FtpOpcode::CreateFile => 6,
            FtpOpcode::WriteFile => 7,
            FtpOpcode::RemoveFile => 8,
            FtpOpcode::CreateDirectory => 9,
            FtpOpcode::RemoveDirectory => 10,
            FtpOpcode::OpenFileWO => 11,
            FtpOpcode::TruncateFile => 12,
            FtpOpcode::Rename => 13,
            FtpOpcode::CalcFileCRC32 => 14,
            FtpOpcode::BurstReadFile => 15,
            FtpOpcode::Ack => 128,
            FtpOpcode::Nak => 129,
        }
    }

    /// The opcode whose wire value is `v`, if any.
    pub open spec fn spec_from_code(v: u8) -> Option<FtpOpcode> {
        if v == 0 { Some(FtpOpcode::NoOp) }
        else if v == 1 { Some(FtpOpcode::TerminateSession) }
        else if v == 2 { Some(FtpOpcode::ResetSessions) }
        else if v == 3 { Some(FtpOpcode::ListDirectory) }
        else if v == 4 { Some(FtpOpcode::OpenFileRO) }
        else if v == 5 { Some(FtpOpcode::ReadFile) }
        else if v == 6 { Some(FtpOpcode::CreateFile) }
        else if v == 7 { Some(FtpOpcode::WriteFile) }
        else if v == 8 { Some(FtpOpcode::RemoveFile) }
        else if v == 9 { Some(FtpOpcode::CreateDirectory) }
        else if v == 10 { Some(FtpOpcode::RemoveDirectory) }
        else if v == 11 { Some(FtpOpcode::OpenFileWO) }
        else if v == 12 { Some(FtpOpcode::TruncateFile) }
        else if v == 13 { Some(FtpOpcode::Rename) }
        else if v == 14 { Some(FtpOpcode::CalcFileCRC32) }
        else if v == 15 { Some(FtpOpcode::BurstReadFile) }
        else if v == 128 { Some(FtpOpcode::Ack) }
        else if v == 129 { Some(FtpOpcode::Nak) }
        else { None }
    }

    /// The wire value of the opcode.
    pub fn code(self) -> (r: u8)
        ensures
            r == self.spec_code(),
    {
        match self {
            FtpOpcode::NoOp => 0,
            FtpOpcode::TerminateSession => 1,
            FtpOpcode::ResetSessions => 2,
            FtpOpcode::ListDirectory => 3,
            FtpOpcode::OpenFileRO => 4,
            FtpOpcode::ReadFile => 5,
            FtpOpcode::CreateFile => 6,
            FtpOpcode::WriteFile => 7,
            FtpOpcode::RemoveFile => 8,
            FtpOpcode::CreateDirectory => 9,
            FtpOpcode::RemoveDirectory => 10,
            FtpOpcode::OpenFileWO => 11,
            FtpOpcode::TruncateFile => 12,
            FtpOpcode::Rename => 13,
            FtpOpcode::CalcFileCRC32 => 14,
            FtpOpcode::BurstReadFile => 15,
            FtpOpcode::Ack => 128,
            FtpOpcode::Nak => 129,
        }
    }

    /// The opcode whose wire value is `v`; `None` for an unknown value.
    pub fn from_code(v: u8) -> (r: Option<FtpOpcode>)
        ensures
            r == Self::spec_from_code(v),
    {
        match v {
            0 => Some(FtpOpcode::NoOp),
            1 => Some(FtpOpcode::TerminateSession),
            2 => Some(FtpOpcode::ResetSessions),
            3 => Some(FtpOpcode::ListDirectory),
            4 => Some(FtpOpcode::OpenFileRO),
            5 => Some(FtpOpcode::ReadFile),
            6 => Some(FtpOpcode::CreateFile),
            7 => Some(FtpOpcode::WriteFile),
            8 => Some(FtpOpcode::RemoveFile),
            9 => Some(FtpOpcode::CreateDirectory),
            10 => Some(FtpOpcode::RemoveDirectory),
            11 => Some(FtpOpcode::OpenFileWO),
            12 => Some(FtpOpcode::TruncateFile),
            13 => Some(FtpOpcode::Rename),
            14 => Some(FtpOpcode::CalcFileCRC32),
            15 => Some(FtpOpcode::BurstReadFile),
            128 => Some(FtpOpcode::Ack),
            129 => Some(FtpOpcode::Nak),
            _ => None,
        }
    }
}

/// Every opcode is read back from its own wire value.
pub proof fn lemma_opcode_code_roundtrip(op: FtpOpcode)
    ensures
        FtpOpcode::spec_from_code(op.spec_code()) == Some(op),
{
}

/// Error codes carried by a NAK (<https://mavlink.io/en/services/ftp.html#error_codes>).
#[derive(Debug, Clone, Copy, PartialEq, Eq, Structural)]
pub enum FtpError {
    /// No error (wire value 0).
    NoError,
    Fail,
    FailErrno,
    InvalidDataSize,
    InvalidSession,
    NoSessionsAvailable,
    Eof,
    UnknownCommand,
    FileExists,
    FileProtected,
    FileNotFound,
}

impl FtpError {
    /// The error code whose wire value is `v`, if any.
    pub open spec fn spec_from_code(v: u8) -> Option<FtpError> {
        if v == 0 { Some(FtpError::NoError) }
        else if v == 1 { Some(FtpError::Fail) }
        else if v == 2 { Some(FtpError::FailErrno) }
        else if v == 3 { Some(FtpError::InvalidDataSize) }
        else if v == 4 { Some(FtpError::InvalidSession) }
        else if v == 5 { Some(FtpError::NoSessionsAvailable) }
        else if v == 6 { Some(FtpError::Eof) }
        else if v == 7 { Some(FtpError::UnknownCommand) }
        else if v == 8 { Some(FtpError::FileExists) }
        else if v == 9 { Some(FtpError::FileProtected) }
        else if v == 10 { Some(FtpError::FileNotFound) }
        else { None }
    }

    /// The error code whose wire value is `v`; `None` for an unknown value.
    pub fn from_code(v: u8) -> (r: Option<FtpError>)
        ensures
            r == Self::spec_from_code(v),
    {
        match v {
            0 => Some(FtpError::NoError),
            1 => Some(FtpError::Fail),
            2 => Some(FtpError::FailErrno),
            3 => Some(FtpError::InvalidDataSize),
            4 => Some(FtpError::InvalidSession),
            5 => Some(FtpError::NoSessionsAvailable),
            6 => Some(FtpError::Eof),
            7 => Some(FtpError::UnknownCommand),
            8 => Some(FtpError::FileExists),
            9 => Some(FtpError::FileProtected),
            10 => Some(FtpError::FileNotFound),
            _ => None,
        }
    }

    /// The human readable description of the error code.
    pub fn description(&self) -> (r: &'static str)
        ensures
            r@ == self.spec_description(),
    {
        match self {
            FtpError::NoError => "No error",
            FtpError::Fail => "Unknown failure",
            FtpError::FailErrno => "System error",
            FtpError::InvalidDataSize => "Invalid data size",
            FtpError::InvalidSession => "Invalid session",
            FtpError::NoSessionsAvailable => "No sessions available",
            FtpError::Eof => "End of file",
            FtpError::UnknownCommand => "Unknown command",
            FtpError::FileExists => "File already exists",
            FtpError::FileProtected => "File is write protected",
            FtpError::FileNotFound => "File not found",
        }
    }

    /// The human readable description of the error code.
    pub open spec fn spec_description(&self) -> Seq<char> {
        match self {
            FtpError::NoError => "No error"@,
            FtpError::Fail => "Unknown failure"@,
            FtpError::FailErrno => "System error"@,
            FtpError::InvalidDataSize => "Invalid data size"@,
            FtpError::InvalidSession => "Invalid session"@,
            FtpError::NoSessionsAvailable => "No sessions available"@,
            FtpError::Eof => "End of file"@,
            FtpError::UnknownCommand => "Unknown command"@,
            FtpError::FileExists => "File already exists"@,
            FtpError::FileProtected => "File is write protected"@,
            FtpError::FileNotFound => "File not found"@,
        }
    }
}

/// The error that a NAK reports, with the system errno where the autopilot gave one.
#[derive(Debug, Clone)]
pub struct FtpNakError {
    pub err_code: FtpError,
    pub errno: Option<u8>,
}

/// Why a payload could not be decoded.
#[derive(Debug, Clone, Copy, PartialEq, Eq, Structural)]
pub enum FtpDecodeError {
    /// The opcode byte holds no known opcode.
    UnknownOpcode(u8),
    /// The request opcode byte holds no known opcode.
    UnknownRequestOpcode(u8),
}

/// The payload of a `FILE_TRANSFER_PROTOCOL` message (<https://mavlink.io/en/services/ftp.html#payload>).
#[derive(Debug, Clone)]
pub struct FtpPayload {
    pub seq_number: u16,
    pub session: u8,
    pub opcode: FtpOpcode,
    pub size: u8,
    pub req_opcode: FtpOpcode,
    pub burst_complete: u8,
    pub offset: u32,
    pub data: Vec<u8>,
}

/// The byte at position `i` of the little-endian encoding of a 32-bit value.
pub open spec fn le_byte(v: int, i: int) -> u8 {
    if i == 0 {
        (v % 256) as u8
    } else if i == 1 {
        ((v / 256) % 256) as u8
    } else if i == 2 {
        ((v / 65536) % 256) as u8
    } else {
        ((v / 16777216) % 256) as u8
    }
}

impl FtpPayload {
    /// The byte at position `i` of the 251-byte encoding of the payload.
    pub open spec fn encoded_byte(&self, i: int) -> u8 {
        let copy_len = if self.data@.len() < FTP_DATA_MAX_LEN { self.data@.len() as int } else { FTP_DATA_MAX_LEN as int };
        if i < 2 {
            le_byte(self.seq_number as int, i)
        } else if i == 2 {
            self.session
        } else if i == 3 {
            self.opcode.spec_code()
        } else if i == 4 {
            self.size
        } else if i == 5 {
            self.req_opcode.spec_code()
        } else if i == 6 {
            self.burst_complete
        } else if i == 7 {
            0
        } else if i < 12 {
            le_byte(self.offset as int, i - 8)
        } else if i < 12 + copy_len {
            self.data@[i - 12]
        } else {
            0
        }
    }

    /// The 251 bytes that carry the payload: the header in little-endian order, then at most
    /// `FTP_DATA_MAX_LEN` bytes of data, then zeros.
    pub open spec fn spec_encode(&self) -> Seq<u8> {
        Seq::new(FTP_MESSAGE_PAYLOAD as nat, |i: int| self.encoded_byte(i))
    }

    /// Encodes the payload into the 251 bytes of the message.
    pub fn encode(&self) -> (buf: [u8; 251])
        ensures
            buf@ == self.spec_encode(),
    {
        let mut buf = [0u8; 251];
        buf[0] = (self.seq_number % 256) as u8;
        buf[1] = (self.seq_number / 256) as u8;
        buf[2] = self.session;
        buf[3] = self.opcode.code();
        buf[4] = self.size;
        buf[5] = self.req_opcode.code();
        buf[6] = self.burst_complete;
        buf[7] = 0;
        buf[8] = (self.offset % 256) as u8;
        buf[9] = ((self.offset / 256) % 256) as u8;
        buf[10] = ((self.offset / 65536) % 256) as u8;
        buf[11] = ((self.offset / 16777216) % 256) as u8;
        let copy_len = if self.data.len() < FTP_DATA_MAX_LEN { self.data.len() } else { FTP_DATA_MAX_LEN };
        let mut i: usize = 0;
        while i < copy_len
            invariant
                copy_len == (if self.data@.len() < FTP_DATA_MAX_LEN { self.data@.len() as int } else { FTP_DATA_MAX_LEN as int }),
                0 <= i <= copy_len,
                forall|j: int| 0 <= j < 12 ==> buf@[j] == self.encoded_byte(j),
                forall|j: int| 12 <= j < 12 + i ==> buf@[j] == self.encoded_byte(j),
                forall|j: int| 12 + i <= j < 251 ==> buf@[j] == 0,
            decreases copy_len - i,
        {
            buf[12 + i] = self.data[i];
            i = i + 1;
        }
        assert(buf@ =~= self.spec_encode());
        buf
    }

    /// What decoding yields for 251 payload bytes.
    pub open spec fn spec_decode(b: Seq<u8>) -> Result<(u16, u8, FtpOpcode, u8, FtpOpcode, u8, u32, Seq<u8>), FtpDecodeError> {
        match FtpOpcode::spec_from_code(b[3]) {
            None => Err(FtpDecodeError::UnknownOpcode(b[3])),
            Some(opcode) => match FtpOpcode::spec_from_code(b[5]) {
                None => Err(FtpDecodeError::UnknownRequestOpcode(b[5])),
                Some(req_opcode) => {
                    let data_len = if b[4] < FTP_DATA_MAX_LEN { b[4] as int } else { FTP_DATA_MAX_LEN as int };
                    Ok(
                        (
                            (b[0] + b[1] * 256) as u16,
                            b[2],
                            opcode,
                            b[4],
                            req_opcode,
                            b[6],
                            (b[8] + b[9] * 256 + b[10] * 65536 + b[11] * 16777216) as u32,
                            b.subrange(12, 12 + data_len),
                        ),
                    )
                },
            },
        }
    }

    /// The fields of the payload, in the order of the encoding.
    pub open spec fn fields(&self) -> (u16, u8, FtpOpcode, u8, FtpOpcode, u8, u32, Seq<u8>) {
        (self.seq_number, self.session, self.opcode, self.size, self.req_opcode, self.burst_complete, self.offset, self.data@)
    }

    /// Decodes the 251 payload bytes of a message; at most `size` data bytes are kept.
    pub fn decode(payload: &[u8; 251]) -> (r: Result<FtpPayload, FtpDecodeError>)
        ensures
            match (r, Self::spec_decode(payload@)) {
                (Ok(p), Ok(f)) => p.fields() == f,
                (Err(e), Err(f)) => e == f,
                _ => false,
            },
    {
        let seq_number = (payload[0] as u16) + (payload[1] as u16) * 256;
        let session = payload[2];
        let opcode = match FtpOpcode::from_code(payload[3]) {
            Some(op) => op,
            None => return Err(FtpDecodeError::UnknownOpcode(payload[3])),
        };
        let size = payload[4];
        let req_opcode = match FtpOpcode::from_code(payload[5]) {
            Some(op) => op,
            None => return Err(FtpDecodeError::UnknownRequestOpcode(payload[5])),
        };
        let burst_complete = payload[6];
        let offset = (payload[8] as u32) + (payload[9] as u32) * 256 + (payload[10] as u32) * 65536
            + (payload[11] as u32) * 16777216;
        let data_len = if (size as usize) < FTP_DATA_MAX_LEN { size as usize } else { FTP_DATA_MAX_LEN };
        let mut data: Vec<u8> = Vec::new();
        let mut i: usize = 0;
        while i < data_len
            invariant
                data_len <= FTP_DATA_MAX_LEN,
                0 <= i <= data_len,
                data@ =~= payload@.subrange(12, 12 + i),
            decreases data_len - i,
        {
            data.push(payload[12 + i]);
            i = i + 1;
        }
        Ok(FtpPayload { seq_number, session, opcode, size, req_opcode, burst_complete, offset, data })
    }

    /// A request with the given opcode and sequence number and every other field empty.
    pub fn new_request(opcode: FtpOpcode, seq_number: u16) -> (p: FtpPayload)
        ensures
            p.seq_number == seq_number,
            p.session == 0,
            p.opcode == opcode,
            p.size == 0,
            p.req_opcode == FtpOpcode::NoOp,
            p.burst_complete == 0,
            p.offset == 0,
            p.data@ == Seq::<u8>::empty(),
    {
        FtpPayload {
            seq_number,
            session: 0,
            opcode,
            size: 0,
            req_opcode: FtpOpcode::NoOp,
            burst_complete: 0,
            offset: 0,
            data: Vec::new(),
        }
    }
}

/// Decoding the encoding of a payload whose `size` counts its data, which fits in one
/// message, gives back every field.
pub proof fn lemma_encode_decode_roundtrip(p: FtpPayload)
    requires
        p.data@.len() == p.size,
        p.size <= FTP_DATA_MAX_LEN,
    ensures
        FtpPayload::spec_decode(p.spec_encode()) == Ok::<_, FtpDecodeError>(p.fields()),
{
    let b = p.spec_encode();
    lemma_opcode_code_roundtrip(p.opcode);
    lemma_opcode_code_roundtrip(p.req_opcode);
    assert(b[3] == p.opcode.spec_code());
    assert(b[5] == p.req_opcode.spec_code());
    assert(b[0] + b[1] * 256 == p.seq_number as int);
    let o = p.offset as int;
    assert(b[8] == o % 256);
    assert(b[9] == (o / 256) % 256);
    assert(b[10] == (o / 65536) % 256);
    assert(b[11] == (o / 16777216) % 256);
    assert(b[8] + b[9] * 256 + b[10] * 65536 + b[11] * 16777216 == o) by (nonlinear_arith)
        requires
            b[8] == o % 256,
            b[9] == (o / 256) % 256,
            b[10] == (o / 65536) % 256,
            b[11] == (o / 16777216) % 256,
            0 <= o < 4294967296,
    ;
    assert(b.subrange(12, 12 + p.size as int) =~= p.data@);
}

/// Reports the error of a NAK response; any other response passes.
pub open spec fn spec_check_nak(opcode: FtpOpcode, data: Seq<u8>) -> Option<(FtpError, Option<u8>)> {
    if opcode == FtpOpcode::Nak {
        let err_code = if data.len() == 0 {
            FtpError::Fail
        } else {
            match FtpError::spec_from_code(data[0]) {
                Some(e) => e,
                None => FtpError::Fail,
            }
        };
        let errno = if err_code == FtpError::FailErrno && data.len() > 1 { Some(data[1]) } else { None };
        Some((err_code, errno))
    } else {
        None
    }
}

/// Fails with the error that a NAK response reports; any other response passes.
pub fn check_nak(resp: &FtpPayload) -> (r: Result<(), FtpNakError>)
    ensures
        match spec_check_nak(resp.opcode, resp.data@) {
            None => r is Ok,
            Some((code, errno)) => r matches Err(e) && e.err_code == code && e.errno == errno,
        },
{
    if resp.opcode == FtpOpcode::Nak {
        let err_code = if resp.data.len() == 0 {
            FtpError::Fail
        } else {
            match FtpError::from_code(resp.data[0]) {
                Some(e) => e,
                None => FtpError::Fail,
            }
        };
        let errno = if err_code == FtpError::FailErrno && resp.data.len() > 1 {
            Some(resp.data[1])
        } else {
            None
        };
        return Err(FtpNakError { err_code, errno });
    }
    Ok(())
}


/// Kind of an entry of a directory listing.
#[derive(Debug, Clone, Copy, PartialEq, Eq, Structural)]
pub enum ListingEntryKind {
    /// `D`: a directory.
    Directory,
    /// `F`: a file, followed by a tab and its size.
    File,
    /// `S`: an entry to skip.
    Skip,
}

impl ListingEntryKind {
    /// The kind that a listing entry starting with byte `b` has.
    pub open spec fn spec_from_byte(b: u8) -> Option<ListingEntryKind> {
        if b == 68u8 {
            Some(ListingEntryKind::Directory)
        } else if b == 70u8 {
            Some(ListingEntryKind::File)
        } else if b == 83u8 {
            Some(ListingEntryKind::Skip)
        } else {
            None
        }
    }

    /// The kind that a listing entry starting with byte `b` has.
    pub fn from_byte(b: u8) -> (r: Option<ListingEntryKind>)
        ensures
            r == Self::spec_from_byte(b),
    {
        if b == 68u8 {
            Some(ListingEntryKind::Directory)
        } else if b == 70u8 {
            Some(ListingEntryKind::File)
        } else if b == 83u8 {
            Some(ListingEntryKind::Skip)
        } else {
            None
        }
    }
}

/// One entry of a directory listing.
#[derive(Debug, Clone)]
pub struct ListingEntry {
    pub kind: ListingEntryKind,
    pub name: String,
    pub size: Option<u64>,
}

impl View for ListingEntry {
    type V = (ListingEntryKind, Seq<char>, Option<u64>);

    open spec fn view(&self) -> Self::V {
        (self.kind, self.name@, self.size)
    }
}

/// The entries that one NUL-separated segment of a listing yields: none for an empty segment
/// or one of unknown kind; otherwise the kind, the name, and for a file the size written
/// after the first tab.
pub open spec fn spec_segment_entries(seg: Seq<u8>) -> Seq<(ListingEntryKind, Seq<char>, Option<u64>)> {
    if seg.len() == 0 {
        Seq::empty()
    } else {
        match ListingEntryKind::spec_from_byte(seg[0]) {
            None => Seq::empty(),
            Some(kind) => {
                let rest = seg.skip(1);
                if kind == ListingEntryKind::File {
                    let t = next_index_of(rest, 9u8, 0);
                    if t < rest.len() {
                        seq![(kind, spec_utf8_lossy(rest.take(t)), spec_parse_u64(rest.skip(t + 1)))]
                    } else {
                        seq![(kind, spec_utf8_lossy(rest), None)]
                    }
                } else {
                    seq![(kind, spec_utf8_lossy(rest), None)]
                }
            },
        }
    }
}

/// The entries of the listing from byte `pos` on: segments are separated by NUL bytes.
pub open spec fn spec_listing_from(data: Seq<u8>, pos: int) -> Seq<(ListingEntryKind, Seq<char>, Option<u64>)>
    decreases data.len() - pos,
{
    if pos < 0 || pos > data.len() {
        Seq::empty()
    } else {
        let k = next_index_of(data, 0u8, pos);
        proof {
            lemma_next_index_of(data, 0u8, pos);
        }
        if k < data.len() {
            spec_segment_entries(data.subrange(pos, k)) + spec_listing_from(data, k + 1)
        } else {
            spec_segment_entries(data.subrange(pos, k))
        }
    }
}

/// The entries of a directory listing in the order they appear.
pub open spec fn spec_listing(data: Seq<u8>) -> Seq<(ListingEntryKind, Seq<char>, Option<u64>)> {
    spec_listing_from(data, 0)
}

/// Parses one NUL-free segment of a listing.
fn segment_entry(seg: &[u8]) -> (r: Option<ListingEntry>)
    ensures
        match r {
            None => spec_segment_entries(seg@) == Seq::<(ListingEntryKind, Seq<char>, Option<u64>)>::empty(),
            Some(e) => spec_segment_entries(seg@) == seq![e@],
        },
{
    if seg.len() == 0 {
        return None;
    }
    let kind = match ListingEntryKind::from_byte(seg[0]) {
        Some(kind) => kind,
        None => return None,
    };
    let rest = slice_subrange(seg, 1, seg.len());
    assert(rest@ =~= seg@.skip(1));
    match kind {
        ListingEntryKind::File => {
            let t = find_byte(rest, 9u8, 0);
            proof {
                lemma_next_index_of(rest@, 9u8, 0);
            }
            if t < rest.len() {
                let name_bytes = slice_subrange(rest, 0, t);
                let size_bytes = slice_subrange(rest, t + 1, rest.len());
                assert(name_bytes@ =~= rest@.take(t as int));
                assert(size_bytes@ =~= rest@.skip(t + 1));
                Some(ListingEntry { kind, name: utf8_lossy(name_bytes), size: parse_u64_bytes(size_bytes) })
            } else {
                Some(ListingEntry { kind, name: utf8_lossy(rest), size: None })
            }
        },
        _ => Some(ListingEntry { kind, name: utf8_lossy(rest), size: None }),
    }
}

/// Parses the NUL-separated entries of a directory listing; empty segments and segments of
/// unknown kind are skipped.
pub fn parse_listing_entries(data: &[u8]) -> (r: Vec<ListingEntry>)
    ensures
        r@.map_values(|e: ListingEntry| e@) == spec_listing(data@),
{
    let mut entries: Vec<ListingEntry> = Vec::new();
    let mut pos: usize = 0;
    loop
        invariant
            0 <= pos <= data@.len(),
            entries@.map_values(|e: ListingEntry| e@) + spec_listing_from(data@, pos as int)
                == spec_listing(data@),
        decreases data@.len() - pos,
    {
        let k = find_byte(data, 0u8, pos);
        proof {
            lemma_next_index_of(data@, 0u8, pos as int);
        }
        let seg = slice_subrange(data, pos, k);
        let ghost before = entries@.map_values(|e: ListingEntry| e@);
        match segment_entry(seg) {
            Some(e) => {
                entries.push(e);
            },
            None => {},
        }
        let ghost after = entries@.map_values(|e: ListingEntry| e@);
        assert(after =~= before + spec_segment_entries(data@.subrange(pos as int, k as int)));
        if k >= data.len() {
            assert(after + Seq::<(ListingEntryKind, Seq<char>, Option<u64>)>::empty() =~= after);
            return entries;
        }
        assert(before + spec_listing_from(data@, pos as int) =~= after + spec_listing_from(data@, k + 1));
        pos = k + 1;
    }
}
} // verus!
