use vstd::prelude::*;

use super::client::{lemma_pieces_join_to_data, path_request, spec_joined_pieces, spec_write_piece, write_pieces};
use super::protocol::{
    check_nak, parse_listing_entries, spec_check_nak, spec_listing, spec_listing_from, spec_segment_entries,
    FtpError, FtpNakError, FtpOpcode, FtpPayload, ListingEntry, FTP_DATA_MAX_LEN,
};
use crate::text::{lemma_next_index_of, next_index_of};

verus! {

/// A segment of a listing yields at most one entry, and none when it is empty.
proof fn lemma_segment_entries_len(seg: Seq<u8>)
    ensures
        spec_segment_entries(seg).len() <= seg.len(),
        spec_segment_entries(seg).len() <= 1,
{
}

/// A listing holds no more entries than its data has bytes.
pub proof fn lemma_listing_len(data: Seq<u8>, pos: int)
    requires
        0 <= pos <= data.len(),
    ensures
        spec_listing_from(data, pos).len() <= data.len() - pos,
    decreases data.len() - pos,
{
    let k = next_index_of(data, 0u8, pos);
    lemma_next_index_of(data, 0u8, pos);
    lemma_segment_entries_len(data.subrange(pos, k));
    if k < data.len() {
        lemma_listing_len(data, k + 1);
    }
}

/// What a directory listing does with the response to a request at an entry offset.
#[derive(Debug)]
pub enum ListingStep {
    /// The listing is over: the autopilot reported the end, or sent no entry.
    Done,
    /// The autopilot refused the request.
    Failed(FtpNakError),
    /// These entries came; the next request asks from `next_offset`.
    More { entries: Vec<ListingEntry>, next_offset: u32 },
}

/// The step of a directory listing after a response to the request at entry `offset`: an
/// end-of-file NAK or a response without entries ends it, any other NAK fails it, and
/// otherwise the entries are taken and the next request starts after them.
pub fn listing_step(offset: u32, resp: &FtpPayload) -> (r: ListingStep)
    requires
        offset + resp.data@.len() <= u32::MAX,
    ensures
        match spec_check_nak(resp.opcode, resp.data@) {
            Some((code, errno)) => if code == FtpError::Eof {
                r is Done
            } else {
                r matches ListingStep::Failed(e) && e.err_code == code && e.errno == errno
            },
            None => if spec_listing(resp.data@).len() == 0 {
                r is Done
            } else {
                r matches ListingStep::More { entries, next_offset }
                    && entries@.map_values(|e: ListingEntry| e@) == spec_listing(resp.data@)
                    && next_offset == offset + spec_listing(resp.data@).len()
            },
        },
{
    match check_nak(resp) {
        Ok(()) => {},
        Err(nak) => {
            if nak.err_code == FtpError::Eof {
                return ListingStep::Done;
            }
            return ListingStep::Failed(nak);
        },
    }
    let entries = parse_listing_entries(resp.data.as_slice());
    proof {
        lemma_listing_len(resp.data@, 0);
        assert(entries@.len() == entries@.map_values(|e: ListingEntry| e@).len());
    }
    if entries.len() == 0 {
        return ListingStep::Done;
    }
    let next_offset = offset + entries.len() as u32;
    ListingStep::More { entries, next_offset }
}

/// Where a file upload stands: the sessions are reset, the file created, its pieces written
/// one after the other, then the session terminated.
#[derive(Clone, Copy, Debug, PartialEq, Eq, Structural)]
pub enum WritePhase {
    ResetSessions,
    Create,
    Write { session: u8, piece: usize },
    Terminate { session: u8 },
    Done,
}

/// Why an upload failed.
#[derive(Debug)]
pub enum FileWriteError {
    /// Resetting the sessions failed.
    Reset(FtpNakError),
    /// Creating the file failed.
    Create(FtpNakError),
    /// Writing a piece was refused.
    Write(FtpNakError),
    /// Terminating the session failed.
    Terminate(FtpNakError),
    /// No response came to a request.
    NoResponse,
}

/// What the uploader does after a response.
#[derive(Debug)]
pub enum WriteOutcome {
    /// Send the request of the next phase.
    Continue,
    /// The upload failed; terminate this session first, where one was opened and is still
    /// open, without waiting for its result.
    Failed { error: FileWriteError, terminate: Option<u8> },
    /// The file was written and the session closed.
    Done,
}

/// The phase after `phase` succeeded, for an upload of `n_pieces` pieces: the first piece
/// follows the creation, in the session the creation opened, and each piece the one before;
/// termination follows the last piece.
pub open spec fn spec_next_phase(phase: WritePhase, n_pieces: int, created_session: u8) -> WritePhase {
    match phase {
        WritePhase::ResetSessions => WritePhase::Create,
        WritePhase::Create => if n_pieces > 0 {
            WritePhase::Write { session: created_session, piece: 0 }
        } else {
            WritePhase::Terminate { session: created_session }
        },
        WritePhase::Write { session, piece } => if piece + 1 < n_pieces {
            WritePhase::Write { session, piece: (piece + 1) as usize }
        } else {
            WritePhase::Terminate { session }
        },
        WritePhase::Terminate { .. } => WritePhase::Done,
        WritePhase::Done => WritePhase::Done,
    }
}

/// The phase of an upload of `n_pieces` pieces after `k` acknowledged requests, where the
/// creation opened `session`: reset, create, the pieces in order, terminate, done.
pub open spec fn spec_upload_phase(n_pieces: int, session: u8, k: int) -> WritePhase {
    if k == 0 {
        WritePhase::ResetSessions
    } else if k == 1 {
        WritePhase::Create
    } else if k - 2 < n_pieces {
        WritePhase::Write { session, piece: (k - 2) as usize }
    } else if k - 2 == n_pieces {
        WritePhase::Terminate { session }
    } else {
        WritePhase::Done
    }
}

/// A whole upload in which every request is acknowledged: starting from the reset, the
/// phases run through the creation, every piece in order in the session the creation's
/// acknowledgement opened, the termination of that session, and the end.
pub proof fn lemma_upload_run(n_pieces: int, sessions: Seq<u8>, phases: Seq<WritePhase>)
    requires
        0 <= n_pieces < usize::MAX,
        sessions.len() >= 2,
        phases.len() == sessions.len() + 1,
        phases[0] == WritePhase::ResetSessions,
        forall|k: int| 0 <= k < sessions.len() ==> #[trigger] phases[k + 1] == spec_next_phase(phases[k], n_pieces, sessions[k]),
    ensures
        forall|k: int| 0 <= k < phases.len() ==> #[trigger] phases[k] == spec_upload_phase(n_pieces, sessions[1], k),
{
    assert forall|k: int| 0 <= k < phases.len() implies #[trigger] phases[k] == spec_upload_phase(n_pieces, sessions[1], k) by {
        lemma_upload_prefix(n_pieces, sessions, phases, k);
    }
}

/// The requests of a whole upload of `data` in which every request is acknowledged, read
/// from the phases: reset, create, then the pieces in order in the session the creation's
/// acknowledgement opened, piece `i` at offset `239 * i`, the pieces joined giving back
/// `data`, then the termination of that session.
pub proof fn lemma_upload_requests(data: Seq<u8>, sessions: Seq<u8>, phases: Seq<WritePhase>)
    requires
        data.len() <= u32::MAX,
        sessions.len() >= 2,
        phases.len() == sessions.len() + 1,
        phases[0] == WritePhase::ResetSessions,
        forall|k: int| 0 <= k < sessions.len() ==> #[trigger] phases[k + 1] == spec_next_phase(phases[k],
            (data.len() + FTP_DATA_MAX_LEN - 1) / FTP_DATA_MAX_LEN as int, sessions[k]),
    ensures
        ({
            let n = (data.len() + FTP_DATA_MAX_LEN - 1) / FTP_DATA_MAX_LEN as int;
            &&& forall|k: int| 0 <= k < phases.len() ==> #[trigger] phases[k] == spec_upload_phase(n, sessions[1], k)
            &&& forall|i: int| 0 <= i < n ==> (#[trigger] spec_write_piece(data, i)).0 == FTP_DATA_MAX_LEN * i
            &&& spec_joined_pieces(data, n) == data
        }),
{
    assert(FTP_DATA_MAX_LEN == 239);
    let len = data.len() as int;
    let n = (len + 238) / 239;
    assert(0 <= n < usize::MAX) by (nonlinear_arith)
        requires len >= 0, len <= u32::MAX, n == (len + 238) / 239;
    lemma_upload_run(n, sessions, phases);
    lemma_pieces_join_to_data(data);
    assert forall|i: int| 0 <= i < n implies (#[trigger] spec_write_piece(data, i)).0 == FTP_DATA_MAX_LEN * i by {
        assert(i * 239 < len) by (nonlinear_arith)
            requires 0 <= i < n, n == (len + 238) / 239, len >= 0;
    }
}

proof fn lemma_upload_prefix(n_pieces: int, sessions: Seq<u8>, phases: Seq<WritePhase>, k: int)
    requires
        0 <= n_pieces < usize::MAX,
        sessions.len() >= 2,
        phases.len() == sessions.len() + 1,
        phases[0] == WritePhase::ResetSessions,
        forall|j: int| 0 <= j < sessions.len() ==> #[trigger] phases[j + 1] == spec_next_phase(phases[j], n_pieces, sessions[j]),
        0 <= k < phases.len(),
    ensures
        phases[k] == spec_upload_phase(n_pieces, sessions[1], k),
    decreases k,
{
    if k > 0 {
        lemma_upload_prefix(n_pieces, sessions, phases, k - 1);
        assert(phases[(k - 1) + 1] == spec_next_phase(phases[k - 1], n_pieces, sessions[k - 1]));
    }
}

/// An upload of a file over FTP.
pub struct FileWrite {
    pub path: Vec<u8>,
    pub pieces: Vec<(u32, Vec<u8>)>,
    pub phase: WritePhase,
}

impl FileWrite {
    /// The pieces are those of `data`, and the phase refers to one of them.
    pub open spec fn wf(&self) -> bool {
        match self.phase {
            WritePhase::Write { piece, .. } => piece < self.pieces@.len(),
            _ => true,
        }
    }

    /// The phase after the current one succeeded; see [`spec_next_phase`].
    pub open spec fn next_phase(&self, created_session: u8) -> WritePhase {
        spec_next_phase(self.phase, self.pieces@.len() as int, created_session)
    }

    /// Starts the upload of `data` to `path`.
    pub fn new(path: &[u8], data: &[u8]) -> (r: FileWrite)
        requires
            data@.len() <= u32::MAX,
        ensures
            r.wf(),
            r.path@ == path@,
            r.phase == WritePhase::ResetSessions,
            r.pieces@.len() == (data@.len() + FTP_DATA_MAX_LEN - 1) / FTP_DATA_MAX_LEN as int,
            forall|k: int| 0 <= k < r.pieces@.len() ==> (#[trigger] r.pieces@[k]).0 == spec_write_piece(data@, k).0
                && r.pieces@[k].1@ == spec_write_piece(data@, k).1,
    {
        FileWrite { path: vstd::slice::slice_to_vec(path), pieces: write_pieces(data), phase: WritePhase::ResetSessions }
    }

    /// The request of the current phase (its sequence number is the transport's), `None`
    /// once the upload is done.
    pub fn request(&self) -> (r: Option<FtpPayload>)
        requires
            self.wf(),
        ensures
            r matches Some(p) ==> p.seq_number == 0 && p.req_opcode == FtpOpcode::NoOp && p.burst_complete == 0,
            match self.phase {
                WritePhase::ResetSessions => r matches Some(p) && p.opcode == FtpOpcode::ResetSessions
                    && p.session == 0 && p.offset == 0 && p.size == 0 && p.data@.len() == 0,
                WritePhase::Create => r matches Some(p) && p.opcode == FtpOpcode::CreateFile
                    && p.session == 0 && p.offset == 0
                    && p.data@ == self.path@ && p.size == self.path@.len() % 256,
                WritePhase::Write { session, piece } => r matches Some(p) && p.opcode == FtpOpcode::WriteFile
                    && p.session == session && p.offset == self.pieces@[piece as int].0
                    && p.data@ == self.pieces@[piece as int].1@ && p.size == self.pieces@[piece as int].1@.len() % 256,
                WritePhase::Terminate { session } => r matches Some(p) && p.opcode == FtpOpcode::TerminateSession
                    && p.session == session && p.offset == 0 && p.size == 0 && p.data@.len() == 0,
                WritePhase::Done => r is None,
            },
    {
        match self.phase {
            WritePhase::ResetSessions => Some(FtpPayload::new_request(FtpOpcode::ResetSessions, 0)),
            WritePhase::Create => Some(path_request(FtpOpcode::CreateFile, 0, self.path.as_slice())),
            WritePhase::Write { session, piece } => {
                let mut p = path_request(FtpOpcode::WriteFile, 0, self.pieces[piece].1.as_slice());
                p.session = session;
                p.offset = self.pieces[piece].0;
                Some(p)
            },
            WritePhase::Terminate { session } => {
                let mut p = FtpPayload::new_request(FtpOpcode::TerminateSession, 0);
                p.session = session;
                Some(p)
            },
            WritePhase::Done => None,
        }
    }

    /// Takes the response to the current request, `None` when none came: a NAK or a missing
    /// response fails the upload (a session that is open is terminated on the way out), and
    /// any other response moves to the next phase.
    pub fn on_response(&mut self, resp: Option<&FtpPayload>) -> (r: WriteOutcome)
        requires
            old(self).wf(),
        ensures
            final(self).wf(),
            final(self).path@ == old(self).path@,
            final(self).pieces@ == old(self).pieces@,
            old(self).phase == WritePhase::Done ==> r is Done && final(self).phase == WritePhase::Done,
            old(self).phase != WritePhase::Done ==> match resp {
                None => {
                    &&& final(self).phase == old(self).phase
                    &&& r matches WriteOutcome::Failed { error, terminate } && error is NoResponse
                        && terminate == match old(self).phase {
                            WritePhase::Write { session, .. } => Some(session),
                            _ => None::<u8>,
                        }
                },
                Some(p) => match spec_check_nak(p.opcode, p.data@) {
                    Some((code, errno)) => {
                        &&& final(self).phase == old(self).phase
                        &&& r matches WriteOutcome::Failed { error, terminate } && match error {
                            FileWriteError::Reset(e) => old(self).phase == WritePhase::ResetSessions
                                && e.err_code == code && e.errno == errno && terminate is None,
                            FileWriteError::Create(e) => old(self).phase == WritePhase::Create
                                && e.err_code == code && e.errno == errno && terminate is None,
                            FileWriteError::Write(e) => (old(self).phase matches WritePhase::Write { session, .. }
                                && terminate == Some(session)) && e.err_code == code && e.errno == errno,
                            FileWriteError::Terminate(e) => (old(self).phase is Terminate)
                                && e.err_code == code && e.errno == errno && terminate is None,
                            FileWriteError::NoResponse => false,
                        }
                    },
                    None => {
                        &&& final(self).phase == old(self).next_phase(p.session)
                        &&& if final(self).phase == WritePhase::Done { r is Done } else { r is Continue }
                    },
                },
            },
    {
        let phase = self.phase;
        if phase == WritePhase::Done {
            return WriteOutcome::Done;
        }
        let resp = match resp {
            None => {
                let terminate = match phase {
                    WritePhase::Write { session, .. } => Some(session),
                    _ => None,
                };
                return WriteOutcome::Failed { error: FileWriteError::NoResponse, terminate };
            },
            Some(p) => p,
        };
        match check_nak(resp) {
            Ok(()) => {},
            Err(nak) => {
                return match phase {
                    WritePhase::ResetSessions => WriteOutcome::Failed { error: FileWriteError::Reset(nak), terminate: None },
                    WritePhase::Create => WriteOutcome::Failed { error: FileWriteError::Create(nak), terminate: None },
                    WritePhase::Write { session, .. } => WriteOutcome::Failed {
                        error: FileWriteError::Write(nak),
                        terminate: Some(session),
                    },
                    _ => WriteOutcome::Failed { error: FileWriteError::Terminate(nak), terminate: None },
                };
            },
        }
        let next = match phase {
            WritePhase::ResetSessions => WritePhase::Create,
            WritePhase::Create => if self.pieces.len() > 0 {
                WritePhase::Write { session: resp.session, piece: 0 }
            } else {
                WritePhase::Terminate { session: resp.session }
            },
            WritePhase::Write { session, piece } => if piece < self.pieces.len() - 1 {
                WritePhase::Write { session, piece: piece + 1 }
            } else {
                WritePhase::Terminate { session }
            },
            _ => WritePhase::Done,
        };
        self.phase = next;
        if next == WritePhase::Done {
            WriteOutcome::Done
        } else {
            WriteOutcome::Continue
        }
    }
}


/// The id of the `FILE_TRANSFER_PROTOCOL` message.
pub const FTP_MESSAGE_ID: u32 = 110;

/// Whether a message is an FTP message of the target.
pub fn is_ftp_message_from(message_id: u32, system_id: u8, component_id: u8, target_system: u8, target_component: u8) -> (r: bool)
    ensures
        r == (message_id == FTP_MESSAGE_ID && system_id == target_system && component_id == target_component),
{
    message_id == FTP_MESSAGE_ID && system_id == target_system && component_id == target_component
}

/// Whether a response answers the request with sequence number `expected_seq`: it carries
/// the next sequence number and is an ACK or a NAK. Without an expected sequence number
/// (during a burst) every response counts.
pub fn is_expected_response(resp: &FtpPayload, expected_seq: Option<u16>) -> (r: bool)
    requires
        expected_seq matches Some(seq) ==> seq < u16::MAX,
    ensures
        r == match expected_seq {
            None => true,
            Some(seq) => resp.seq_number == seq + 1 && (resp.opcode == FtpOpcode::Ack || resp.opcode == FtpOpcode::Nak),
        },
{
    match expected_seq {
        None => true,
        Some(seq) => resp.seq_number == seq + 1 && (resp.opcode == FtpOpcode::Ack || resp.opcode == FtpOpcode::Nak),
    }
}

/// The sequence numbers of FTP requests: each request takes the next one, wrapping around.
pub struct SeqCounter {
    pub next: u16,
}

impl SeqCounter {
    /// A counter that starts at zero.
    pub fn new() -> (r: SeqCounter)
        ensures
            r.next == 0,
    {
        SeqCounter { next: 0 }
    }

    /// Takes the next sequence number.
    pub fn take(&mut self) -> (r: u16)
        ensures
            r == old(self).next,
            final(self).next == (old(self).next + 1) % 0x1_0000,
    {
        let seq = self.next;
        self.next = self.next.wrapping_add(1);
        seq
    }
}

} // verus!
