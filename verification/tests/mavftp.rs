use mavlink_server::drivers::rest::mavftp::client::{
    announced_file_size, check_file_size, copy_chunk_into_buffer, crc32_from_response, gap_fill_request, path_request,
    rename_data, write_pieces, BurstReadState, ChunkError, FileSizeError, GapFillChunkOutcome, GapFillError, MissingBlock,
};
use mavlink_server::drivers::rest::mavftp::protocol::{
    check_nak, parse_listing_entries, FtpDecodeError, FtpError, FtpOpcode, FtpPayload, ListingEntryKind,
};
use mavlink_server::drivers::rest::mavftp::{download_filename, DirEntry, DirEntryType, FtpClientError};

fn payload(opcode: FtpOpcode, offset: u32, data: &[u8]) -> FtpPayload {
    FtpPayload {
        seq_number: 7,
        session: 1,
        opcode,
        size: data.len() as u8,
        req_opcode: FtpOpcode::BurstReadFile,
        burst_complete: 0,
        offset,
        data: data.to_vec(),
    }
}

#[test]
fn opcodes_have_their_wire_values() {
    assert_eq!(FtpOpcode::NoOp.code(), 0);
    assert_eq!(FtpOpcode::BurstReadFile.code(), 15);
    assert_eq!(FtpOpcode::Ack.code(), 128);
    assert_eq!(FtpOpcode::Nak.code(), 129);
    for v in 0u8..=255 {
        if let Some(op) = FtpOpcode::from_code(v) {
            assert_eq!(op.code(), v);
        }
    }
    assert_eq!(FtpOpcode::from_code(16), None);
    assert_eq!(FtpOpcode::from_code(130), None);
}

#[test]
fn error_codes_and_descriptions() {
    assert_eq!(FtpError::from_code(6), Some(FtpError::Eof));
    assert_eq!(FtpError::from_code(11), None);
    assert_eq!(FtpError::FileNotFound.description(), "File not found");
    assert_eq!(FtpError::NoError.description(), "No error");
    assert_eq!(FtpClientError::TimedOut.message(), "FTP request timed out");
}

#[test]
fn encoding_then_decoding_gives_the_payload_back() {
    let p = FtpPayload {
        seq_number: 0x1234,
        session: 3,
        opcode: FtpOpcode::ReadFile,
        size: 5,
        req_opcode: FtpOpcode::OpenFileRO,
        burst_complete: 1,
        offset: 0x0102_0304,
        data: vec![1, 2, 3, 4, 5],
    };
    let bytes = p.encode();
    assert_eq!(&bytes[..12], &[0x34, 0x12, 3, 5, 5, 4, 1, 0, 4, 3, 2, 1]);
    assert_eq!(&bytes[12..17], &[1, 2, 3, 4, 5]);
    assert!(bytes[17..].iter().all(|b| *b == 0));
    let q = FtpPayload::decode(&bytes).unwrap();
    assert_eq!(q.seq_number, p.seq_number);
    assert_eq!(q.session, p.session);
    assert_eq!(q.opcode, p.opcode);
    assert_eq!(q.size, p.size);
    assert_eq!(q.req_opcode, p.req_opcode);
    assert_eq!(q.burst_complete, p.burst_complete);
    assert_eq!(q.offset, p.offset);
    assert_eq!(q.data, p.data);
}

#[test]
fn decoding_refuses_unknown_opcodes() {
    let mut bytes = [0u8; 251];
    bytes[3] = 200;
    assert_eq!(FtpPayload::decode(&bytes).err(), Some(FtpDecodeError::UnknownOpcode(200)));
    bytes[3] = 128;
    bytes[5] = 99;
    assert_eq!(FtpPayload::decode(&bytes).err(), Some(FtpDecodeError::UnknownRequestOpcode(99)));
}

#[test]
fn naks_report_their_error() {
    let ack = payload(FtpOpcode::Ack, 0, &[]);
    assert!(check_nak(&ack).is_ok());
    let nak = payload(FtpOpcode::Nak, 0, &[10]);
    let e = check_nak(&nak).unwrap_err();
    assert_eq!(e.err_code, FtpError::FileNotFound);
    assert_eq!(e.errno, None);
    let nak = payload(FtpOpcode::Nak, 0, &[2, 13]);
    let e = check_nak(&nak).unwrap_err();
    assert_eq!(e.err_code, FtpError::FailErrno);
    assert_eq!(e.errno, Some(13));
    let nak = payload(FtpOpcode::Nak, 0, &[]);
    assert_eq!(check_nak(&nak).unwrap_err().err_code, FtpError::Fail);
    let nak = payload(FtpOpcode::Nak, 0, &[77]);
    assert_eq!(check_nak(&nak).unwrap_err().err_code, FtpError::Fail);
}

#[test]
fn listings_yield_directories_files_and_skips() {
    let entries = parse_listing_entries(b"Dlogs\0Fdata.bin\t1234\0Sx\0\0Qjunk\0Fnosize");
    let got: Vec<(ListingEntryKind, String, Option<u64>)> =
        entries.iter().map(|e| (e.kind, e.name.clone(), e.size)).collect();
    assert_eq!(
        got,
        vec![
            (ListingEntryKind::Directory, "logs".to_string(), None),
            (ListingEntryKind::File, "data.bin".to_string(), Some(1234)),
            (ListingEntryKind::Skip, "x".to_string(), None),
            (ListingEntryKind::File, "nosize".to_string(), None),
        ]
    );
    let first = DirEntry::from(entries[1].clone());
    assert_eq!(first.entry_type, DirEntryType::File);
    assert_eq!(first.name, "data.bin");
    assert_eq!(first.size, Some(1234));
}

#[test]
fn chunks_grow_the_buffer_with_zeros() {
    let mut file = vec![9u8; 2];
    copy_chunk_into_buffer(&mut file, 4, 2, &[1, 2, 3]).unwrap();
    assert_eq!(file, vec![9, 9, 0, 0, 1, 2]);
    let err = copy_chunk_into_buffer(&mut file, 0, 4, &[1]).unwrap_err();
    assert_eq!(err, ChunkError::ShortChunk { declared: 4, provided: 1 });
    assert_eq!(file, vec![9, 9, 0, 0, 1, 2]);
}

#[test]
fn burst_chunks_extend_the_file_and_record_gaps() {
    let mut state = BurstReadState::new(10);
    assert_eq!(state.apply_burst_chunk(&payload(FtpOpcode::Ack, 0, &[1, 2, 3])), Ok(true));
    assert_eq!(state.contiguous_end, 3);
    assert_eq!(state.apply_burst_chunk(&payload(FtpOpcode::Ack, 6, &[7, 8])), Ok(true));
    assert_eq!(state.contiguous_end, 8);
    assert_eq!(state.missing_blocks.len(), 1);
    assert_eq!((state.missing_blocks[0].offset, state.missing_blocks[0].size), (3, 3));
    assert_eq!(state.apply_burst_chunk(&payload(FtpOpcode::Ack, 2, &[5])), Ok(false));
    assert_eq!(state.apply_burst_chunk(&payload(FtpOpcode::Ack, 9, &[])), Ok(false));
    assert_eq!(state.bytes_written, 5);
    let mut short = payload(FtpOpcode::Ack, 8, &[1]);
    short.size = 2;
    assert_eq!(state.apply_burst_chunk(&short), Err(ChunkError::ShortChunk { declared: 2, provided: 1 }));
    let fill = payload(FtpOpcode::Ack, 3, &[4, 5, 6]);
    assert_eq!(state.apply_gap_fill_response(3, &fill).unwrap(), GapFillChunkOutcome::Filled(3));
    assert_eq!(state.bytes_written, 8);
    let file = state.finish();
    assert_eq!(file, vec![1, 2, 3, 4, 5, 6, 7, 8]);
}

#[test]
fn gap_fill_responses_end_fail_or_bring_nothing() {
    let mut state = BurstReadState::new(4);
    let eof = payload(FtpOpcode::Nak, 0, &[6]);
    assert_eq!(state.apply_gap_fill_response(0, &eof).unwrap(), GapFillChunkOutcome::EndOfFile);
    let empty = payload(FtpOpcode::Ack, 0, &[]);
    assert_eq!(state.apply_gap_fill_response(0, &empty).unwrap(), GapFillChunkOutcome::NoData);
    let nak = payload(FtpOpcode::Nak, 0, &[4]);
    match state.apply_gap_fill_response(0, &nak) {
        Err(GapFillError::Nak(e)) => assert_eq!(e.err_code, FtpError::InvalidSession),
        other => panic!("unexpected {other:?}"),
    }
    let mut short = payload(FtpOpcode::Ack, 0, &[1]);
    short.size = 3;
    match state.apply_gap_fill_response(0, &short) {
        Err(GapFillError::Chunk(e)) => assert_eq!(e, ChunkError::ShortChunk { declared: 3, provided: 1 }),
        other => panic!("unexpected {other:?}"),
    }
}

#[test]
fn gap_fill_reads_at_most_one_message() {
    assert_eq!(gap_fill_request(MissingBlock { offset: 100, size: 1000 }, 0), (100, 239));
    assert_eq!(gap_fill_request(MissingBlock { offset: 100, size: 1000 }, 900), (1000, 100));
}

#[test]
fn requests_carry_paths_and_renames() {
    let p = path_request(FtpOpcode::OpenFileRO, 9, b"/APM/LOGS");
    assert_eq!(p.seq_number, 9);
    assert_eq!(p.opcode, FtpOpcode::OpenFileRO);
    assert_eq!(p.size, 9);
    assert_eq!(p.data, b"/APM/LOGS".to_vec());
    let long = vec![b'a'; 300];
    assert_eq!(path_request(FtpOpcode::ListDirectory, 0, &long).size, 44);
    assert_eq!(rename_data(b"/a", b"/b"), b"/a\0/b".to_vec());
}

#[test]
fn sizes_and_checksums_are_little_endian() {
    let open = payload(FtpOpcode::Ack, 0, &[0x10, 0x27, 0, 0]);
    assert_eq!(announced_file_size(&open), 10000);
    assert_eq!(announced_file_size(&payload(FtpOpcode::Ack, 0, &[1, 2])), 0);
    assert_eq!(crc32_from_response(&payload(FtpOpcode::Ack, 0, &[0x78, 0x56, 0x34, 0x12])), Some(0x1234_5678));
    assert_eq!(crc32_from_response(&payload(FtpOpcode::Ack, 0, &[1])), None);
    assert_eq!(check_file_size(10, Some(5)), Err(FileSizeError::TooLarge { file_size: 10, max: 5 }));
    assert_eq!(check_file_size(5, Some(5)), Ok(()));
    assert_eq!(check_file_size(5, None), Ok(()));
}

#[test]
fn files_are_written_in_message_sized_pieces() {
    let data: Vec<u8> = (0..500u32).map(|i| i as u8).collect();
    let pieces = write_pieces(&data);
    assert_eq!(pieces.len(), 3);
    assert_eq!(pieces[0].0, 0);
    assert_eq!(pieces[1].0, 239);
    assert_eq!(pieces[2].0, 478);
    assert_eq!(pieces[2].1.len(), 22);
    assert_eq!(pieces.iter().flat_map(|p| p.1.clone()).collect::<Vec<u8>>(), data);
    assert!(write_pieces(&[]).is_empty());
}

#[test]
fn downloads_are_named_after_the_last_path_segment() {
    assert_eq!(download_filename("/APM/LOGS/00000001.BIN"), "00000001.BIN");
    assert_eq!(download_filename("plain.txt"), "plain.txt");
    assert_eq!(download_filename("/dir/"), "");
}

use mavlink_server::drivers::rest::mavftp::session::{
    listing_step, FileWrite, FileWriteError, ListingStep, WriteOutcome, WritePhase,
};

#[test]
fn listing_steps_continue_after_the_entries() {
    match listing_step(4, &payload(FtpOpcode::Ack, 0, b"Da\0Fb\t3")) {
        ListingStep::More { entries, next_offset } => {
            assert_eq!(entries.len(), 2);
            assert_eq!(next_offset, 6);
        }
        other => panic!("unexpected {other:?}"),
    }
    assert!(matches!(listing_step(4, &payload(FtpOpcode::Ack, 0, b"")), ListingStep::Done));
    assert!(matches!(listing_step(4, &payload(FtpOpcode::Nak, 0, &[6])), ListingStep::Done));
    match listing_step(4, &payload(FtpOpcode::Nak, 0, &[10])) {
        ListingStep::Failed(e) => assert_eq!(e.err_code, FtpError::FileNotFound),
        other => panic!("unexpected {other:?}"),
    }
}

fn ack(session: u8) -> FtpPayload {
    let mut p = payload(FtpOpcode::Ack, 0, &[]);
    p.session = session;
    p
}

#[test]
fn uploads_go_through_every_phase() {
    let data: Vec<u8> = (0..300u32).map(|i| i as u8).collect();
    let mut upload = FileWrite::new(b"/tmp/f", &data);
    assert_eq!(upload.pieces.len(), 2);
    let r = upload.request().unwrap();
    assert_eq!(r.opcode, FtpOpcode::ResetSessions);
    assert!(matches!(upload.on_response(Some(&ack(0))), WriteOutcome::Continue));
    let r = upload.request().unwrap();
    assert_eq!((r.opcode, r.data.clone()), (FtpOpcode::CreateFile, b"/tmp/f".to_vec()));
    assert!(matches!(upload.on_response(Some(&ack(9))), WriteOutcome::Continue));
    assert_eq!(upload.phase, WritePhase::Write { session: 9, piece: 0 });
    let r = upload.request().unwrap();
    assert_eq!((r.opcode, r.session, r.offset, r.data.len()), (FtpOpcode::WriteFile, 9, 0, 239));
    assert!(matches!(upload.on_response(Some(&ack(9))), WriteOutcome::Continue));
    let r = upload.request().unwrap();
    assert_eq!((r.offset, r.data.len()), (239, 61));
    assert!(matches!(upload.on_response(Some(&ack(9))), WriteOutcome::Continue));
    assert_eq!(upload.phase, WritePhase::Terminate { session: 9 });
    assert_eq!(upload.request().unwrap().opcode, FtpOpcode::TerminateSession);
    assert!(matches!(upload.on_response(Some(&ack(9))), WriteOutcome::Done));
    assert!(upload.request().is_none());
}

#[test]
fn failed_writes_terminate_their_session() {
    let mut upload = FileWrite::new(b"/tmp/f", b"abc");
    upload.on_response(Some(&ack(0)));
    upload.on_response(Some(&ack(3)));
    match upload.on_response(Some(&payload(FtpOpcode::Nak, 0, &[1]))) {
        WriteOutcome::Failed { error: FileWriteError::Write(e), terminate } => {
            assert_eq!(e.err_code, FtpError::Fail);
            assert_eq!(terminate, Some(3));
        }
        other => panic!("unexpected {other:?}"),
    }
    let mut upload = FileWrite::new(b"/tmp/f", b"");
    upload.on_response(Some(&ack(0)));
    assert!(matches!(
        upload.on_response(None),
        WriteOutcome::Failed { error: FileWriteError::NoResponse, terminate: None }
    ));
    upload.on_response(Some(&ack(4)));
    assert_eq!(upload.phase, WritePhase::Terminate { session: 4 });
}

use mavlink_server::drivers::rest::control::{Vehicle, VehicleMessage};
use mavlink_server::drivers::rest::mavftp::{available_targets, ftp_target};

fn announced(vehicle_id: u8, mavtype: u8, capabilities: u64) -> Vehicle {
    let mut v = Vehicle::new(vehicle_id);
    v.update(vehicle_id, 1, VehicleMessage::Heartbeat { base_mode: 0, custom_mode: 0, autopilot: 3, mavtype });
    v.update(vehicle_id, 1, VehicleMessage::AutopilotVersion { flight_sw_version: 0x0405_0300, capabilities });
    v
}

#[test]
fn ftp_targets_are_autopilots_with_the_ftp_capability() {
    let target = ftp_target(&announced(1, 2, 32 | 4)).unwrap();
    assert_eq!((target.system_id, target.component_id), (1, 1));
    assert_eq!(target.description.as_deref(), Some("Quadrotor v4.5.3"));
    assert!(ftp_target(&announced(2, 2, 4)).is_none());
    assert!(ftp_target(&Vehicle::new(3)).is_none());
    let targets = available_targets(&vec![announced(1, 12, 32), announced(2, 2, 0), announced(5, 1, 0xFF)]);
    let ids: Vec<u8> = targets.iter().map(|t| t.system_id).collect();
    assert_eq!(ids, vec![1, 5]);
    assert_eq!(targets[0].description.as_deref(), Some("Submarine v4.5.3"));
    assert_eq!(targets[1].description.as_deref(), Some("FixedWing v4.5.3"));
}

use mavlink_server::drivers::rest::mavftp::client::{burst_request, BurstError, BurstEvent, BurstStep};

fn burst_ack(offset: u32, data: &[u8], complete: bool) -> BurstEvent {
    let mut p = payload(FtpOpcode::Ack, offset, data);
    p.burst_complete = if complete { 1 } else { 0 };
    BurstEvent::Response(p)
}

#[test]
fn burst_requests_start_at_the_contiguous_end() {
    let p = burst_request(4, 478);
    assert_eq!((p.opcode, p.session, p.offset, p.size), (FtpOpcode::BurstReadFile, 4, 478, 239));
}

#[test]
fn burst_events_drive_the_burst_phase() {
    let mut state = BurstReadState::new(6);
    let mut retries = 3;
    assert!(matches!(state.on_burst_event(&burst_ack(0, &[1, 2], false), &mut retries), BurstStep::Wait));
    assert_eq!((retries, state.total_packets, state.contiguous_end), (0, 1, 2));
    assert!(matches!(state.on_burst_event(&burst_ack(2, &[3, 4], true), &mut retries), BurstStep::NextBurst));
    assert_eq!(state.total_packets, 2);
    assert!(matches!(state.on_burst_event(&burst_ack(0, &[9], false), &mut retries), BurstStep::Wait));
    assert_eq!(state.total_packets, 2);
    let mut other = payload(FtpOpcode::Ack, 4, &[5]);
    other.req_opcode = FtpOpcode::ReadFile;
    assert!(matches!(state.on_burst_event(&BurstEvent::Response(other), &mut retries), BurstStep::Wait));
    assert_eq!(state.contiguous_end, 4);
    assert!(matches!(state.on_burst_event(&BurstEvent::ReceiveError, &mut retries), BurstStep::Wait));
    let eof = BurstEvent::Response(payload(FtpOpcode::Nak, 0, &[6]));
    assert!(matches!(state.on_burst_event(&eof, &mut retries), BurstStep::EndOfFile));
    let nak = BurstEvent::Response(payload(FtpOpcode::Nak, 0, &[4]));
    assert!(matches!(
        state.on_burst_event(&nak, &mut retries),
        BurstStep::Failed { error: BurstError::Nak(_), terminate: true }
    ));
    let mut short = payload(FtpOpcode::Ack, 4, &[1]);
    short.size = 2;
    assert!(matches!(
        state.on_burst_event(&BurstEvent::Response(short), &mut retries),
        BurstStep::Failed { error: BurstError::Chunk(_), terminate: false }
    ));
}

#[test]
fn bursts_time_out_after_the_retry_limit() {
    let mut state = BurstReadState::new(6);
    let mut retries = 0;
    for _ in 0..5 {
        assert!(matches!(state.on_burst_event(&BurstEvent::Timeout, &mut retries), BurstStep::NextBurst));
    }
    assert!(matches!(
        state.on_burst_event(&BurstEvent::Timeout, &mut retries),
        BurstStep::Failed { error: BurstError::TimedOut, terminate: true }
    ));
}

use mavlink_server::drivers::rest::mavftp::session::{is_expected_response, is_ftp_message_from, SeqCounter};

#[test]
fn responses_match_their_request() {
    let mut ack = payload(FtpOpcode::Ack, 0, &[]);
    ack.seq_number = 8;
    assert!(is_expected_response(&ack, Some(7)));
    assert!(!is_expected_response(&ack, Some(8)));
    assert!(is_expected_response(&ack, None));
    let mut other = payload(FtpOpcode::ReadFile, 0, &[]);
    other.seq_number = 8;
    assert!(!is_expected_response(&other, Some(7)));
    assert!(is_ftp_message_from(110, 1, 1, 1, 1));
    assert!(!is_ftp_message_from(111, 1, 1, 1, 1));
    assert!(!is_ftp_message_from(110, 2, 1, 1, 1));
}

#[test]
fn sequence_numbers_wrap_around() {
    let mut seq = SeqCounter::new();
    assert_eq!(seq.take(), 0);
    assert_eq!(seq.take(), 1);
    seq.next = u16::MAX;
    assert_eq!(seq.take(), u16::MAX);
    assert_eq!(seq.take(), 0);
}

#[test]
fn a_nak_ends_or_fails_the_burst_whatever_its_offset() {
    let mut state = BurstReadState::new(4);
    let mut retries = 0;
    let mut eof = payload(FtpOpcode::Nak, u32::MAX, &[6]);
    eof.size = 255;
    assert!(matches!(state.on_burst_event(&BurstEvent::Response(eof), &mut retries), BurstStep::EndOfFile));
    let mut nak = payload(FtpOpcode::Nak, u32::MAX, &[1]);
    nak.size = 255;
    match state.on_burst_event(&BurstEvent::Response(nak), &mut retries) {
        BurstStep::Failed { error: BurstError::Nak(e), terminate: true } => assert_eq!(e.err_code, FtpError::Fail),
        other => panic!("unexpected step {other:?}"),
    }
    assert_eq!((state.contiguous_end, state.bytes_written, state.total_packets), (0, 0, 0));
}

#[test]
fn a_repair_nak_fails_whatever_its_offset() {
    let mut state = BurstReadState::new(4);
    let mut nak = payload(FtpOpcode::Nak, 0, &[1]);
    nak.size = 255;
    assert!(matches!(state.apply_gap_fill_response(u32::MAX, &nak), Err(GapFillError::Nak(_))));
    assert_eq!(state.bytes_written, 0);
}

#[test]
fn write_pieces_join_to_the_file() {
    let data: Vec<u8> = (0..600u32).map(|i| (i % 251) as u8).collect();
    let pieces = write_pieces(&data);
    assert_eq!(pieces.iter().map(|p| p.0).collect::<Vec<_>>(), vec![0, 239, 478]);
    let joined: Vec<u8> = pieces.iter().flat_map(|p| p.1.iter().copied()).collect();
    assert_eq!(joined, data);
}
