use mavlink_server::drivers::rest::vehicle_logs::client::{ChunkWindow, DownloadState};
use mavlink_server::drivers::rest::vehicle_logs::listing::{
    ListingProgress, LogEntryMessage, LogListing, TimeoutAction, LOG_MAX_RETRIES,
};
use mavlink_server::drivers::rest::vehicle_logs::protocol::{LogDataPacket, LOG_CHUNK_SIZE};
use mavlink_server::drivers::rest::vehicle_logs::{log_download_filename, LogClientError, LogEntry};

fn packet(ofs: u32, bytes: &[u8]) -> LogDataPacket {
    let mut data = [0u8; 90];
    data[..bytes.len()].copy_from_slice(bytes);
    LogDataPacket { ofs, count: bytes.len() as u8, data }
}

fn entry(id: u16, num_logs: u16) -> LogEntryMessage {
    LogEntryMessage { id, num_logs, time_utc: 1000 + id as u32, size: 10 * id as u32 }
}

#[test]
fn downloads_are_split_in_bins_and_chunks() {
    let state = DownloadState::new(200);
    assert_eq!(state.num_bins, 3);
    assert_eq!(state.num_chunks, 1);
    assert_eq!(state.received, vec![false, false, false]);
    let big = DownloadState::new(LOG_CHUNK_SIZE + 1);
    assert_eq!(big.num_chunks, 2);
    assert_eq!(big.num_bins, 2049);
    let empty = DownloadState::new(0);
    assert_eq!((empty.num_bins, empty.num_chunks), (0, 0));
}

#[test]
fn packets_fill_their_bins_once() {
    let mut state = DownloadState::new(200);
    assert!(state.apply_packet(&packet(0, &[7; 90])));
    assert_eq!(state.received, vec![true, false, false]);
    assert_eq!(state.received_count, 1);
    assert!(!state.apply_packet(&packet(0, &[7; 90])));
    assert_eq!(state.duplicate_packets, 1);
    assert_eq!(state.total_packets, 2);
    assert!(state.apply_packet(&packet(180, &[1; 20])));
    assert_eq!(&state.file_data[180..200], &[1u8; 20]);
    assert_eq!(state.bytes_received(), 180);
}

#[test]
fn requests_ask_for_the_first_missing_bin() {
    let mut state = DownloadState::new(200);
    state.apply_packet(&packet(0, &[7; 90]));
    let (window, ofs, count) = state.next_request().unwrap();
    assert_eq!((window.first_bin, window.last_bin, window.end_byte), (0, 2, 200));
    assert_eq!((ofs, count), (90, 110));
    state.apply_packet(&packet(90, &[8; 90]));
    state.apply_packet(&packet(180, &[9; 20]));
    assert!(state.next_request().is_none());
    assert_eq!(state.bytes_received(), 200);
}

#[test]
fn complete_chunks_are_left_behind() {
    let mut state = DownloadState::new(LOG_CHUNK_SIZE + 10);
    let window = state.current_chunk_window(LOG_CHUNK_SIZE + 10).unwrap();
    assert_eq!((window.first_bin, window.last_bin), (0, 2047));
    state.finish_chunk(&window);
    assert_eq!(state.current_chunk, 0);
    for bin in 0..2048u32 {
        state.apply_packet(&packet(bin * 90, &[1; 90]));
    }
    assert!(window.is_complete(&state.received));
    state.finish_chunk(&window);
    assert_eq!(state.current_chunk, 1);
    let (w, ofs, count) = state.next_request().unwrap();
    assert_eq!((w.first_bin, w.last_bin, w.end_byte), (2048, 2048, LOG_CHUNK_SIZE + 10));
    assert_eq!((ofs, count), (LOG_CHUNK_SIZE, 10));
}

#[test]
fn window_gaps_cover_the_rest_of_the_window() {
    let w = ChunkWindow { first_bin: 1, last_bin: 3, end_byte: 300 };
    assert_eq!(w.first_gap_request(&[false, true, false, false]), Some((180, 120)));
    assert_eq!(w.first_gap_request(&[false, true, true, true]), None);
    assert!(w.is_complete(&[false, true, true, true]));
}

#[test]
fn listings_complete_when_every_entry_arrived() {
    let mut listing = LogListing::new();
    assert_eq!(listing.on_entry(entry(2, 3)), ListingProgress::Continue);
    assert_eq!(listing.on_entry(entry(0, 3)), ListingProgress::Continue);
    assert_eq!(listing.on_entry(entry(0, 3)), ListingProgress::Continue);
    assert_eq!(listing.first_missing_id(3), Some(1));
    assert_eq!(listing.on_entry(entry(1, 3)), ListingProgress::Complete);
    let ids: Vec<u16> = listing.into_logs().iter().map(|e| e.id).collect();
    assert_eq!(ids, vec![0, 1, 2]);
}

#[test]
fn listings_without_logs_end_at_once() {
    let mut listing = LogListing::new();
    assert_eq!(listing.on_entry(entry(0, 0)), ListingProgress::NoLogs);
    assert!(listing.into_logs().is_empty());
}

#[test]
fn timeouts_ask_again_or_give_up() {
    let mut listing = LogListing::new();
    assert_eq!(listing.on_timeout(), TimeoutAction::Request { start: 0, end: 0xFFFF });
    listing.on_entry(entry(0, 2));
    assert_eq!(listing.on_timeout(), TimeoutAction::Request { start: 1, end: 1 });
    listing.on_entry(entry(1, 2));
    assert_eq!(listing.on_timeout(), TimeoutAction::Wait);
    for _ in 0..LOG_MAX_RETRIES - 1 {
        assert_ne!(listing.on_timeout(), TimeoutAction::GiveUp);
    }
    assert_eq!(listing.on_timeout(), TimeoutAction::GiveUp);
    let mut other = LogListing::new();
    for _ in 0..LOG_MAX_RETRIES {
        assert!(!other.on_error());
    }
    assert!(other.on_error());
}

#[test]
fn entries_keep_the_last_values_for_an_id() {
    let mut listing = LogListing::new();
    listing.insert(LogEntry { id: 4, time_utc: 1, size: 1 });
    listing.insert(LogEntry { id: 4, time_utc: 2, size: 3 });
    let logs = listing.into_logs();
    assert_eq!(logs.len(), 1);
    assert_eq!((logs[0].time_utc, logs[0].size), (2, 3));
    assert_eq!(LogClientError::TimedOut.message(), "Log request timed out");
}

#[test]
fn downloaded_logs_are_named_by_id() {
    assert_eq!(log_download_filename(7), "log_7.bin");
    assert_eq!(log_download_filename(65535), "log_65535.bin");
}

use mavlink_server::drivers::rest::vehicle_logs::client::ChunkTick;

#[test]
fn chunk_timers_retry_from_the_first_gap() {
    let mut state = DownloadState::new(200);
    state.apply_packet(&packet(0, &[7; 90]));
    let window = state.current_chunk_window(200).unwrap();
    let mut retries = 0;
    assert_eq!(state.chunk_tick(&window, true, true, &mut retries), ChunkTick::Stalled);
    assert_eq!(state.chunk_tick(&window, false, false, &mut retries), ChunkTick::Listen);
    assert_eq!(retries, 0);
    assert_eq!(state.chunk_tick(&window, false, true, &mut retries), ChunkTick::Retry { ofs: 90, count: 110 });
    assert_eq!(retries, 1);
    let mut exhausted = LOG_MAX_RETRIES;
    assert_eq!(state.chunk_tick(&window, false, true, &mut exhausted), ChunkTick::Done);
    assert!(!state.chunk_finished(&window));
    state.apply_packet(&packet(90, &[1; 90]));
    state.apply_packet(&packet(180, &[1; 20]));
    assert!(state.chunk_finished(&window));
    let mut retries = 0;
    assert_eq!(state.chunk_tick(&window, false, true, &mut retries), ChunkTick::Done);
}

use mavlink_server::drivers::rest::vehicle_logs::client::{start_download, DownloadStep};

#[test]
fn whole_downloads_start_stop_and_hand_over_the_file() {
    assert!(start_download(0).is_none());
    let mut state = start_download(100).unwrap();
    assert!(matches!(state.next_step(true), DownloadStep::Cancelled));
    match state.next_step(false) {
        DownloadStep::Request { ofs, count, .. } => assert_eq!((ofs, count), (0, 100)),
        other => panic!("unexpected step {other:?}"),
    }
    assert!(state.apply_packet(&packet(0, &[1; 90])));
    assert!(state.apply_packet(&packet(90, &[2; 10])));
    assert!(matches!(state.next_step(true), DownloadStep::Complete));
    let (file, progress) = state.finished_file();
    assert_eq!((file.len(), progress), (100, 100));
    assert_eq!(&file[88..92], &[1, 1, 2, 2]);
}
