pub mod client;
pub mod listing;
pub mod protocol;

use vstd::prelude::*;

use crate::text::{append_decimal, append_str, decimal_chars};

verus! {

/// Failures of the log client.
#[derive(Debug, Clone, Copy, PartialEq, Eq, Structural)]
pub enum LogClientError {
    TimedOut,
}

impl LogClientError {
    /// The message that describes the error.
    pub fn message(&self) -> (r: &'static str)
        ensures
            r@ == "Log request timed out"@,
    {
        "Log request timed out"
    }
}

/// One log stored on the vehicle.
#[derive(Debug, Clone, Copy)]
pub struct LogEntry {
    pub id: u16,
    pub time_utc: u32,
    pub size: u32,
}

/// State of a log download as reported to clients.
#[derive(Debug, Clone, Copy, PartialEq, Eq, Structural)]
pub enum LogDownloadStatus {
    Downloading,
    Complete,
    Error,
}

/// Progress of a log download as reported to clients.
#[derive(Debug, Clone)]
pub struct LogDownloadProgress {
    pub download_id: String,
    pub filename: String,
    pub bytes_downloaded: u64,
    pub total_bytes: u64,
    pub status: LogDownloadStatus,
    pub error: Option<String>,
}


/// The name under which a downloaded log is offered: `log_<id>.bin`.
pub fn log_download_filename(log_id: u16) -> (r: String)
    ensures
        r@ == "log_"@ + decimal_chars(log_id as nat) + ".bin"@,
{
    let mut name = "log_".to_string();
    append_decimal(&mut name, log_id as u64);
    append_str(&mut name, ".bin");
    name
}

} // verus!
