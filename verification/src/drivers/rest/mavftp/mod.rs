pub mod client;
pub mod protocol;
pub mod session;

use vstd::prelude::*;

use self::protocol::{ListingEntry, ListingEntryKind};
use super::control::{Vehicle, VehicleView, VersionView};
use crate::endpoint_url::opt_view;
use crate::text::{append_decimal, append_str, decimal_chars};

verus! {

/// Failures of the FTP client itself.
#[derive(Debug, Clone, Copy, PartialEq, Eq, Structural)]
pub enum FtpClientError {
    TimedOut,
}

impl FtpClientError {
    /// The message that describes the error.
    pub fn message(&self) -> (r: &'static str)
        ensures
            r@ == "FTP request timed out"@,
    {
        "FTP request timed out"
    }
}

/// Kind of a directory entry as reported to clients.
#[derive(Debug, Clone, Copy, PartialEq, Eq, Structural)]
pub enum DirEntryType {
    Directory,
    File,
    Skip,
}

/// A directory entry as reported to clients.
#[derive(Debug, Clone)]
pub struct DirEntry {
    pub entry_type: DirEntryType,
    pub name: String,
    pub size: Option<u64>,
}

impl DirEntry {
    /// The client entry for a listing entry: same kind, name and size.
    pub fn from(entry: ListingEntry) -> (r: DirEntry)
        ensures
            r.name@ == entry.name@,
            r.size == entry.size,
            r.entry_type == match entry.kind {
                ListingEntryKind::Directory => DirEntryType::Directory,
                ListingEntryKind::File => DirEntryType::File,
                ListingEntryKind::Skip => DirEntryType::Skip,
            },
    {
        DirEntry {
            entry_type: match entry.kind {
                ListingEntryKind::Directory => DirEntryType::Directory,
                ListingEntryKind::File => DirEntryType::File,
                ListingEntryKind::Skip => DirEntryType::Skip,
            },
            name: entry.name,
            size: entry.size,
        }
    }
}

/// A vehicle component that offers FTP.
#[derive(Debug, Clone)]
pub struct FtpTarget {
    pub system_id: u8,
    pub component_id: u8,
    pub description: Option<String>,
}

/// State of a file download as reported to clients.
#[derive(Debug, Clone, Copy, PartialEq, Eq, Structural)]
pub enum DownloadStatus {
    Downloading,
    Complete,
    Error,
}

/// Progress of a file download as reported to clients.
#[derive(Debug, Clone)]
pub struct DownloadProgress {
    pub download_id: String,
    pub filename: String,
    pub bytes_downloaded: u64,
    pub total_bytes: u64,
    pub status: DownloadStatus,
    pub error: Option<String>,
}

/// The part of a path after its last `/`; the whole path when it has none.
pub open spec fn spec_file_name(path: Seq<char>) -> Seq<char> {
    let k = last_slash(path, path.len() as int);
    if k < 0 { path } else { path.skip(k + 1) }
}

/// Index of the last `/` before `end`, or -1.
pub open spec fn last_slash(path: Seq<char>, end: int) -> int
    decreases end,
{
    if end <= 0 {
        -1
    } else if path[end - 1] == '/' {
        end - 1
    } else {
        last_slash(path, end - 1)
    }
}

/// The name under which a downloaded file is offered: the last segment of its path.
pub fn download_filename(path: &str) -> (r: String)
    ensures
        r@ == spec_file_name(path@),
{
    let n = path.unicode_len();
    let mut end = n;
    while end > 0 && path.get_char(end - 1) != '/'
        invariant
            n == path@.len(),
            0 <= end <= n,
            last_slash(path@, n as int) == last_slash(path@, end as int),
        decreases end,
    {
        end = end - 1;
    }
    if end == 0 {
        path.to_string()
    } else {
        path.substring_char(end, n).to_string()
    }
}


/// The capability bit of an autopilot that offers FTP.
pub const FTP_CAPABILITY: u64 = 32;

/// The `<major>.<minor>.<patch>` text of a version.
pub open spec fn version_text(v: VersionView) -> Seq<char> {
    decimal_chars(v.major as nat) + "."@ + decimal_chars(v.minor as nat) + "."@ + decimal_chars(v.patch as nat)
}

/// The FTP target a vehicle offers: its autopilot, once it announced a version with the FTP
/// capability, described by its vehicle type (`Unknown` when none is known) and version.
pub open spec fn spec_ftp_target(v: VehicleView) -> Option<(u8, u8, Seq<char>)> {
    match v.autopilot.version {
        Some(version) => if version.capabilities & FTP_CAPABILITY == FTP_CAPABILITY {
            let vehicle_type = match v.autopilot.vehicle_type {
                Some(t) => t.spec_debug_name(),
                None => "Unknown"@,
            };
            Some((v.vehicle_id, v.autopilot.component_id, vehicle_type + " v"@ + version_text(version)))
        } else {
            None
        },
        None => None,
    }
}

/// The values of the vehicles.
pub open spec fn vehicle_views(vehicles: Seq<Vehicle>) -> Seq<VehicleView> {
    vehicles.map_values(|v: Vehicle| v@)
}

/// The FTP targets of the vehicles, in their order.
pub open spec fn spec_available_targets(vs: Seq<VehicleView>) -> Seq<(u8, u8, Seq<char>)>
    decreases vs.len(),
{
    if vs.len() == 0 {
        Seq::empty()
    } else {
        let rest = spec_available_targets(vs.drop_last());
        match spec_ftp_target(vs.last()) {
            Some(t) => rest.push(t),
            None => rest,
        }
    }
}

/// The FTP target a vehicle offers, if any.
pub fn ftp_target(vehicle: &Vehicle) -> (r: Option<FtpTarget>)
    ensures
        match spec_ftp_target(vehicle@) {
            Some((system_id, component_id, description)) => r matches Some(t) && t.system_id == system_id
                && t.component_id == component_id && opt_view(t.description) == Some(description),
            None => r is None,
        },
{
    let component = &vehicle.autopilot;
    let version = match component.version {
        Some(v) => v,
        None => return None,
    };
    if version.capabilities.bits() & FTP_CAPABILITY != FTP_CAPABILITY {
        return None;
    }
    let mut description = match component.vehicle_type {
        Some(t) => t.debug_name(),
        None => "Unknown".to_string(),
    };
    append_str(&mut description, " v");
    append_decimal(&mut description, version.major);
    append_str(&mut description, ".");
    append_decimal(&mut description, version.minor);
    append_str(&mut description, ".");
    append_decimal(&mut description, version.patch);
    proof {
        reveal_strlit(".");
        reveal_strlit(" v");
        reveal_strlit("Unknown");
        let vehicle_type = match component.vehicle_type {
            Some(t) => t.spec_debug_name(),
            None => "Unknown"@,
        };
        assert(description@ =~= vehicle_type + " v"@ + version_text(version@));
    }
    Some(FtpTarget { system_id: vehicle.vehicle_id, component_id: component.component_id, description: Some(description) })
}

/// The FTP targets among the vehicles.
pub fn available_targets(vehicles: &Vec<Vehicle>) -> (r: Vec<FtpTarget>)
    ensures
        r@.len() == spec_available_targets(vehicle_views(vehicles@)).len(),
        forall|i: int| 0 <= i < r@.len() ==> {
            let t = #[trigger] spec_available_targets(vehicle_views(vehicles@))[i];
            &&& r@[i].system_id == t.0
            &&& r@[i].component_id == t.1
            &&& opt_view(r@[i].description) == Some(t.2)
        },
{
    let ghost views = vehicle_views(vehicles@);
    let mut targets: Vec<FtpTarget> = Vec::new();
    let mut i: usize = 0;
    while i < vehicles.len()
        invariant
            i <= vehicles@.len(),
            views == vehicle_views(vehicles@),
            targets@.len() == spec_available_targets(views.subrange(0, i as int)).len(),
            forall|k: int| 0 <= k < targets@.len() ==> {
                let t = #[trigger] spec_available_targets(views.subrange(0, i as int))[k];
                &&& targets@[k].system_id == t.0
                &&& targets@[k].component_id == t.1
                &&& opt_view(targets@[k].description) == Some(t.2)
            },
        decreases vehicles@.len() - i,
    {
        proof {
            assert(views.subrange(0, i + 1).drop_last() =~= views.subrange(0, i as int));
            assert(views.subrange(0, i + 1).last() == vehicles@[i as int]@);
        }
        match ftp_target(&vehicles[i]) {
            Some(t) => targets.push(t),
            None => {},
        }
        i = i + 1;
    }
    proof {
        assert(views.subrange(0, vehicles@.len() as int) =~= views);
    }
    targets
}

} // verus!
