use vstd::prelude::*;

use super::query::{last_value, query_last_value};
use super::{strs_view, EndpointSpec, EndpointSpecView, FileCreationCondition};
use crate::endpoint_url::{EndpointUrl, UrlView};
use crate::mav::{autopilot_component_id, heartbeat_message_id, safety_armed_flag};
use crate::text::{parse_u8_str, spec_parse_u8_str, str_eq};
use vstd::slice::slice_subrange;

verus! {

impl FileCreationCondition {
    /// The condition named in snake case, `while_armed` (with the given origin) or `always`.
    pub open spec fn spec_parse(s: Seq<char>, system_id: Option<u8>, component_id: u8) -> Option<FileCreationCondition> {
        if s == "while_armed"@ {
            Some(FileCreationCondition::WhileArmed { system_id, component_id })
        } else if s == "always"@ {
            Some(FileCreationCondition::Always)
        } else {
            None
        }
    }

    /// Reads a condition named in snake case: `while_armed`, waiting for the vehicle with the
    /// given origin to arm, or `always`.
    pub fn parse(s: &str, system_id: Option<u8>, component_id: u8) -> (r: Option<FileCreationCondition>)
        ensures
            r == Self::spec_parse(s@, system_id, component_id),
    {
        if str_eq(s, "while_armed") {
            Some(FileCreationCondition::WhileArmed { system_id, component_id })
        } else if str_eq(s, "always") {
            Some(FileCreationCondition::Always)
        } else {
            None
        }
    }
}

/// Endpoints of drivers that write tlog files.
pub struct TlogWriterInfo;

/// The `u8` value of the last pair with this key, when it is a valid number.
pub open spec fn last_u8(q: Seq<(Seq<char>, Seq<char>)>, key: Seq<char>) -> Option<u8> {
    match last_value(q, key) {
        Some(v) => spec_parse_u8_str(v),
        None => None,
    }
}

impl TlogWriterInfo {
    pub fn name(&self) -> (r: &'static str)
        ensures
            r@ == "TlogWriter"@,
    {
        "TlogWriter"
    }

    pub open spec fn spec_valid_schemes() -> Seq<Seq<char>> {
        seq!["tlogwriter"@, "tlogw"@]
    }

    pub fn valid_schemes(&self) -> (r: Vec<&'static str>)
        ensures
            strs_view(r@) == Self::spec_valid_schemes(),
    {
        let r = vec!["tlogwriter", "tlogw"];
        assert(strs_view(r@) =~= Self::spec_valid_schemes());
        r
    }

    pub fn cli_example_legacy(&self) -> (r: Vec<String>)
        ensures
            r@.len() == 6,
            r@[0]@ == "tlogwriter:<FILE>"@,
            r@[1]@ == "tlogwriter:<TLOGS_OUTPUT_DIR>"@,
            r@[2]@ == "tlogwriter:/tmp/potato.tlog"@,
            r@[3]@ == "tlogwriter:/tmp/tlogs_output_dir/"@,
            r@[4]@ == "tlogwriter:<tmp/tlogs_output_dir>/?when=always"@,
            r@[5]@ == "tlogwriter:<tmp/tlogs_output_dir>/?when=while_armed"@,
    {
        vec![
            "tlogwriter:<FILE>".to_string(),
            "tlogwriter:<TLOGS_OUTPUT_DIR>".to_string(),
            "tlogwriter:/tmp/potato.tlog".to_string(),
            "tlogwriter:/tmp/tlogs_output_dir/".to_string(),
            "tlogwriter:<tmp/tlogs_output_dir>/?when=always".to_string(),
            "tlogwriter:<tmp/tlogs_output_dir>/?when=while_armed".to_string(),
        ]
    }

    /// The driver a URL describes: writes to the path of the URL, when the last `when` pair
    /// says (`while_armed` or `always`, `always` by default). A `while_armed` condition waits
    /// for the origin named by the last valid `system_id` (learned when missing) and
    /// `component_id` (the autopilot, 1, when missing or invalid) pairs.
    pub open spec fn spec_create(u: UrlView) -> Option<EndpointSpecView> {
        let q = u.query_pairs;
        let system_id = last_u8(q, "system_id"@);
        let component_id = match last_u8(q, "component_id"@) {
            Some(c) => c,
            None => 1u8,
        };
        let condition = match last_value(q, "when"@) {
            Some(v) => match FileCreationCondition::spec_parse(v, system_id, component_id) {
                Some(c) => c,
                None => FileCreationCondition::Always,
            },
            None => FileCreationCondition::Always,
        };
        Some(EndpointSpecView::TlogWriter { path: u.path, condition })
    }

    pub fn create_endpoint_from_url(&self, url: &EndpointUrl) -> (r: Option<EndpointSpec>)
        ensures
            match r {
                Some(s) => Self::spec_create(url@) == Some(s@),
                None => Self::spec_create(url@) is None,
            },
    {
        let q = url.query_pairs();
        let system_id = match query_last_value(q, "system_id") {
            Some(v) => parse_u8_str(v.as_str()),
            None => None,
        };
        let component_id = match query_last_value(q, "component_id") {
            Some(v) => match parse_u8_str(v.as_str()) {
                Some(c) => c,
                None => autopilot_component_id(),
            },
            None => autopilot_component_id(),
        };
        let condition = match query_last_value(q, "when") {
            Some(v) => match FileCreationCondition::parse(v.as_str(), system_id, component_id) {
                Some(c) => c,
                None => FileCreationCondition::Always,
            },
            None => FileCreationCondition::Always,
        };
        Some(EndpointSpec::TlogWriter { path: url.path().clone(), condition })
    }
}

/// Endpoints of drivers that replay tlog files.
pub struct TlogReaderInfo;

impl TlogReaderInfo {
    pub fn name(&self) -> (r: &'static str)
        ensures
            r@ == "TlogReader"@,
    {
        "TlogReader"
    }

    pub open spec fn spec_valid_schemes() -> Seq<Seq<char>> {
        seq!["tlogreader"@, "tlogr"@]
    }

    pub fn valid_schemes(&self) -> (r: Vec<&'static str>)
        ensures
            strs_view(r@) == Self::spec_valid_schemes(),
    {
        let r = vec!["tlogreader", "tlogr"];
        assert(strs_view(r@) =~= Self::spec_valid_schemes());
        r
    }

    pub fn cli_example_legacy(&self) -> (r: Vec<String>)
        ensures
            r@.len() == 2,
            r@[0]@ == "tlogreader:<FILE>"@,
            r@[1]@ == "tlogreader:/tmp/potato.tlog"@,
    {
        vec!["tlogreader:<FILE>".to_string(), "tlogreader:/tmp/potato.tlog".to_string()]
    }

    /// The driver a URL describes: replays the file at the path of the URL.
    pub open spec fn spec_create(u: UrlView) -> Option<EndpointSpecView> {
        Some(EndpointSpecView::TlogReader { path: u.path })
    }

    pub fn create_endpoint_from_url(&self, url: &EndpointUrl) -> (r: Option<EndpointSpec>)
        ensures
            match r {
                Some(s) => Self::spec_create(url@) == Some(s@),
                None => Self::spec_create(url@) is None,
            },
    {
        Some(EndpointSpec::TlogReader { path: url.path().clone() })
    }
}

/// Whether the vehicle that sent a heartbeat is armed.
#[derive(Debug, Clone, Copy, PartialEq, Eq, Structural)]
pub enum ArmState {
    Disarmed,
    Armed,
}

/// Offset of the `base_mode` byte in the payload of a `HEARTBEAT`.
pub const BASE_MODE_BYTE: usize = 6;

/// The arm state a message reports: only a `HEARTBEAT` reports one, armed when the
/// safety-armed bit of its `base_mode` byte is set; a payload too short to hold the byte
/// counts as no flags.
pub open spec fn spec_arm_state(message_id: u32, payload: Seq<u8>) -> Option<ArmState> {
    if message_id != 0 {
        None
    } else {
        let base_mode = if payload.len() > 6 { payload[6] } else { 0u8 };
        if base_mode & 128u8 == 0 { Some(ArmState::Disarmed) } else { Some(ArmState::Armed) }
    }
}

/// A message reports an arm state exactly when it is a `HEARTBEAT`, and the vehicle is armed
/// exactly when the byte at offset 6 of the payload (`base_mode`) is at least 128, that is
/// when its `MAV_MODE_FLAG_SAFETY_ARMED` bit is set; the other bits of `base_mode` play no
/// part, and a payload without that byte reports a disarmed vehicle.
pub proof fn lemma_arm_state_follows_safety_armed_bit(message_id: u32, payload: Seq<u8>)
    ensures
        message_id != 0 ==> spec_arm_state(message_id, payload) is None,
        message_id == 0 && payload.len() > 6 && payload[6] >= 128
            ==> spec_arm_state(message_id, payload) == Some(ArmState::Armed),
        message_id == 0 && payload.len() > 6 && payload[6] < 128
            ==> spec_arm_state(message_id, payload) == Some(ArmState::Disarmed),
        message_id == 0 && payload.len() <= 6 ==> spec_arm_state(message_id, payload) == Some(ArmState::Disarmed),
{
    if payload.len() > 6 {
        let b = payload[6];
        assert((b & 128u8 == 0) == (b < 128)) by (bit_vector);
    }
    assert((0u8 & 128u8) == 0) by (bit_vector);
}

/// Two heartbeats whose `base_mode` bytes agree on the safety-armed bit report the same arm
/// state, whatever the other bits of the two bytes hold.
pub proof fn lemma_arm_state_ignores_other_mode_bits(payload1: Seq<u8>, payload2: Seq<u8>)
    requires
        payload1.len() > 6,
        payload2.len() > 6,
        (payload1[6] >= 128) == (payload2[6] >= 128),
    ensures
        spec_arm_state(0, payload1) == spec_arm_state(0, payload2),
{
    lemma_arm_state_follows_safety_armed_bit(0, payload1);
    lemma_arm_state_follows_safety_armed_bit(0, payload2);
}

/// Checks whether a message is a heartbeat of an armed vehicle without decoding it.
pub fn check_arm_state(message_id: u32, payload: &[u8]) -> (r: Option<ArmState>)
    ensures
        r == spec_arm_state(message_id, payload@),
        message_id != 0 ==> r is None,
        message_id == 0 ==> (r == Some(ArmState::Armed) <==> (payload@.len() > 6 && payload@[6] >= 128)),
        message_id == 0 ==> (r == Some(ArmState::Disarmed) <==> !(payload@.len() > 6 && payload@[6] >= 128)),
{
    proof {
        lemma_arm_state_follows_safety_armed_bit(message_id, payload@);
    }
    if message_id != heartbeat_message_id() {
        return None;
    }
    let base_mode = if payload.len() > BASE_MODE_BYTE { payload[BASE_MODE_BYTE] } else { 0u8 };
    if base_mode & safety_armed_flag() == 0 {
        Some(ArmState::Disarmed)
    } else {
        Some(ArmState::Armed)
    }
}

/// Waiting for the expected vehicle to arm.
pub struct ArmWatch {
    pub system_id: Option<u8>,
    pub component_id: u8,
}

impl ArmWatch {
    /// Handles a message from `(system_id, component_id)` that reports `state`: returns
    /// whether the expected vehicle armed. The first arming from the expected component fixes
    /// the expected system when none was given.
    pub fn on_message(&mut self, system_id: u8, component_id: u8, state: Option<ArmState>) -> (armed: bool)
        ensures
            final(self).component_id == old(self).component_id,
            if component_id == old(self).component_id && state == Some(ArmState::Armed) {
                match old(self).system_id {
                    None => armed && final(self).system_id == Some(system_id),
                    Some(expected) => armed == (system_id == expected) && final(self).system_id == old(self).system_id,
                }
            } else {
                !armed && final(self).system_id == old(self).system_id
            },
    {
        if component_id == self.component_id && state == Some(ArmState::Armed) {
            match self.system_id {
                None => {
                    self.system_id = Some(system_id);
                    true
                },
                Some(expected) => system_id == expected,
            }
        } else {
            false
        }
    }
}

/// The eight big-endian bytes of a 64-bit value.
pub open spec fn be_u64_bytes(v: u64) -> Seq<u8> {
    Seq::new(8, |i: int| ((v >> ((56 - 8 * i) as u64)) & 0xffu64) as u8)
}

/// The record a tlog file stores for a message: the time it was written, in microseconds
/// since the epoch as eight big-endian bytes, then the raw message.
pub fn tlog_record(timestamp_us: u64, raw: &[u8]) -> (r: Vec<u8>)
    ensures
        r@ == be_u64_bytes(timestamp_us) + raw@,
{
    let mut record: Vec<u8> = Vec::new();
    let mut i: u64 = 0;
    while i < 8
        invariant
            i <= 8,
            record@ == be_u64_bytes(timestamp_us).subrange(0, i as int),
        decreases 8 - i,
    {
        let shift: u64 = 56 - 8 * i;
        record.push(((timestamp_us >> shift) & 0xff) as u8);
        i = i + 1;
        assert(record@ =~= be_u64_bytes(timestamp_us).subrange(0, i as int));
    }
    let mut k: usize = 0;
    while k < raw.len()
        invariant
            k <= raw@.len(),
            record@ == be_u64_bytes(timestamp_us) + raw@.subrange(0, k as int),
        decreases raw@.len() - k,
    {
        record.push(raw[k]);
        k = k + 1;
        assert(record@ =~= be_u64_bytes(timestamp_us) + raw@.subrange(0, k as int));
    }
    assert(raw@.subrange(0, raw@.len() as int) =~= raw@);
    record
}

/// The start marker of a MAVLink 2 frame.
pub const MAV_STX_V2: u8 = 0xFD;

/// The value of eight big-endian bytes.
pub open spec fn be_u64_value(b: Seq<u8>) -> int {
    b[0] * 0x100_0000_0000_0000 + b[1] * 0x1_0000_0000_0000 + b[2] * 0x100_0000_0000 + b[3] * 0x1_0000_0000
        + b[4] * 0x100_0000 + b[5] * 0x1_0000 + b[6] * 0x100 + b[7]
}

/// Reads the timestamp of a tlog record: its first eight bytes, big-endian.
pub fn tlog_timestamp(record: &[u8]) -> (r: u64)
    requires
        record@.len() >= 8,
    ensures
        r == be_u64_value(record@),
{
    let mut value: u64 = 0;
    let mut i: usize = 0;
    while i < 8
        invariant
            i <= 8,
            record@.len() >= 8,
            value == be_prefix_value(record@, i as int),
        decreases 8 - i,
    {
        proof {
            lemma_be_prefix_bound(record@, i as int);
        }
        value = value * 256 + record[i] as u64;
        i = i + 1;
    }
    proof {
        reveal_with_fuel(be_prefix_value, 9);
    }
    value
}

/// The value of the first `k` bytes, big-endian.
pub open spec fn be_prefix_value(b: Seq<u8>, k: int) -> int
    decreases k,
{
    if k <= 0 {
        0
    } else {
        be_prefix_value(b, k - 1) * 256 + b[k - 1]
    }
}

/// The first `k` bytes of eight are worth less than 256 to the power `k`.
proof fn lemma_be_prefix_bound(b: Seq<u8>, k: int)
    requires
        0 <= k < 8,
        b.len() >= 8,
    ensures
        be_prefix_value(b, k) * 256 + b[k] <= u64::MAX,
        0 <= be_prefix_value(b, k),
    decreases k,
{
    reveal_with_fuel(be_prefix_value, 9);
    assert(0 <= b[0] < 256 && 0 <= b[1] < 256 && 0 <= b[2] < 256 && 0 <= b[3] < 256);
    assert(0 <= b[4] < 256 && 0 <= b[5] < 256 && 0 <= b[6] < 256 && 0 <= b[7] < 256);
}

/// Where the next record of a tlog file starts, from `from` on: the first position whose
/// ninth byte is the start marker of a MAVLink 2 frame.
pub open spec fn spec_next_record(data: Seq<u8>, from: int) -> Option<int>
    decreases data.len() - from,
{
    if from < 0 || from + 8 >= data.len() {
        None
    } else if data[from + 8] == MAV_STX_V2 {
        Some(from)
    } else {
        spec_next_record(data, from + 1)
    }
}

/// Finds where the next record of a tlog file starts, skipping bytes until a timestamp is
/// followed by a MAVLink 2 frame.
pub fn next_record(data: &[u8], from: usize) -> (r: Option<usize>)
    ensures
        match r {
            Some(p) => spec_next_record(data@, from as int) == Some(p as int),
            None => spec_next_record(data@, from as int) is None,
        },
{
    let mut p = from;
    while p < data.len() && data.len() - p > 8
        invariant
            from <= p,
            spec_next_record(data@, from as int) == spec_next_record(data@, p as int),
        decreases data@.len() - p,
    {
        if data[p + 8] == MAV_STX_V2 {
            return Some(p);
        }
        p = p + 1;
    }
    None
}

/// The microseconds since the epoch that `chrono` can place in time: from the first moment
/// of January 1, 262143 BCE (year -262143) to the last microsecond of December 31, 262142.
pub open spec fn micros_in_range(micros: i64) -> bool {
    -8_334_601_228_800_000_000 <= micros && micros <= 8_210_266_876_799_999_999
}

/// Asks `chrono::DateTime::from_timestamp_micros` whether `micros` microseconds since the
/// epoch is a date it can represent. Its source turns the microseconds into a day and a time
/// of day and accepts the day exactly when it falls in the years -262143 to 262142; the
/// contract states that range in microseconds.
#[verifier::external_body]
fn timestamp_in_range(micros: i64) -> (r: bool)
    ensures
        r == micros_in_range(micros),
{
    chrono::DateTime::from_timestamp_micros(micros).is_some()
}

/// A record found from `from` on starts there or later, and its timestamp and frame marker
/// lie inside the data.
pub proof fn lemma_next_record_bounds(data: Seq<u8>, from: int)
    ensures
        spec_next_record(data, from) is Some ==> {
            let p = spec_next_record(data, from)->0;
            from <= p && p + 8 < data.len() && data[p + 8] == MAV_STX_V2
        },
    decreases data.len() - from,
{
    if from >= 0 && from + 8 < data.len() && data[from + 8] != MAV_STX_V2 {
        lemma_next_record_bounds(data, from + 1);
    }
}

/// The next record of a tlog file, from `from` on, whose timestamp is a date, with that
/// timestamp: a record whose timestamp is none is skipped one byte on.
pub open spec fn spec_next_timestamped_record(data: Seq<u8>, from: int) -> Option<(int, u64)>
    decreases data.len() - from,
{
    proof {
        lemma_next_record_bounds(data, from);
    }
    match spec_next_record(data, from) {
        None => None,
        Some(p) => {
            let ts = be_u64_value(data.subrange(p, p + 8)) as u64;
            if micros_in_range(ts as i64) {
                Some((p, ts))
            } else {
                spec_next_timestamped_record(data, p + 1)
            }
        },
    }
}

/// Finds the next record whose timestamp is a date, as a tlog reader does before it reads
/// the record's frame.
pub fn next_timestamped_record(data: &[u8], from: usize) -> (r: Option<(usize, u64)>)
    ensures
        match r {
            Some((p, ts)) => spec_next_timestamped_record(data@, from as int) == Some((p as int, ts)),
            None => spec_next_timestamped_record(data@, from as int) is None,
        },
{
    let mut at = from;
    loop
        invariant
            spec_next_timestamped_record(data@, from as int) == spec_next_timestamped_record(data@, at as int),
        decreases data@.len() + 1 - at,
    {
        proof {
            lemma_next_record_bounds(data@, at as int);
        }
        match next_record(data, at) {
            None => return None,
            Some(p) => {
                let n = data.len();
                assert(p + 8 < n);
                let stamp = slice_subrange(data, p, p + 8);
                let ts = tlog_timestamp(stamp);
                assert(stamp@ =~= data@.subrange(p as int, p + 8));
                let micros: i64 = #[verifier::truncate] (ts as i64);
                if timestamp_in_range(micros) {
                    return Some((p, ts));
                }
                at = p + 1;
            },
        }
    }
}

/// A dated record found from `from` on starts there or later, and its timestamp and frame
/// marker lie inside the data.
pub proof fn lemma_next_timestamped_bounds(data: Seq<u8>, from: int)
    ensures
        spec_next_timestamped_record(data, from) matches Some((p, ts)) ==> from <= p && p + 8 < data.len(),
    decreases data.len() - from,
{
    lemma_next_record_bounds(data, from);
    if let Some(p) = spec_next_record(data, from) {
        lemma_next_timestamped_bounds(data, p + 1);
    }
}

/// What `mavlink::read_v2_raw_message` reads from the start of `frame`: the number of bytes
/// left after the message it found and the length of that message, or `None` when the bytes
/// ran out before a message was complete.
pub uninterp spec fn spec_read_v2_frame(frame: Seq<u8>) -> Option<(usize, usize)>;

/// Reads the first MAVLink 2 message from `frame` with `mavlink::read_v2_raw_message` over a
/// `PeekReader`. As its source shows, the reader skips bytes until a frame start marker,
/// passes over frames whose flags it does not know or whose checksum fails one byte at a time,
/// reads no byte beyond the message it returns, and fails only when the bytes run out. The
/// contract names the result and states that the message and the bytes after it fit in the
/// frame.
#[verifier::external_body]
fn read_v2_frame(frame: &[u8]) -> (r: Option<(usize, usize)>)
    ensures
        r == spec_read_v2_frame(frame@),
        r matches Some((rest, len)) ==> 0 < len && len + rest <= frame@.len(),
{
    let mut reader = mavlink::peek_reader::PeekReader::new(frame);
    match mavlink::read_v2_raw_message::<mavlink::ardupilotmega::MavMessage, _>(&mut reader) {
        Ok(message) => Some((reader.reader_ref().len(), message.raw_bytes().len())),
        Err(_) => None,
    }
}

/// The messages of a tlog file from `at` on, as `(timestamp, start, length)`: each dated
/// record's frame is read from just after its timestamp, the next record is searched right
/// after the message read, and reading ends when no dated record is left or the bytes run
/// out in a frame.
pub open spec fn spec_tlog_messages_from(data: Seq<u8>, at: int) -> Seq<(u64, usize, usize)>
    decreases data.len() - at,
{
    proof {
        lemma_next_timestamped_bounds(data, at);
    }
    match spec_next_timestamped_record(data, at) {
        None => Seq::empty(),
        Some((p, ts)) => match spec_read_v2_frame(data.subrange(p + 8, data.len() as int)) {
            None => Seq::empty(),
            Some((rest, len)) => if 0 < len && len + rest <= data.len() - (p + 8) {
                let next = data.len() - rest;
                seq![(ts, (next - len) as usize, len)] + spec_tlog_messages_from(data, next)
            } else {
                Seq::empty()
            },
        },
    }
}

/// The messages of a tlog file, as `(timestamp, start, length)`.
pub open spec fn spec_tlog_messages(data: Seq<u8>) -> Seq<(u64, usize, usize)> {
    spec_tlog_messages_from(data, 0)
}

/// Finds the messages of a tlog file, as a tlog reader does: the timestamp of each, and where
/// its frame starts and how long it is.
pub fn tlog_messages(data: &[u8]) -> (r: Vec<(u64, usize, usize)>)
    ensures
        r@ == spec_tlog_messages(data@),
{
    let mut out: Vec<(u64, usize, usize)> = Vec::new();
    let mut at: usize = 0;
    let n = data.len();
    loop
        invariant
            n == data@.len(),
            at <= n,
            spec_tlog_messages(data@) == out@ + spec_tlog_messages_from(data@, at as int),
        decreases n - at,
    {
        proof {
            lemma_next_timestamped_bounds(data@, at as int);
        }
        match next_timestamped_record(data, at) {
            None => {
                assert(out@ + spec_tlog_messages_from(data@, at as int) =~= out@);
                return out;
            },
            Some((p, ts)) => {
                let frame = slice_subrange(data, p + 8, n);
                match read_v2_frame(frame) {
                    None => {
                        assert(out@ + spec_tlog_messages_from(data@, at as int) =~= out@);
                        return out;
                    },
                    Some((rest, len)) => {
                        let next = n - rest;
                        let ghost before = out@;
                        out.push((ts, next - len, len));
                        assert(spec_tlog_messages_from(data@, at as int)
                            == seq![(ts, (next - len) as usize, len)] + spec_tlog_messages_from(data@, next as int));
                        assert(out@ + spec_tlog_messages_from(data@, next as int)
                            =~= before + spec_tlog_messages_from(data@, at as int));
                        at = next;
                    },
                }
            },
        }
    }
}

/// Reading back a written timestamp gives the timestamp.
pub proof fn lemma_timestamp_roundtrip(v: u64)
    ensures
        be_u64_value(be_u64_bytes(v)) == v,
{
    let b = be_u64_bytes(v);
    assert(b[0] as u64 == (v >> 56u64) & 0xffu64 && b[1] as u64 == (v >> 48u64) & 0xffu64
        && b[2] as u64 == (v >> 40u64) & 0xffu64 && b[3] as u64 == (v >> 32u64) & 0xffu64
        && b[4] as u64 == (v >> 24u64) & 0xffu64 && b[5] as u64 == (v >> 16u64) & 0xffu64
        && b[6] as u64 == (v >> 8u64) & 0xffu64 && b[7] as u64 == (v >> 0u64) & 0xffu64) by {
        truncated_bytes(v);
    }
    assert(v == ((v >> 56u64) & 0xffu64) * 0x100_0000_0000_0000 + ((v >> 48u64) & 0xffu64) * 0x1_0000_0000_0000
        + ((v >> 40u64) & 0xffu64) * 0x100_0000_0000 + ((v >> 32u64) & 0xffu64) * 0x1_0000_0000
        + ((v >> 24u64) & 0xffu64) * 0x100_0000 + ((v >> 16u64) & 0xffu64) * 0x1_0000
        + ((v >> 8u64) & 0xffu64) * 0x100 + ((v >> 0u64) & 0xffu64)) by (bit_vector);
}

/// Each byte of a value, taken as a `u8`, keeps its eight bits.
proof fn truncated_bytes(v: u64)
    by (bit_vector)
    ensures
        (((v >> 56u64) & 0xffu64) as u8) as u64 == (v >> 56u64) & 0xffu64,
        (((v >> 48u64) & 0xffu64) as u8) as u64 == (v >> 48u64) & 0xffu64,
        (((v >> 40u64) & 0xffu64) as u8) as u64 == (v >> 40u64) & 0xffu64,
        (((v >> 32u64) & 0xffu64) as u8) as u64 == (v >> 32u64) & 0xffu64,
        (((v >> 24u64) & 0xffu64) as u8) as u64 == (v >> 24u64) & 0xffu64,
        (((v >> 16u64) & 0xffu64) as u8) as u64 == (v >> 16u64) & 0xffu64,
        (((v >> 8u64) & 0xffu64) as u8) as u64 == (v >> 8u64) & 0xffu64,
        (((v >> 0u64) & 0xffu64) as u8) as u64 == (v >> 0u64) & 0xffu64,
{
}

/// A record written for a MAVLink 2 frame is found where it was written, and its timestamp
/// reads back as written.
pub proof fn lemma_record_read_back(timestamp_us: u64, raw: Seq<u8>)
    requires
        raw.len() > 0,
        raw[0] == MAV_STX_V2,
    ensures
        spec_next_record(be_u64_bytes(timestamp_us) + raw, 0) == Some(0int),
        be_u64_value(be_u64_bytes(timestamp_us) + raw) == timestamp_us,
{
    lemma_timestamp_roundtrip(timestamp_us);
    let record = be_u64_bytes(timestamp_us) + raw;
    assert(record[8] == raw[0]);
    assert(forall|i: int| 0 <= i < 8 ==> record[i] == be_u64_bytes(timestamp_us)[i]);
}

/// Whether a written message closes the current tlog file: under `while_armed`, once the
/// expected vehicle reports that it disarmed.
pub fn closes_file(condition: &FileCreationCondition, system_id: u8, component_id: u8, state: Option<ArmState>) -> (r: bool)
    requires
        condition matches FileCreationCondition::WhileArmed { system_id: expected, .. } ==> expected is Some,
    ensures
        r == match *condition {
            FileCreationCondition::WhileArmed { system_id: expected, component_id: expected_component } =>
                system_id == expected->0 && component_id == expected_component && state == Some(ArmState::Disarmed),
            FileCreationCondition::Always => false,
        },
{
    match condition {
        FileCreationCondition::WhileArmed { system_id: expected, component_id: expected_component } => {
            let expected = match expected {
                Some(s) => *s,
                None => 0,
            };
            system_id == expected && component_id == *expected_component && state == Some(ArmState::Disarmed)
        },
        FileCreationCondition::Always => false,
    }
}

/// Whether a file name has the form `NNNNN-YYYY-MM-DD_hh-mm-ss.tlog` of the files the
/// writer creates.
pub open spec fn is_tlog_name(name: Seq<char>) -> bool {
    &&& name.len() == 30
    &&& forall|i: int| 0 <= i < 30 && i != 5 && i != 10 && i != 13 && i != 16 && i != 19 && i != 22 && !(25 <= i < 30)
        ==> '0' <= #[trigger] name[i] <= '9'
    &&& name[5] == '-' && name[10] == '-' && name[13] == '-' && name[16] == '_' && name[19] == '-' && name[22] == '-'
    &&& name.subrange(25, 30) == ".tlog"@
}

/// The value of the first `k` digits of a name.
pub open spec fn prefix_value(name: Seq<char>, k: int) -> int
    decreases k,
{
    if k <= 0 {
        0
    } else {
        prefix_value(name, k - 1) * 10 + (name[k - 1] as int - 48)
    }
}

/// The value of the first five digits of a tlog file name.
pub open spec fn tlog_name_sequence(name: Seq<char>) -> int {
    prefix_value(name, 5)
}

/// The sequence number of a tlog file name, if it has the writer's form.
pub fn tlog_sequence(name: &str) -> (r: Option<u32>)
    ensures
        r == if is_tlog_name(name@) { Some(tlog_name_sequence(name@) as u32) } else { None::<u32> },
        (r is Some) ==> r->0 < 100000 && r->0 == tlog_name_sequence(name@),
{
    proof {
        reveal_strlit(".tlog");
    }
    if name.unicode_len() != 30 {
        return None;
    }
    let mut i: usize = 0;
    while i < 30
        invariant
            name@.len() == 30,
            0 <= i <= 30,
            forall|j: int| 0 <= j < i && j != 5 && j != 10 && j != 13 && j != 16 && j != 19 && j != 22 && !(25 <= j < 30)
                ==> '0' <= #[trigger] name@[j] <= '9',
        decreases 30 - i,
    {
        let c = name.get_char(i);
        if i != 5 && i != 10 && i != 13 && i != 16 && i != 19 && i != 22 && i < 25 && !('0' <= c && c <= '9') {
            return None;
        }
        i = i + 1;
    }
    if name.get_char(5) != '-' || name.get_char(10) != '-' || name.get_char(13) != '-' || name.get_char(16) != '_'
        || name.get_char(19) != '-' || name.get_char(22) != '-' {
        return None;
    }
    if !str_eq(name.substring_char(25, 30), ".tlog") {
        return None;
    }
    let mut value: u32 = 0;
    let mut k: usize = 0;
    while k < 5
        invariant
            name@.len() == 30,
            0 <= k <= 5,
            forall|j: int| 0 <= j < 5 ==> '0' <= #[trigger] name@[j] <= '9',
            value == prefix_value(name@, k as int),
            value < (if k == 0 { 1int } else if k == 1 { 10int } else if k == 2 { 100int } else if k == 3 { 1000int } else if k == 4 { 10000int } else { 100000int }),
        decreases 5 - k,
    {
        let d = (name.get_char(k) as u32) - 48;
        assert(0 <= d <= 9) by {
            assert('0' <= name@[k as int] <= '9');
        }
        value = value * 10 + d;
        k = k + 1;
    }
    Some(value)
}

/// The largest sequence number among the names that have the writer's form, 0 when none has.
pub open spec fn max_sequence(names: Seq<Seq<char>>) -> int
    decreases names.len(),
{
    if names.len() == 0 {
        0
    } else {
        let rest = max_sequence(names.drop_last());
        if is_tlog_name(names.last()) && tlog_name_sequence(names.last()) > rest {
            tlog_name_sequence(names.last())
        } else {
            rest
        }
    }
}

/// The largest sequence number is an upper bound of the sequence number of every name of
/// the writer's form, is never negative, and is either 0 or the sequence number of one of
/// those names.
pub proof fn lemma_max_sequence_is_largest(names: Seq<Seq<char>>)
    ensures
        0 <= max_sequence(names) <= 99999,
        forall|i: int| 0 <= i < names.len() && is_tlog_name(#[trigger] names[i])
            ==> tlog_name_sequence(names[i]) <= max_sequence(names),
        max_sequence(names) == 0 || exists|i: int| 0 <= i < names.len() && is_tlog_name(#[trigger] names[i])
            && tlog_name_sequence(names[i]) == max_sequence(names),
    decreases names.len(),
{
    if names.len() > 0 {
        let rest = names.drop_last();
        lemma_max_sequence_is_largest(rest);
        let last = names.last();
        if is_tlog_name(last) {
            lemma_tlog_name_sequence_bounds(last);
        }
        assert forall|i: int| 0 <= i < names.len() && is_tlog_name(#[trigger] names[i])
            implies tlog_name_sequence(names[i]) <= max_sequence(names) by {
            if i < names.len() - 1 {
                assert(names[i] == rest[i]);
            }
        }
        if max_sequence(names) != 0 {
            if is_tlog_name(last) && tlog_name_sequence(last) > max_sequence(rest) {
                assert(names[names.len() - 1] == last);
            } else {
                let j = choose|j: int| 0 <= j < rest.len() && is_tlog_name(#[trigger] rest[j])
                    && tlog_name_sequence(rest[j]) == max_sequence(rest);
                assert(names[j] == rest[j]);
            }
        }
    }
}

/// The five leading digits of a name of the writer's form make a number below 100000.
proof fn lemma_tlog_name_sequence_bounds(name: Seq<char>)
    requires
        is_tlog_name(name),
    ensures
        0 <= tlog_name_sequence(name) <= 99999,
{
    assert('0' <= name[0] <= '9');
    assert('0' <= name[1] <= '9');
    assert('0' <= name[2] <= '9');
    assert('0' <= name[3] <= '9');
    assert('0' <= name[4] <= '9');
    reveal_with_fuel(prefix_value, 6);
}

/// Whatever order a directory lists its names in, the largest sequence number is the same:
/// two listings that hold the same names give the same number.
pub proof fn lemma_max_sequence_ignores_order(names1: Seq<Seq<char>>, names2: Seq<Seq<char>>)
    requires
        forall|i: int| 0 <= i < names1.len() ==> names2.contains(#[trigger] names1[i]),
        forall|i: int| 0 <= i < names2.len() ==> names1.contains(#[trigger] names2[i]),
    ensures
        max_sequence(names1) == max_sequence(names2),
{
    lemma_max_sequence_is_largest(names1);
    lemma_max_sequence_is_largest(names2);
    if max_sequence(names1) != 0 {
        let i = choose|i: int| 0 <= i < names1.len() && is_tlog_name(#[trigger] names1[i])
            && tlog_name_sequence(names1[i]) == max_sequence(names1);
        assert(names2.contains(names1[i]));
        let j = choose|j: int| 0 <= j < names2.len() && names2[j] == names1[i];
        assert(is_tlog_name(names2[j]));
    }
    if max_sequence(names2) != 0 {
        let j = choose|j: int| 0 <= j < names2.len() && is_tlog_name(#[trigger] names2[j])
            && tlog_name_sequence(names2[j]) == max_sequence(names2);
        assert(names1.contains(names2[j]));
        let i = choose|i: int| 0 <= i < names1.len() && names1[i] == names2[j];
        assert(is_tlog_name(names1[i]));
    }
}

/// The sequence number of the next tlog file in a directory: one more than the largest
/// sequence number among the file names there.
pub fn next_sequence(names: &Vec<String>) -> (r: u32)
    ensures
        r == max_sequence(names@.map_values(|n: String| n@)) + 1,
        forall|i: int| 0 <= i < names@.len() && is_tlog_name(#[trigger] names@[i]@)
            ==> r > tlog_name_sequence(names@[i]@),
        r == 1 || exists|i: int| 0 <= i < names@.len() && is_tlog_name(#[trigger] names@[i]@)
            && r == tlog_name_sequence(names@[i]@) + 1,
{
    proof {
        let v = names@.map_values(|n: String| n@);
        lemma_max_sequence_is_largest(v);
        assert forall|i: int| 0 <= i < names@.len() && is_tlog_name(#[trigger] names@[i]@)
            implies max_sequence(v) + 1 > tlog_name_sequence(names@[i]@) by {
            assert(v[i] == names@[i]@);
        }
        if max_sequence(v) != 0 {
            let j = choose|j: int| 0 <= j < v.len() && is_tlog_name(#[trigger] v[j])
                && tlog_name_sequence(v[j]) == max_sequence(v);
            assert(v[j] == names@[j]@);
        }
    }
    let ghost views = names@.map_values(|n: String| n@);
    let mut max_seq: u32 = 0;
    let mut i: usize = 0;
    while i < names.len()
        invariant
            0 <= i <= names@.len(),
            views == names@.map_values(|n: String| n@),
            max_seq == max_sequence(views.subrange(0, i as int)),
            max_seq <= 99999,
        decreases names@.len() - i,
    {
        assert(views.subrange(0, i + 1).drop_last() =~= views.subrange(0, i as int));
        assert(views[i as int] == names@[i as int]@);
        match tlog_sequence(names[i].as_str()) {
            Some(seq) => {
                if seq > max_seq {
                    max_seq = seq;
                }
            },
            None => {},
        }
        i = i + 1;
    }
    assert(views.subrange(0, names@.len() as int) =~= views);
    max_seq + 1
}

} // verus!
