use mavlink_server::drivers::rest::autopilot::ardupilot::FirmwareType;
use mavlink_server::drivers::rest::autopilot::{AutoPilotType, VehicleType};
use mavlink_server::drivers::rest::control::{
    arm, disarm, generic_arming, is_from, target, version_request, CommandKind, Vehicle, VehicleMessage,
    AUTOPILOT_VERSION_MESSAGE_ID, FORCE_ARMING_MAGIC,
};

fn heartbeat(base_mode: u8, custom_mode: u32, autopilot: u8, mavtype: u8) -> VehicleMessage {
    VehicleMessage::Heartbeat { base_mode, custom_mode, autopilot, mavtype }
}

#[test]
fn requests_default_to_the_first_autopilot() {
    assert_eq!(target(None, None), (1, 1));
    assert_eq!(target(Some(3), Some(190)), (3, 190));
}

#[test]
fn arming_commands_carry_arm_and_force() {
    let c = arm(None, None, None);
    assert_eq!(c.command, CommandKind::ComponentArmDisarm);
    assert_eq!((c.target_system, c.target_component), (1, 1));
    assert_eq!((c.param1, c.param2), (1, 0));
    let c = disarm(Some(2), Some(5), Some(true));
    assert_eq!((c.target_system, c.target_component), (2, 5));
    assert_eq!((c.param1, c.param2), (0, FORCE_ARMING_MAGIC));
    assert_eq!(FORCE_ARMING_MAGIC, 21196);
    assert_eq!(generic_arming(None, None, Some(false), true).param2, 0);
}

#[test]
fn version_requests_ask_for_autopilot_version() {
    let c = version_request(4, 1);
    assert_eq!(c.command, CommandKind::RequestMessage);
    assert_eq!((c.target_system, c.target_component), (4, 1));
    assert_eq!((c.param1, c.param2), (AUTOPILOT_VERSION_MESSAGE_ID, 0));
    assert_eq!(AUTOPILOT_VERSION_MESSAGE_ID, 148);
    assert!(is_from(4, 1, 4, 1));
    assert!(!is_from(4, 1, 4, 2));
}

#[test]
fn heartbeats_set_arming_kind_type_and_mode() {
    let mut v = Vehicle::new(1);
    let m = heartbeat(128 | 81, 5, 3, 2);
    assert!(v.accepts(1, 1, m));
    let u = v.update(1, 1, m);
    assert!(u.updated);
    assert!(u.request_version);
    assert!(u.reload_parameters.is_none());
    assert!(v.autopilot.armed);
    assert_eq!(v.autopilot.autopilot, Some(AutoPilotType::ArduPilotMega));
    assert_eq!(v.autopilot.vehicle_type, Some(VehicleType::Quadrotor));
    assert_eq!(v.autopilot.mode, "loiter");
    let u = v.update(1, 1, heartbeat(81, 5, 12, 2));
    assert!(!v.autopilot.armed);
    assert_eq!(v.autopilot.autopilot, Some(AutoPilotType::Px4));
    assert_eq!(v.autopilot.mode, "loiter");
    assert!(u.request_version);
}

#[test]
fn foreign_messages_are_ignored() {
    let mut v = Vehicle::new(1);
    let u = v.update(2, 1, heartbeat(128, 0, 3, 2));
    assert!(!u.updated && !u.request_version);
    let u = v.update(1, 190, heartbeat(128, 0, 3, 2));
    assert!(!u.updated);
    assert!(!v.autopilot.armed);
    assert_eq!(v.autopilot.autopilot, None);
}

#[test]
fn version_announcements_reload_parameters_once() {
    let mut v = Vehicle::new(1);
    let version = VehicleMessage::AutopilotVersion { flight_sw_version: 0x0405_0300, capabilities: 0xFFFF_FFFF };
    assert!(!v.accepts(1, 1, version));
    v.update(1, 1, heartbeat(81, 0, 3, 12));
    assert!(v.accepts(1, 1, version));
    let u = v.update(1, 1, version);
    let reload = u.reload_parameters.unwrap();
    assert_eq!(reload.firmware, FirmwareType::Submarine);
    assert_eq!(reload.version_major_minor, "4.5");
    let known = v.autopilot.version.unwrap();
    assert_eq!((known.major, known.minor, known.patch), (4, 5, 3));
    assert_eq!(known.capabilities.bits(), 0xF_FFFF);
    let u = v.update(1, 1, version);
    assert!(u.updated);
    assert!(u.reload_parameters.is_none());
    let newer = VehicleMessage::AutopilotVersion { flight_sw_version: 0x0406_0000, capabilities: 0 };
    assert_eq!(v.update(1, 1, newer).reload_parameters.unwrap().version_major_minor, "4.6");
    let u = v.update(1, 1, heartbeat(81, 0, 3, 12));
    assert!(!u.request_version);
}

#[test]
fn telemetry_only_marks_the_vehicle_updated() {
    let mut v = Vehicle::new(7);
    let u = v.update(7, 1, VehicleMessage::Telemetry);
    assert!(u.updated && !u.request_version && u.reload_parameters.is_none());
    let u = v.update(7, 1, VehicleMessage::Other);
    assert!(!u.updated);
    let copy = v.duplicate();
    assert_eq!(copy.vehicle_id, 7);
}

#[test]
fn heartbeats_of_unknown_ardupilot_types_are_refused() {
    let v = Vehicle::new(1);
    assert!(!v.accepts(1, 1, heartbeat(81, 0, 3, 6)));
    assert!(v.accepts(1, 1, heartbeat(0, 0, 3, 6)));
    assert!(v.accepts(1, 1, heartbeat(81, 0, 12, 6)));
    assert!(v.accepts(2, 1, heartbeat(81, 0, 3, 6)));
}

use mavlink_server::drivers::rest::data::Temporal;

#[test]
fn message_timing_counts_every_sighting() {
    let mut t = Temporal::new(1_000);
    assert_eq!((t.first_update_us, t.last_update_us, t.counter), (1_000, 1_000, 1));
    t.update(5_000);
    assert_eq!((t.first_update_us, t.last_update_us, t.counter), (1_000, 5_000, 2));
    t.counter = u64::MAX;
    t.update(6_000);
    assert_eq!(t.counter, 0);
}

use mavlink_server::drivers::rest::downloads::{DownloadRegistry, SessionStatus};

#[test]
fn downloads_report_progress_and_hand_out_their_data_once() {
    let mut registry = DownloadRegistry::new();
    registry.start("a".to_string(), "log_3.bin".to_string(), 10);
    registry.start("b".to_string(), "params.parm".to_string(), 4);
    let report = registry.report("a").unwrap();
    assert_eq!((report.filename.as_str(), report.bytes_downloaded, report.total_bytes), ("log_3.bin", 0, 10));
    assert_eq!(report.status, SessionStatus::Downloading);
    assert!(registry.take("a").is_none());
    registry.set_progress("a", 7);
    assert_eq!(registry.report("a").unwrap().bytes_downloaded, 7);
    registry.finish("a", Ok(vec![1, 2, 3]));
    assert_eq!(registry.report("a").unwrap().status, SessionStatus::Complete);
    assert_eq!(registry.take("a"), Some(("log_3.bin".to_string(), vec![1, 2, 3])));
    assert!(registry.report("a").is_none());
    assert!(registry.take("a").is_none());
    registry.finish("b", Err("timed out".to_string()));
    let failed = registry.report("b").unwrap();
    assert_eq!((failed.status, failed.error.as_deref()), (SessionStatus::Error, Some("timed out")));
    assert!(registry.take("b").is_none());
    assert!(registry.cancel("b"));
    assert!(!registry.cancel("b"));
    registry.finish("b", Ok(vec![9]));
    assert!(registry.report("b").is_none());
}

#[test]
fn restarting_a_download_id_replaces_its_session() {
    let mut registry = DownloadRegistry::new();
    registry.start("a".to_string(), "one".to_string(), 1);
    registry.finish("a", Ok(vec![1]));
    registry.start("a".to_string(), "two".to_string(), 2);
    let report = registry.report("a").unwrap();
    assert_eq!((report.filename.as_str(), report.total_bytes, report.status), ("two", 2, SessionStatus::Downloading));
}

use mavlink_server::drivers::rest::data::MessageStore;

#[test]
fn stored_messages_keep_the_last_one_and_its_timing() {
    let mut store = MessageStore::new();
    store.update(1, 1, "HEARTBEAT".to_string(), 10u32, 100);
    store.update(1, 191, "HEARTBEAT".to_string(), 20u32, 150);
    store.update(1, 1, "HEARTBEAT".to_string(), 30u32, 200);
    let records = store.records();
    assert_eq!(records.len(), 2);
    assert_eq!((records[0].system_id, records[0].component_id, records[0].message), (1, 1, 30));
    assert_eq!(records[0].time, Temporal { first_update_us: 100, last_update_us: 200, counter: 3 });
    assert_eq!(records[1].time, Temporal { first_update_us: 150, last_update_us: 150, counter: 2 });
}

use mavlink_server::drivers::rest::control::PublishLimiter;

#[test]
fn vehicle_updates_are_published_at_most_sixteen_times_a_second() {
    let mut limiter = PublishLimiter::new(1_000_000);
    assert!(!limiter.on_update(1_062_000));
    assert!(limiter.on_update(1_062_001));
    assert_eq!(limiter.last_update_us, 1_062_001);
    assert!(!limiter.on_update(1_100_000));
    assert!(!limiter.on_update(5));
}
