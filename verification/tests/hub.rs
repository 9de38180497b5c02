use mavlink_server::hub::{HeartbeatDelay, HeartbeatSchedule};

#[test]
fn bursts_send_five_quick_heartbeats() {
    let mut s = HeartbeatSchedule::new(true);
    let mut delays = Vec::new();
    for _ in 0..8 {
        delays.push(s.next_delay());
        s.heartbeat_sent();
    }
    assert_eq!(
        delays,
        vec![
            HeartbeatDelay::Burst,
            HeartbeatDelay::Burst,
            HeartbeatDelay::Burst,
            HeartbeatDelay::Burst,
            HeartbeatDelay::Burst,
            HeartbeatDelay::Burst,
            HeartbeatDelay::Regular,
            HeartbeatDelay::Regular,
        ]
    );
    assert!(!s.do_burst);
    assert_eq!(s.burst_msgs_counter, 5);
}

#[test]
fn without_burst_every_delay_is_regular() {
    let mut s = HeartbeatSchedule::new(false);
    for _ in 0..3 {
        assert_eq!(s.next_delay(), HeartbeatDelay::Regular);
        s.heartbeat_sent();
    }
    assert_eq!(s.burst_msgs_counter, 0);
}

#[test]
fn unsent_heartbeats_do_not_count() {
    let mut s = HeartbeatSchedule::new(true);
    for _ in 0..10 {
        assert_eq!(s.next_delay(), HeartbeatDelay::Burst);
    }
    assert_eq!(s.burst_msgs_counter, 0);
}

use mavlink_server::hub::{DriverTable, HubError};

#[test]
fn drivers_are_added_once_and_removed_by_id() {
    let mut table = DriverTable::new();
    assert_eq!(table.add_driver(7, "udp"), Ok(7));
    assert_eq!(table.add_driver(9, "tcp"), Ok(9));
    assert_eq!(table.add_driver(11, "serial"), Ok(11));
    assert_eq!(table.add_driver(9, "tcp again"), Err(HubError::DuplicateDriver(9)));
    assert_eq!(table.drivers().to_vec(), vec![(7, "udp"), (9, "tcp again"), (11, "serial")]);
    assert_eq!(table.remove_driver(7), Ok("udp"));
    assert_eq!(table.drivers().to_vec(), vec![(11, "serial"), (9, "tcp again")]);
    assert_eq!(table.remove_driver(7), Err(HubError::DriverNotFound(7)));
}

use mavlink_server::callbacks::CallbackTable;

#[test]
fn callbacks_keep_their_order_when_one_is_removed() {
    let mut table = CallbackTable::new();
    table.add_callback(3, "a");
    table.add_callback(5, "b");
    table.add_callback(8, "c");
    table.add_callback(5, "b2");
    assert_eq!(table.callbacks().to_vec(), vec![(3, "a"), (5, "b2"), (8, "c")]);
    table.remove_callback(3);
    assert_eq!(table.callbacks().to_vec(), vec![(5, "b2"), (8, "c")]);
    table.remove_callback(3);
    assert_eq!(table.callbacks().len(), 2);
}
