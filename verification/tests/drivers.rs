use mavlink_server::drivers::fake::{FakeGenerator, FakeSinkInfo, FakeSinkParams, FakeSourceInfo, FakeSourceParams};
use mavlink_server::drivers::file::{FileClient, FileClientInfo, FileServer, FileServerExt};
use mavlink_server::drivers::query::{query_baud_rate, query_direction, query_last_value};
use mavlink_server::drivers::serial::SerialInfo;
use mavlink_server::drivers::tcp::{TcpClientInfo, TcpServerInfo};
use mavlink_server::drivers::tlog::{
    check_arm_state, next_sequence, tlog_sequence, ArmState, ArmWatch, TlogReaderInfo, TlogWriterInfo,
};
use mavlink_server::drivers::udp::{address_of, direction_of, UdpClientInfo, UdpServerInfo};
use mavlink_server::drivers::websocket::WebSocketClientInfo;
use mavlink_server::drivers::udp_clients::UdpClientTable;
use mavlink_server::drivers::zenoh::{field_topic, message_topic, ZenohInfo, ZenohRawInfo};
use mavlink_server::drivers::{Direction, EndpointSpec, FileCreationCondition};
use mavlink_server::endpoint_url::EndpointUrl;

fn url(text: &str) -> EndpointUrl {
    EndpointUrl::parse(text).unwrap()
}

fn pairs(items: &[(&str, &str)]) -> Vec<(String, String)> {
    items.iter().map(|(k, v)| (k.to_string(), v.to_string())).collect()
}

#[test]
fn directions_parse_and_describe_capabilities() {
    assert_eq!(Direction::parse("receiver"), Some(Direction::Receiver));
    assert_eq!(Direction::parse("Receiver"), None);
    assert_eq!(Direction::default(), Direction::Both);
    assert!(Direction::Both.can_send() && Direction::Both.can_receive());
    assert!(Direction::Receiver.receive_only() && !Direction::Receiver.can_send());
    assert!(Direction::Sender.send_only() && !Direction::Sender.can_receive());
}

#[test]
fn query_pairs_give_values_directions_and_baud_rates() {
    let q = pairs(&[("a", "1"), ("direction", "up"), ("a", "2"), ("direction", "sender")]);
    assert_eq!(query_last_value(&q, "a").as_deref(), Some("2"));
    assert_eq!(query_last_value(&q, "b"), None);
    assert_eq!(query_direction(&q), Some(Direction::Sender));
    let q = pairs(&[("baudrate", "fast"), ("arg2", "57600"), ("baudrate", "9600")]);
    assert_eq!(query_baud_rate(&q), Some(57600));
    assert_eq!(query_baud_rate(&pairs(&[])), None);
}

#[test]
fn udp_urls_give_address_and_direction() {
    let u = url("udpin://192.168.1.5:6789?direction=receiver");
    assert_eq!(address_of(&u), "192.168.1.5:6789");
    assert_eq!(direction_of(&u), Direction::Receiver);
    assert_eq!(
        UdpServerInfo.create_endpoint_from_url(&u),
        Some(EndpointSpec::UdpServer { address: "192.168.1.5:6789".to_string(), direction: Direction::Receiver })
    );
    assert_eq!(UdpClientInfo.create_endpoint_from_url(&url("udpc://1.2.3.4:5?direction=receiver")), None);
    assert_eq!(
        UdpClientInfo.create_endpoint_from_url(&url("udpc://1.2.3.4:5?direction=sender")),
        Some(EndpointSpec::UdpClient { address: "1.2.3.4:5".to_string(), direction: Direction::Sender })
    );
    assert_eq!(UdpClientInfo.cli_example_legacy()[0], "udpclient:<IP>:<PORT>");
}

#[test]
fn tcp_serial_and_zenoh_urls() {
    assert_eq!(
        TcpClientInfo.create_endpoint_from_url(&url("tcpc://10.0.0.1:4000")),
        Some(EndpointSpec::TcpClient { address: "10.0.0.1:4000".to_string() })
    );
    assert_eq!(
        TcpServerInfo.create_endpoint_from_url(&url("tcps://0.0.0.0:5760")),
        Some(EndpointSpec::TcpServer { address: "0.0.0.0:5760".to_string() })
    );
    assert_eq!(TcpClientInfo.cli_example_legacy()[1], "tcpc:0.0.0.0:14550");
    assert_eq!(
        SerialInfo.create_endpoint_from_url(&url("serial:///dev/ttyUSB0?baudrate=57600")),
        Some(EndpointSpec::Serial { port_name: "/dev/ttyUSB0".to_string(), baud_rate: 57600 })
    );
    assert_eq!(
        SerialInfo.create_endpoint_from_url(&url("serial:///dev/ttyUSB0")),
        Some(EndpointSpec::Serial { port_name: "/dev/ttyUSB0".to_string(), baud_rate: 115200 })
    );
    assert_eq!(ZenohInfo.create_endpoint_from_url(&url("zenoh://0.0.0.0:7447")), Some(EndpointSpec::Zenoh));
    assert_eq!(ZenohRawInfo.create_endpoint_from_url(&url("zenohraw://0.0.0.0:7447")), Some(EndpointSpec::ZenohRaw));
    assert_eq!(ZenohInfo.name(), "Zenoh");
}

#[test]
fn websocket_clients_strip_the_client_suffix() {
    assert_eq!(
        WebSocketClientInfo.create_endpoint_from_url(&url("wssclient://example.com:9000?direction=sender")),
        Some(EndpointSpec::WebSocketClient {
            address: "example.com:9000".to_string(),
            scheme: "wss".to_string(),
            direction: Direction::Sender,
        })
    );
    assert_eq!(WebSocketClientInfo.cli_example_legacy()[1], "wsclient:0.0.0.0:9988");
}

#[test]
fn fake_and_file_endpoints() {
    assert_eq!(
        FakeSinkInfo.create_endpoint_from_url(&url("fakesink://?print_as_json=false")),
        Some(EndpointSpec::FakeSink { query: Some("print_as_json=false".to_string()) })
    );
    assert_eq!(FakeSourceInfo.create_endpoint_from_url(&url("fakesrc://")), Some(EndpointSpec::FakeSource { query: None }));
    let sink = FakeSinkParams::new_default("FakeSink-1".to_string());
    assert!(sink.print_as_json && !sink.print_as_bytes && !sink.force_parse);
    let source = FakeSourceParams::new_default("FakeSource-1".to_string());
    assert_eq!((source.period_us, source.system_id, source.component_id, source.message_id), (1_000_000, 42, 66, 0));
    assert_eq!(
        FileClientInfo.create_endpoint_from_url(&url("filec:///tmp/out.bin")),
        Some(EndpointSpec::FileClient { path: "/tmp/out.bin".to_string() })
    );
    assert_eq!(
        FileServerExt.create_endpoint_from_url(&url("fileserver://replay.bin")),
        Some(EndpointSpec::FileServer { host: "replay.bin".to_string() })
    );
    assert_eq!(FileClient::new("/tmp/x".to_string()).build().path, "/tmp/x");
    assert_eq!(FileServer::try_new("/tmp/y").unwrap().path, "/tmp/y");
    assert_eq!(FileServer::new("/tmp/z".to_string()).path, "/tmp/z");
}

#[test]
fn tlog_writers_read_their_condition() {
    assert_eq!(
        TlogWriterInfo.create_endpoint_from_url(&url("tlogwriter:///tmp/logs/?when=while_armed&system_id=2")),
        Some(EndpointSpec::TlogWriter {
            path: "/tmp/logs/".to_string(),
            condition: FileCreationCondition::WhileArmed { system_id: Some(2), component_id: 1 },
        })
    );
    assert_eq!(
        TlogWriterInfo.create_endpoint_from_url(&url("tlogwriter:///tmp/a.tlog?when=sometimes")),
        Some(EndpointSpec::TlogWriter { path: "/tmp/a.tlog".to_string(), condition: FileCreationCondition::Always })
    );
    assert_eq!(
        FileCreationCondition::parse("while_armed", None, 1),
        Some(FileCreationCondition::WhileArmed { system_id: None, component_id: 1 })
    );
    assert_eq!(FileCreationCondition::parse("never", None, 1), None);
    assert_eq!(
        TlogReaderInfo.create_endpoint_from_url(&url("tlogreader:///tmp/a.tlog")),
        Some(EndpointSpec::TlogReader { path: "/tmp/a.tlog".to_string() })
    );
    assert_eq!(TlogWriterInfo.cli_example_legacy().len(), 6);
}

#[test]
fn arming_is_read_from_heartbeats() {
    let mut payload = [0u8; 9];
    assert_eq!(check_arm_state(0, &payload), Some(ArmState::Disarmed));
    payload[6] = 128 | 1;
    assert_eq!(check_arm_state(0, &payload), Some(ArmState::Armed));
    assert_eq!(check_arm_state(30, &payload), None);
    assert_eq!(check_arm_state(0, &[1, 2]), Some(ArmState::Disarmed));
}

#[test]
fn arm_watch_learns_the_system_from_the_first_arming() {
    let mut watch = ArmWatch { system_id: None, component_id: 1 };
    assert!(!watch.on_message(3, 2, Some(ArmState::Armed)));
    assert!(!watch.on_message(3, 1, Some(ArmState::Disarmed)));
    assert!(watch.on_message(3, 1, Some(ArmState::Armed)));
    assert_eq!(watch.system_id, Some(3));
    assert!(!watch.on_message(4, 1, Some(ArmState::Armed)));
    assert!(watch.on_message(3, 1, Some(ArmState::Armed)));
}

#[test]
fn tlog_files_are_numbered_in_sequence() {
    assert_eq!(tlog_sequence("00025-2024-04-22_18-49-07.tlog"), Some(25));
    assert_eq!(tlog_sequence("00025-2024-04-22_18-49-07.txt"), None);
    assert_eq!(tlog_sequence("0025-2024-04-22_18-49-07.tlog"), None);
    assert_eq!(tlog_sequence("00a25-2024-04-22_18-49-07.tlog"), None);
    let names: Vec<String> = ["00007-2024-01-01_00-00-00.tlog", "notes.txt", "00012-2024-01-02_00-00-00.tlog"]
        .iter()
        .map(|s| s.to_string())
        .collect();
    assert_eq!(next_sequence(&names), 13);
    assert_eq!(next_sequence(&Vec::new()), 1);
}

use mavlink_server::drivers::tasks::{
    continue_after_send_failure, on_hub_event, on_read, HubEvent, ReadEvent, ReceiveAction, SendAction, SendFailure,
};

#[test]
fn receive_tasks_forward_skip_or_stop() {
    assert_eq!(on_read(ReadEvent::Packet), ReceiveAction::Forward);
    assert_eq!(on_read(ReadEvent::DecodeError), ReceiveAction::Skip);
    assert_eq!(on_read(ReadEvent::IoError), ReceiveAction::Stop);
    assert_eq!(on_read(ReadEvent::EndOfStream), ReceiveAction::Stop);
}

#[test]
fn send_tasks_never_loop_messages_back() {
    let from_self = HubEvent::Message { origin: "127.0.0.1:14550".to_string() };
    let from_other = HubEvent::Message { origin: "fake_source".to_string() };
    assert_eq!(on_hub_event("127.0.0.1:14550", &from_self), SendAction::Skip);
    assert_eq!(on_hub_event("127.0.0.1:14550", &from_other), SendAction::Send);
    assert_eq!(on_hub_event("x", &HubEvent::Lagged), SendAction::Skip);
    assert_eq!(on_hub_event("x", &HubEvent::Closed), SendAction::Stop);
    assert!(continue_after_send_failure(true, SendFailure::ConnectionRefused));
    assert!(!continue_after_send_failure(true, SendFailure::Other));
    assert!(!continue_after_send_failure(false, SendFailure::ConnectionRefused));
}

use mavlink_server::drivers::tlog::{closes_file, tlog_record};

#[test]
fn tlog_records_start_with_a_big_endian_timestamp() {
    let record = tlog_record(0x0102_0304_0506_0708, &[0xFD, 9]);
    assert_eq!(record, vec![1, 2, 3, 4, 5, 6, 7, 8, 0xFD, 9]);
    let ts: u64 = 1_713_811_747_000_000;
    assert_eq!(&tlog_record(ts, &[])[..], &ts.to_be_bytes());
}

#[test]
fn files_close_when_the_expected_vehicle_disarms() {
    let armed = FileCreationCondition::WhileArmed { system_id: Some(1), component_id: 1 };
    assert!(closes_file(&armed, 1, 1, Some(ArmState::Disarmed)));
    assert!(!closes_file(&armed, 1, 1, Some(ArmState::Armed)));
    assert!(!closes_file(&armed, 2, 1, Some(ArmState::Disarmed)));
    assert!(!closes_file(&armed, 1, 2, Some(ArmState::Disarmed)));
    assert!(!closes_file(&armed, 1, 1, None));
    assert!(!closes_file(&FileCreationCondition::Always, 1, 1, Some(ArmState::Disarmed)));
}

use mavlink_server::drivers::tlog::{next_record, tlog_timestamp};

#[test]
fn tlog_records_read_back() {
    let ts: u64 = 1_713_811_747_123_456;
    let mut file = vec![0x11, 0x22];
    file.extend(tlog_record(ts, &[0xFD, 1, 2, 3]));
    let start = next_record(&file, 0).unwrap();
    assert_eq!(start, 2);
    assert_eq!(tlog_timestamp(&file[start..]), ts);
    assert_eq!(next_record(&file, 3), None);
    assert_eq!(next_record(&[0; 8], 0), None);
    assert_eq!(tlog_timestamp(&[0, 0, 0, 0, 0, 0, 1, 2]), 258);
}

#[test]
fn udp_clients_are_added_refreshed_and_dropped_after_the_timeout() {
    let mut table = UdpClientTable::new();
    let first = table.on_datagram("10.0.0.1:1000".to_string(), 0, Some(10_000));
    assert!(first.spawn && first.aborted.is_empty());
    let second = table.on_datagram("10.0.0.2:2000".to_string(), 5_000, Some(10_000));
    assert!(second.spawn && second.aborted.is_empty());
    let refresh = table.on_datagram("10.0.0.2:2000".to_string(), 10_000, Some(10_000));
    assert!(!refresh.spawn && refresh.aborted.is_empty());
    assert_eq!(table.addresses(), vec!["10.0.0.1:1000".to_string(), "10.0.0.2:2000".to_string()]);
    let later = table.on_datagram("10.0.0.2:2000".to_string(), 10_001, Some(10_000));
    assert!(!later.spawn);
    assert_eq!(later.aborted, vec!["10.0.0.1:1000".to_string()]);
    assert_eq!(table.addresses(), vec!["10.0.0.2:2000".to_string()]);
    let back = table.on_datagram("10.0.0.1:1000".to_string(), 10_002, Some(10_000));
    assert!(back.spawn && back.aborted.is_empty());
}

#[test]
fn udp_clients_stay_without_a_timeout() {
    let mut table = UdpClientTable::new();
    table.on_datagram("a:1".to_string(), 0, None);
    let actions = table.on_datagram("b:2".to_string(), u64::MAX, None);
    assert!(actions.spawn && actions.aborted.is_empty());
    assert_eq!(table.addresses(), vec!["a:1".to_string(), "b:2".to_string()]);
}

#[test]
fn zenoh_topics_name_the_sender_and_the_message() {
    let topic = message_topic(1, 191, "HEARTBEAT");
    assert_eq!(topic, "mavlink/1/191/HEARTBEAT");
    assert_eq!(field_topic(&topic, "custom_mode"), "mavlink/1/191/HEARTBEAT/custom_mode");
}

#[test]
fn fake_sources_pace_messages_and_wrap_the_sequence() {
    let mut generator = FakeGenerator::new(1_000);
    assert!(!generator.due(1_001_000, 1_000_000));
    assert!(generator.due(1_001_001, 1_000_000));
    assert_eq!(generator.prev_us, 1_001_001);
    assert!(!generator.due(500, 0));
    for expected in 0..=255u8 {
        assert_eq!(generator.sent(), expected);
    }
    assert_eq!(generator.sent(), 0);
}

use mavlink_server::drivers::tlog::next_timestamped_record;

#[test]
fn tlog_records_without_a_date_are_skipped() {
    let valid: u64 = 1_662_921_288_000_000;
    let mut file = Vec::new();
    file.extend_from_slice(&(i64::MAX as u64).to_be_bytes());
    file.push(0xFD);
    file.extend_from_slice(&valid.to_be_bytes());
    file.push(0xFD);
    file.extend_from_slice(&[9, 0, 0]);
    assert_eq!(next_timestamped_record(&file, 0), Some((9, valid)));
    assert_eq!(next_timestamped_record(&file, 10), None);
    let mut before_epoch = u64::MAX.to_be_bytes().to_vec();
    before_epoch.push(0xFD);
    assert_eq!(next_timestamped_record(&before_epoch, 0), Some((0, u64::MAX)));
}

#[test]
fn tlog_timestamps_are_dates_within_the_supported_years() {
    let record = |micros: i64| {
        let mut data = (micros as u64).to_be_bytes().to_vec();
        data.push(0xFD);
        data
    };
    for micros in [-8_334_601_228_800_000_000i64, 8_210_266_876_799_999_999, 0, -1] {
        assert_eq!(next_timestamped_record(&record(micros), 0), Some((0, micros as u64)));
    }
    for micros in [-8_334_601_228_800_000_001i64, 8_210_266_876_800_000_000, i64::MIN, i64::MAX] {
        assert_eq!(next_timestamped_record(&record(micros), 0), None);
    }
}

use mavlink_server::drivers::tlog::tlog_messages;

fn heartbeat_frame(sequence: u8) -> Vec<u8> {
    let header = mavlink::MavHeader { system_id: 1, component_id: 1, sequence };
    let message = mavlink::ardupilotmega::MavMessage::HEARTBEAT(mavlink::ardupilotmega::HEARTBEAT_DATA::default());
    let mut bytes = Vec::new();
    mavlink::write_v2_msg(&mut bytes, header, &message).unwrap();
    bytes
}

#[test]
fn tlog_messages_are_read_record_by_record() {
    let first = heartbeat_frame(0);
    let second = heartbeat_frame(1);
    let mut file = Vec::new();
    file.extend_from_slice(&[1, 2, 3]);
    file.extend_from_slice(&1_000u64.to_be_bytes());
    file.extend_from_slice(&first);
    file.extend_from_slice(&2_000u64.to_be_bytes());
    file.extend_from_slice(&second);
    let start_first = 3 + 8;
    let start_second = start_first + first.len() + 8;
    assert_eq!(
        tlog_messages(&file),
        vec![(1_000, start_first, first.len()), (2_000, start_second, second.len())]
    );
    let mut truncated = file.clone();
    truncated.extend_from_slice(&3_000u64.to_be_bytes());
    truncated.extend_from_slice(&second[..5]);
    assert_eq!(tlog_messages(&truncated).len(), 2);
    assert_eq!(tlog_messages(&[]), vec![]);
}

use mavlink_server::drivers::udp_clients::on_udp_packet;

#[test]
fn udp_servers_take_in_only_what_their_direction_receives() {
    for (direction, receives) in [(Direction::Both, true), (Direction::Receiver, true), (Direction::Sender, false)] {
        let plan = on_udp_packet(direction);
        assert_eq!((plan.take_input, plan.forward), (receives, receives));
    }
}
