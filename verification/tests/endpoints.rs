use mavlink_server::drivers::endpoints::{DriverKind, LegacyUrlError};
use mavlink_server::drivers::registry::{
    checked_create_driver_from_entry, contains_scheme_separator, create_driver_from_entry, endpoints,
    legacy_parts, process_old_format,
};
use mavlink_server::drivers::{DriverDescriptionLegacy, Direction, EndpointSpec, Type};
use mavlink_server::endpoint_url::EndpointUrl;

fn legacy(typ: Type, arg1: &str, arg2: Option<&str>) -> DriverDescriptionLegacy {
    DriverDescriptionLegacy { typ, arg1: arg1.to_string(), arg2: arg2.map(|a| a.to_string()) }
}

#[test]
fn legacy_parts_split_scheme_and_arguments() {
    assert_eq!(
        legacy_parts("udpin:0.0.0.0:14550"),
        Some(("udpin".to_string(), "0.0.0.0".to_string(), Some("14550".to_string())))
    );
    assert_eq!(
        legacy_parts("tlogw:/tmp/a.tlog"),
        Some(("tlogw".to_string(), "/tmp/a.tlog".to_string(), None))
    );
    assert_eq!(
        legacy_parts("a_b9:x y:12"),
        Some(("a_b9".to_string(), "x y".to_string(), Some("12".to_string())))
    );
}

#[test]
fn legacy_parts_read_unicode_word_characters_and_digits() {
    assert_eq!(
        legacy_parts("caf\u{e9}:x:\u{663}\u{664}"),
        Some(("caf\u{e9}".to_string(), "x".to_string(), Some("\u{663}\u{664}".to_string())))
    );
    assert_eq!(legacy_parts("a:x:\u{bd}"), None);
    assert_eq!(legacy_parts("a+b:x"), None);
}

#[test]
fn legacy_parts_refuse_other_shapes() {
    assert_eq!(legacy_parts("serial"), None);
    assert_eq!(legacy_parts(":x"), None);
    assert_eq!(legacy_parts("a-b:x"), None);
    assert_eq!(legacy_parts("a::1"), None);
    assert_eq!(legacy_parts("a:"), None);
    assert_eq!(legacy_parts("a:x:"), None);
    assert_eq!(legacy_parts("a:x:1b"), None);
    assert_eq!(legacy_parts("a:x:1:2"), None);
}

#[test]
fn scheme_separator_is_found_anywhere() {
    assert!(contains_scheme_separator("udpin://0.0.0.0:14550"));
    assert!(contains_scheme_separator("a:b://"));
    assert!(!contains_scheme_separator("udpin:0.0.0.0:14550"));
    assert!(!contains_scheme_separator(":/"));
}

#[test]
fn old_format_selects_the_kind_by_scheme() {
    let d = process_old_format("udpout:127.0.0.1:1234").unwrap();
    assert_eq!(d.typ, Type::UdpClient);
    assert_eq!(d.arg1, "127.0.0.1");
    assert_eq!(d.arg2.as_deref(), Some("1234"));
    let d = process_old_format("tlogr:/tmp/file.tlog").unwrap();
    assert_eq!(d.typ, Type::TlogReader);
    assert_eq!(d.arg2, None);
    assert!(process_old_format("udpb:192.168.0.255:3000").is_none());
    assert!(process_old_format("udpin://0.0.0.0:14550").is_none());
}

#[test]
fn registry_lists_ten_kinds_in_order() {
    let list = endpoints();
    let types: Vec<Type> = list.iter().map(|e| e.typ).collect();
    assert_eq!(
        types,
        vec![
            Type::TlogWriter,
            Type::TlogReader,
            Type::Serial,
            Type::TcpClient,
            Type::TcpServer,
            Type::UdpClient,
            Type::UdpServer,
            Type::FakeSink,
            Type::FakeSource,
            Type::Zenoh,
        ]
    );
}

#[test]
fn legacy_entries_build_their_drivers() {
    assert_eq!(
        create_driver_from_entry("udpin:0.0.0.0:14550"),
        Ok(EndpointSpec::UdpServer { address: "0.0.0.0:14550".to_string(), direction: Direction::Both })
    );
    assert_eq!(
        create_driver_from_entry("tcpc:10.0.0.1:4000"),
        Ok(EndpointSpec::TcpClient { address: "10.0.0.1:4000".to_string() })
    );
    assert_eq!(
        create_driver_from_entry("udpout:127.0.0.1:1234"),
        Ok(EndpointSpec::UdpClient { address: "127.0.0.1:1234".to_string(), direction: Direction::Both })
    );
    assert_eq!(
        create_driver_from_entry("serial:/dev/ttyACM0:115200"),
        Ok(EndpointSpec::Serial { port_name: "/dev/ttyACM0".to_string(), baud_rate: 115200 })
    );
    assert_eq!(
        create_driver_from_entry("tlogw:/tmp/little_potato.tlog"),
        Ok(EndpointSpec::TlogWriter {
            path: "/tmp/little_potato.tlog".to_string(),
            condition: mavlink_server::drivers::FileCreationCondition::Always,
        })
    );
}

#[test]
fn a_port_alone_listens_on_every_interface() {
    assert_eq!(
        create_driver_from_entry("udpin:14550"),
        Ok(EndpointSpec::UdpServer { address: "0.0.0.0:14550".to_string(), direction: Direction::Both })
    );
}

#[test]
fn url_entries_build_their_drivers() {
    assert_eq!(
        create_driver_from_entry("udpin://0.0.0.0:14550?direction=receiver"),
        Ok(EndpointSpec::UdpServer { address: "0.0.0.0:14550".to_string(), direction: Direction::Receiver })
    );
    assert_eq!(
        create_driver_from_entry("tcps://127.0.0.1:5760"),
        Ok(EndpointSpec::TcpServer { address: "127.0.0.1:5760".to_string() })
    );
}

#[test]
fn entries_without_driver_name_the_entry() {
    assert_eq!(
        create_driver_from_entry("udpc://127.0.0.1:14550?direction=receiver"),
        Err("Found no driver for entry: udpc://127.0.0.1:14550?direction=receiver".to_string())
    );
    assert_eq!(create_driver_from_entry("nothing"), Err("Found no driver for entry: nothing".to_string()));
    assert_eq!(
        create_driver_from_entry("udpb:192.168.0.255:3000"),
        Err("Found no driver for entry: udpb:192.168.0.255:3000".to_string())
    );
}

#[test]
fn checked_creation_stops_where_a_url_lacks_its_port() {
    assert_eq!(checked_create_driver_from_entry("tcpc:somehost"), None);
    assert_eq!(checked_create_driver_from_entry("udpin://0.0.0.0"), None);
    assert_eq!(
        checked_create_driver_from_entry("tcpc:10.0.0.1:4000"),
        Some(Ok(EndpointSpec::TcpClient { address: "10.0.0.1:4000".to_string() }))
    );
    assert_eq!(
        checked_create_driver_from_entry("nothing"),
        Some(Err("Found no driver for entry: nothing".to_string()))
    );
}

#[test]
fn legacy_urls_carry_port_or_argument() {
    let url = DriverKind::UdpServer.url_from_legacy(&legacy(Type::UdpServer, "0.0.0.0", Some("14550"))).unwrap();
    assert_eq!(url.as_str(), "udpserver://0.0.0.0:14550");
    let url = DriverKind::Serial.url_from_legacy(&legacy(Type::Serial, "/dev/ttyS0", Some("9600"))).unwrap();
    assert_eq!(url.as_str(), "serial:///dev/ttyS0?arg2=9600");
    assert_eq!(url.path(), "/dev/ttyS0");
    let url = DriverKind::TlogWriter.url_from_legacy(&legacy(Type::TlogWriter, "/tmp/x", Some("14550"))).unwrap();
    assert_eq!(url.as_str(), "tlogwriter:///tmp/x?arg2=14550");
    let url = DriverKind::Serial.url_from_legacy(&legacy(Type::Serial, "/dev/ttyS0", Some("115200"))).unwrap();
    assert_eq!(url.query_pairs().clone(), vec![("arg2".to_string(), "115200".to_string())]);
    assert_eq!((url.scheme().as_str(), url.port()), ("serial", None));
}

#[test]
fn legacy_urls_fail_without_scheme_or_with_a_bad_host() {
    assert_eq!(
        DriverKind::Rest.url_from_legacy(&legacy(Type::UdpServer, "0.0.0.0", None)).err(),
        Some(LegacyUrlError::NoDefaultScheme)
    );
    assert_eq!(
        DriverKind::TcpClient.url_from_legacy(&legacy(Type::TcpClient, "a b", Some("10"))).err(),
        Some(LegacyUrlError::InvalidUrl)
    );
}

#[test]
fn file_paths_become_urls() {
    let url = DriverKind::TlogReader.url_from_file_path("/tmp/a.tlog").unwrap();
    assert_eq!(url.scheme(), "tlogreader");
    assert_eq!(url.path(), "/tmp/a.tlog");
    assert_eq!(DriverKind::Rest.url_from_file_path("/tmp").err(), Some(LegacyUrlError::NoDefaultScheme));
}

#[test]
fn kinds_build_from_parsed_urls() {
    let url = EndpointUrl::parse("zenoh://127.0.0.1:7447").unwrap();
    assert!(DriverKind::Zenoh.is_url_complete(&url));
    assert_eq!(DriverKind::Zenoh.create_endpoint_from_url(&url), Some(EndpointSpec::Zenoh));
    let url = EndpointUrl::parse("zenoh://127.0.0.1").unwrap();
    assert!(!DriverKind::Zenoh.is_url_complete(&url));
    let url = EndpointUrl::parse("fakesrc://").unwrap();
    assert!(DriverKind::FakeSource.is_url_complete(&url));
    assert_eq!(DriverKind::Rest.create_endpoint_from_url(&url), None);
    assert!(EndpointUrl::parse("no url").is_none());
}

#[test]
fn kinds_know_their_schemes() {
    assert_eq!(DriverKind::UdpClient.valid_schemes(), vec!["udpclient", "udpout", "udpc"]);
    assert_eq!(DriverKind::UdpServer.valid_schemes(), vec!["udpserver", "udpin", "udps"]);
    assert_eq!(DriverKind::TcpClient.valid_schemes(), vec!["tcpc", "tcpclient"]);
    assert_eq!(DriverKind::Rest.valid_schemes(), Vec::<&str>::new());
    assert_eq!(DriverKind::Serial.name(), "Serial");
}
