use mavlink_server::cli;
use mavlink_server::cli::endpoints_parser;
use mavlink_server::drivers::{Direction, EndpointSpec};
use mavlink_server::drivers::registry::endpoints;

fn check_entries(entries: &[(&str, bool)]) {
    for (endpoint, expected) in entries {
        let result = endpoints_parser(endpoint);
        assert_eq!(result.is_ok(), *expected, "{endpoint}");
    }
}

#[test]
fn test_endpoints() {
    let endpoints = vec![
        ("serial:/dev/ttyACM0:115200", true),
        ("serial:/dev/ttyS0:9600", true),
        ("serial:COM1:115200", true),
        ("tcpc:10.0.0.1:4000", true),
        ("tcpc:127.0.0.1:7000", true),
        ("tcps:0.0.0.0:5000", true),
        ("tcps:192.168.1.10:6000", true),
        ("udpb:192.168.0.255:3000", false),
        ("udpb:255.255.255.255:9999", false),
        ("udpc:127.0.0.1:1234", true),
        ("udpc:192.168.1.100:8080", true),
        ("udpout:127.0.0.1:1234", true),
        ("udpout:192.168.1.100:8080", true),
        ("udps:0.0.0.0:5000", true),
        ("udps:192.168.1.5:6789", true),
        ("udpin:0.0.0.0:5000", true),
        ("udpin:192.168.1.5:6789", true),
    ];
    check_entries(&endpoints);
}

#[test]
fn cli_test_endpoints() {
    let endpoints = vec![
        ("serial:/dev/ttyACM0:115200", true),
        ("serial:/dev/ttyS0:9600", true),
        ("serial:COM1:115200", true),
        ("tcpc:10.0.0.1:4000", true),
        ("tcpc:127.0.0.1:7000", true),
        ("tcps:0.0.0.0:5000", true),
        ("tcps:192.168.1.10:6000", true),
        ("udpb:192.168.0.255:3000", false),
        ("udpb:255.255.255.255:9999", false),
        ("udpc:127.0.0.1:1234", true),
        ("udpc:192.168.1.100:8080", true),
        ("udpout:127.0.0.1:1234", true),
        ("udpout:192.168.1.100:8080", true),
        ("udps:0.0.0.0:5000", true),
        ("udps:192.168.1.5:6789", true),
        ("udpin:0.0.0.0:5000", true),
        ("udpin:192.168.1.5:6789", true),
        ("tlogr:tests/files/00025-2024-04-22_18-49-07.tlog", true),
        ("tlogw:/tmp/little_potato.tlog", true),
        ("tlogreader:tests/files/00025-2024-04-22_18-49-07.tlog", true),
        ("tlogwriter:/tmp/little_potato.tlog", true),
    ];
    check_entries(&endpoints);
}

fn check_unique_types() {
    let list = endpoints();
    for (i, a) in list.iter().enumerate() {
        for b in list.iter().skip(i + 1) {
            assert!(a.typ != b.typ, "Duplicate endpoint type found: {:?}", a.typ);
        }
    }
}

#[test]
fn test_unique_endpoints() {
    check_unique_types();
}

#[test]
fn mod_test_unique_endpoints() {
    check_unique_types();
}

fn sample_args(udp_server_timeout: i16) -> mavlink_server::cli::Args {
    mavlink_server::cli::Args {
        endpoints: vec![endpoints_parser("udpin:0.0.0.0:14550").unwrap()],
        verbose: true,
        enable_tracing_level_log_file: false,
        log_path: Some("./logs".to_string()),
        streamreq_disable: true,
        udp_server_timeout,
        mavlink_system_id: 1,
        mavlink_component_id: 191,
        send_initial_heartbeats: false,
        mavlink_version: 2,
        default_api_version: 1,
        allow_no_endpoints: false,
    }
}

#[test]
fn the_rest_api_is_always_served_last() {
    let args = sample_args(10);
    let all = mavlink_server::cli::endpoints(&args);
    assert_eq!(
        all,
        vec![
            EndpointSpec::UdpServer { address: "0.0.0.0:14550".to_string(), direction: Direction::Both },
            EndpointSpec::Rest { name: "Rest (default)".to_string() },
        ]
    );
}

#[test]
fn settings_are_read_from_the_arguments() {
    let args = sample_args(10);
    assert!(cli::is_verbose(&args));
    assert!(!cli::is_tracing(&args));
    assert_eq!(cli::mavlink_system_id(&args), 1);
    assert_eq!(cli::mavlink_component_id(&args), 191);
    assert!(!cli::send_initial_heartbeats(&args));
    assert_eq!(cli::mavlink_version(&args), 2);
    assert_eq!(cli::default_api_version(&args), 1);
    assert_eq!(cli::udp_server_timeout(&args), Some(10));
    assert_eq!(cli::udp_server_timeout(&sample_args(-1)), None);
    assert_eq!(cli::udp_server_timeout(&sample_args(0)), Some(0));
}

use mavlink_server::cli::{build_endpoints_help, join, EndpointHelp};

#[test]
fn endpoints_help_lists_each_kind_with_its_examples() {
    assert_eq!(join(&vec!["a".to_string(), "b".to_string()], ","), "a,b");
    assert_eq!(join(&Vec::new(), ","), "");
    let sections = vec![EndpointHelp {
        name: "UdpServer".to_string(),
        schemes: vec!["udpserver".to_string(), "udpin".to_string()],
        legacy_examples: vec!["udpserver:<IP>:<PORT>".to_string(), "udpin:0.0.0.0:14550".to_string()],
        url_examples: vec!["udpserver://0.0.0.0:14550".to_string()],
    }];
    assert_eq!(
        build_endpoints_help(&sections),
        "Space-separated list of endpoints.\nUdpServer\t udpserver,udpin\n\t legacy: udpserver:<IP>:<PORT>\n\t\t udpin:0.0.0.0:14550\n\t    url: udpserver://0.0.0.0:14550\n"
    );
    assert_eq!(build_endpoints_help(&Vec::new()), "Space-separated list of endpoints.");
}

use mavlink_server::cli::endpoints_help;

#[test]
fn endpoints_help_names_every_accepted_kind() {
    let help = endpoints_help(vec![Vec::new(); 10]);
    assert!(help.starts_with("Space-separated list of endpoints.\n"));
    assert!(help.contains(
        "UdpClient\t udpclient,udpout,udpc\n\t legacy: udpclient:<IP>:<PORT>\n\t\t udpclient:0.0.0.0:14550"
    ));
    assert!(help.contains("Serial\t serial\n\t legacy: \n\t    url: \n"));
    assert!(help.contains("TlogWriter\t tlogwriter,tlogw\n\t legacy: tlogwriter:<FILE>"));
}
