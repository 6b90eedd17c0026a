use cnc_comm::announce::{
    announcement_from_fields, decode_announcement, decode_datagram, JsonField,
    DEFAULT_CONTROLLER_PORT,
};
use cnc_comm::device::{CncDevice, CncError};
use cnc_comm::discovery::{direct_result, discovery_result, needs_fallback, MulticastDiscovery};
use cnc_comm::probe::ProbeExchange;

fn replied(status: &[u8]) -> ProbeExchange {
    ProbeExchange::Replied(status.to_vec(), None)
}

fn round_with(ips: &[&str]) -> MulticastDiscovery {
    let mut round = MulticastDiscovery::new(1000, false);
    for ip in ips {
        let payload = format!(r#"{{"ip":"{}","port":10086,"name":"C {}"}}"#, ip, ip);
        let a = round.on_datagram(payload.as_bytes()).unwrap();
        round.on_probe(&a, replied(b"<Idle>"));
    }
    round
}

#[test]
fn announcement_with_string_port_is_found() {
    let payload =
        r#"{ "ip": "192.168.1.50", "port": "10086", "name": "Shop CNC", "uuid": "AA:BB:CC" }"#;
    let mut round = MulticastDiscovery::new(3000, true);
    assert!(round.keep_listening(0));
    let a = round.on_datagram(payload.as_bytes()).unwrap();
    assert_eq!(a.ip, "192.168.1.50");
    assert_eq!(a.port, 10086);
    round.on_probe(&a, replied(b"<Idle|MPos:1,2,3>"));
    assert!(!round.keep_listening(10));
    let found = discovery_result(Ok(round), None);
    assert_eq!(
        found,
        vec![CncDevice {
            name: "Shop CNC".to_string(),
            ip: "192.168.1.50".to_string(),
            port: 10086,
            mac: Some("AA:BB:CC".to_string()),
            firmware: None,
        }]
    );
}

#[test]
fn announced_device_keeps_firmware_from_probe() {
    let mut round = MulticastDiscovery::new(3000, true);
    let a = round.on_datagram(br#"{"ip":"10.1.1.1","port":2000,"name":"Mill"}"#).unwrap();
    round.on_probe(
        &a,
        ProbeExchange::Replied(b"[VER:1.1h]".to_vec(), Some(b"[OPT]\nGrbl 1.1h\nok".to_vec())),
    );
    let found = round.into_devices();
    assert_eq!(found.len(), 1);
    assert_eq!(found[0].ip, "10.1.1.1");
    assert_eq!(found[0].port, 2000);
    assert_eq!(found[0].name, "Mill");
    assert_eq!(found[0].firmware, Some("Grbl 1.1h".to_string()));
}

#[test]
fn numeric_port_and_mac_key() {
    let a = decode_announcement(r#"{"ip":"10.0.0.9","port":2323,"name":"M","mac":"11:22"}"#).unwrap();
    assert_eq!(a.port, 2323);
    assert_eq!(a.name, "M");
    assert_eq!(a.identifier, Some("11:22".to_string()));
}

#[test]
fn uuid_wins_over_mac_and_empty_is_absent() {
    let a = decode_announcement(r#"{"ip":"1","port":1,"name":"n","uuid":"U","mac":"M"}"#).unwrap();
    assert_eq!(a.identifier, Some("U".to_string()));
    let b = decode_announcement(r#"{"ip":"1","port":1,"name":"n","uuid":"","mac":"M"}"#).unwrap();
    assert_eq!(b.identifier, Some("M".to_string()));
    let c = decode_announcement(r#"{"ip":"1","port":1,"name":"n","uuid":""}"#).unwrap();
    assert_eq!(c.identifier, None);
}

#[test]
fn unreadable_port_falls_back_to_default() {
    let a = decode_announcement(r#"{"ip":"1.1.1.1","port":"abc","name":"n"}"#).unwrap();
    assert_eq!(a.port, DEFAULT_CONTROLLER_PORT);
    let b = decode_announcement(r#"{"ip":"1.1.1.1","port":70000,"name":"n"}"#).unwrap();
    assert_eq!(b.port, 10086);
    let c = decode_announcement(r#"{"ip":"1.1.1.1","port":-5,"name":"n"}"#).unwrap();
    assert_eq!(c.port, 10086);
}

#[test]
fn announcement_from_given_fields() {
    let text = |s: &str| JsonField::Text(s.to_string());
    let a = announcement_from_fields(
        text("10.0.0.3"),
        text("abc"),
        text("Router"),
        JsonField::Missing,
        text("AA:BB"),
    )
    .unwrap();
    assert_eq!(a.ip, "10.0.0.3");
    assert_eq!(a.port, 10086);
    assert_eq!(a.name, "Router");
    assert_eq!(a.identifier, Some("AA:BB".to_string()));
    let b = announcement_from_fields(
        text("10.0.0.3"),
        JsonField::Number(80),
        text("R"),
        text("U-1"),
        text("AA:BB"),
    )
    .unwrap();
    assert_eq!(b.port, 80);
    assert_eq!(b.identifier, Some("U-1".to_string()));
    let c = announcement_from_fields(
        text("10.0.0.3"),
        JsonField::Other,
        text("R"),
        JsonField::Other,
        JsonField::Number(5),
    )
    .unwrap();
    assert_eq!(c.port, 10086);
    assert_eq!(c.identifier, None);
    let missing_port = announcement_from_fields(
        text("10.0.0.3"),
        JsonField::Missing,
        text("R"),
        JsonField::Missing,
        JsonField::Missing,
    );
    assert_eq!(missing_port, Err(CncError::MalformedAnnouncement));
    let numeric_ip = announcement_from_fields(
        JsonField::Number(1),
        text("1"),
        text("R"),
        JsonField::Missing,
        JsonField::Missing,
    );
    assert_eq!(numeric_ip, Err(CncError::MalformedAnnouncement));
}

#[test]
fn malformed_announcements_are_refused() {
    for p in [
        r#"{"ip":"1.1.1.1","name":"n"}"#,
        r#"{"ip":"1.1.1.1","port":"10086","na"#,
        r#"{"port":"10086","name":"n"}"#,
        r#"{"ip":1,"port":"10086","name":"n"}"#,
        r#"["ip","port","name"]"#,
        "",
    ] {
        assert_eq!(decode_announcement(p), Err(CncError::MalformedAnnouncement), "{}", p);
    }
    assert_eq!(decode_datagram(&[0xc3u8, 0x28]), Err(CncError::MalformedAnnouncement));
}

#[test]
fn malformed_datagrams_do_not_end_the_round() {
    let mut round = MulticastDiscovery::new(3000, true);
    assert_eq!(round.on_datagram(br#"{"ip":"1.1.1.1","name":"n"}"#), None);
    assert_eq!(round.on_datagram(br#"{"ip":"1.1.1.1""#), None);
    assert_eq!(round.on_datagram(&[0xffu8, 0xfe]), None);
    assert_eq!(round.discarded(), 3);
    assert!(round.keep_listening(2999));
    assert!(!round.keep_listening(3000));
    assert!(round.into_devices().is_empty());
}

#[test]
fn failed_probe_keeps_listening() {
    let mut round = MulticastDiscovery::new(1000, true);
    let a = round.on_datagram(br#"{"ip":"1.1.1.1","port":"1","name":"n"}"#).unwrap();
    round.on_probe(&a, replied(b"SSH-2.0"));
    round.on_probe(&a, ProbeExchange::Unreachable(CncError::Timeout("connect".to_string())));
    assert_eq!(round.discarded(), 2);
    assert!(round.keep_listening(5));
    assert!(round.into_devices().is_empty());
}

#[test]
fn draining_round_collects_all() {
    let round = round_with(&["10.0.0.1", "10.0.0.2"]);
    assert!(round.keep_listening(1));
    let found = round.into_devices();
    assert_eq!(found.len(), 2);
    assert_eq!(found[1].name, "C 10.0.0.2");
    assert_eq!(found[1].ip, "10.0.0.2");
}

#[test]
fn nothing_found_is_an_empty_list() {
    let multicast: Result<MulticastDiscovery, CncError> = Ok(MulticastDiscovery::new(3000, true));
    assert!(needs_fallback(&multicast));
    let unreachable = ProbeExchange::Unreachable(CncError::ConnectionError("unreachable".to_string()));
    let fallback = direct_result("192.168.86.23", 10086, unreachable);
    assert_eq!(fallback, None);
    assert!(discovery_result(multicast, fallback).is_empty());
    let failed: Result<MulticastDiscovery, CncError> =
        Err(CncError::ConnectionError("bind".to_string()));
    assert!(needs_fallback(&failed));
    assert!(discovery_result(failed, None).is_empty());
}

#[test]
fn fallback_is_used_only_when_multicast_finds_nothing() {
    let found: Result<MulticastDiscovery, CncError> = Ok(round_with(&["10.0.0.1"]));
    assert!(!needs_fallback(&found));
    let direct = direct_result("10.0.0.2", 10086, replied(b"<Idle|MPos:0,0,0>"));
    let r = discovery_result(found, direct.clone());
    assert_eq!(r.len(), 1);
    assert_eq!(r[0].ip, "10.0.0.1");
    let r2 = discovery_result(Ok(MulticastDiscovery::new(10, true)), direct);
    assert_eq!(r2.len(), 1);
    assert_eq!(r2[0].ip, "10.0.0.2");
    assert_eq!(r2[0].name, "CNC at 10.0.0.2");
    assert_eq!(direct_result("10.0.0.2", 10086, replied(b"hello")), None);
}
