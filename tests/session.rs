use cnc_comm::device::{CncDevice, CncError};
use cnc_comm::session::{alarm_reported, response_text, CncManager};

fn machine() -> CncDevice {
    CncDevice {
        name: "Shop CNC".to_string(),
        ip: "192.168.1.50".to_string(),
        port: 10086,
        mac: None,
        firmware: None,
    }
}

#[test]
fn commands_need_a_session() {
    let m = CncManager::new();
    assert_eq!(m.send_command("?"), Err(CncError::NotConnected));
    assert_eq!(m.get_status(), Err(CncError::NotConnected));
    assert_eq!(m.home(), Err(CncError::NotConnected));
    assert_eq!(m.reset(), Err(CncError::NotConnected));
    assert_eq!(m.set_work_zero("X"), Err(CncError::NotConnected));
    assert_eq!(m.jog("X", "1", 100), Err(CncError::NotConnected));
    assert_eq!(m.check_alarm_status(), Err(CncError::NotConnected));
    assert!(m.get_connection_status().is_none());
}

#[test]
fn disconnect_twice_is_fine() {
    let mut m = CncManager::new();
    m.disconnect();
    m.disconnect();
    assert!(m.get_connection_status().is_none());
    m.connect(&machine(), Ok(())).unwrap();
    m.disconnect();
    m.disconnect();
    assert_eq!(m.send_command("?"), Err(CncError::NotConnected));
}

#[test]
fn connect_binds_the_device() {
    let mut m = CncManager::new();
    assert_eq!(m.connect(&machine(), Ok(())), Ok(()));
    let status = m.get_connection_status().unwrap();
    assert_eq!(status.device, machine());
    assert!(status.connected);
    assert_eq!(m.send_command("$X"), Ok("$X\n".to_string()));
}

#[test]
fn failed_connect_keeps_state() {
    let mut m = CncManager::new();
    let err = CncError::Timeout("connect".to_string());
    assert_eq!(m.connect(&machine(), Err(err.clone())), Err(err));
    assert!(m.get_connection_status().is_none());
    let lost = CncError::ConnectionError("refused".to_string());
    assert_eq!(m.connect(&machine(), Err(lost.clone())), Err(lost));
    assert_eq!(m.send_command("?"), Err(CncError::NotConnected));
    m.connect(&machine(), Ok(())).unwrap();
    assert_eq!(m.get_connection_status().unwrap().device, machine());
}

#[test]
fn reconnect_after_disconnect() {
    let mut m = CncManager::new();
    m.connect(&machine(), Ok(())).unwrap();
    m.disconnect();
    let mut other = machine();
    other.ip = "10.0.0.1".to_string();
    m.connect(&other, Ok(())).unwrap();
    assert_eq!(m.get_connection_status().unwrap().device.ip, "10.0.0.1");
}

#[test]
fn jog_line_on_the_wire() {
    let mut m = CncManager::new();
    m.connect(&machine(), Ok(())).unwrap();
    assert_eq!(m.jog("X", &format!("{}", 5.0f32), 500), Ok("$J=G91X5F500\n".to_string()));
    assert_eq!(m.jog("Z", "-0.25", 0), Ok("$J=G91Z-0.25F0\n".to_string()));
}

#[test]
fn fixed_command_lines() {
    let mut m = CncManager::new();
    m.connect(&machine(), Ok(())).unwrap();
    assert_eq!(m.get_status(), Ok("?\n".to_string()));
    assert_eq!(m.home(), Ok("$H\n".to_string()));
    assert_eq!(m.reset(), Ok("\u{18}\n".to_string()));
    assert_eq!(m.set_work_zero("X0Y0"), Ok("G10L20P1X0Y0\n".to_string()));
    assert_eq!(m.check_alarm_status(), Ok("?\n".to_string()));
}

#[test]
fn status_reply_is_trimmed() {
    assert_eq!(response_text(b"<Idle|MPos:0,0,0>\r\n"), "<Idle|MPos:0,0,0>");
    assert_eq!(response_text(b"  ok \n"), "ok");
    assert_eq!(response_text(b""), "");
    assert_eq!(response_text("\u{3000}\t<Run>\u{a0}\u{2029}".as_bytes()), "<Run>");
    assert_eq!(response_text(b"a b"), "a b");
}

#[test]
fn alarm_in_status_reply() {
    assert!(alarm_reported("<Alarm|MPos:0,0,0>"));
    assert!(!alarm_reported("<Idle|MPos:0,0,0>"));
}
