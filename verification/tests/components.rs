use sidecar_boot::log_buffer::{get_logs, LogBuffer, MAX_LOG_ENTRIES};
use sidecar_boot::port::{get_sidecar_port, parse_port, parse_u16, u16_to_dec, PortError};
use sidecar_boot::ready::{ReadyCell, ServerReadyData};
use sidecar_boot::server_state::{kill_sidecar, ChildHandle, ServerState};
use sidecar_boot::storage::{opencode_db_path, sqlite_file_exists};

#[test]
fn parse_u16_accepts_plain_and_signed_digits() {
    assert_eq!(parse_u16("51234"), Some(51234));
    assert_eq!(parse_u16("+80"), Some(80));
    assert_eq!(parse_u16("0"), Some(0));
    assert_eq!(parse_u16("65535"), Some(65535));
}

#[test]
fn parse_u16_rejects_garbage_and_overflow() {
    assert_eq!(parse_u16(""), None);
    assert_eq!(parse_u16("+"), None);
    assert_eq!(parse_u16("12a"), None);
    assert_eq!(parse_u16("-1"), None);
    assert_eq!(parse_u16("65536"), None);
    assert_eq!(parse_u16("999999999999"), None);
    assert_eq!(parse_u16(" 80"), None);
}

#[test]
fn parse_port_rejects_port_zero() {
    assert_eq!(parse_port("0"), None);
    assert_eq!(parse_port("1"), Some(1));
    assert_eq!(parse_port("65535"), Some(65535));
}

#[test]
fn port_build_override_wins() {
    assert_eq!(get_sidecar_port(Some("4100"), Some("5200"), Some(6300)), Ok(4100));
}

#[test]
fn port_env_override_used_without_build_value() {
    assert_eq!(get_sidecar_port(None, Some("5200"), Some(6300)), Ok(5200));
}

#[test]
fn port_override_wins_regardless_of_ephemeral_availability() {
    assert_eq!(get_sidecar_port(None, Some("5200"), None), Ok(5200));
    assert_eq!(get_sidecar_port(Some("4100"), None, None), Ok(4100));
}

#[test]
fn port_unparseable_build_override_skips_env_and_falls_to_ephemeral() {
    assert_eq!(get_sidecar_port(Some("not-a-port"), Some("5200"), Some(6300)), Ok(6300));
}

#[test]
fn port_falls_back_to_ephemeral() {
    assert_eq!(get_sidecar_port(None, None, Some(6300)), Ok(6300));
}

#[test]
fn port_fails_fatally_without_any_source() {
    assert_eq!(get_sidecar_port(None, None, None), Err(PortError::EphemeralBindFailed));
    assert_eq!(
        get_sidecar_port(None, Some("bad"), None),
        Err(PortError::EphemeralBindFailed)
    );
}

#[test]
fn port_result_is_always_a_real_port() {
    for case in [
        get_sidecar_port(Some("1"), None, None),
        get_sidecar_port(None, Some("65535"), None),
        get_sidecar_port(None, None, Some(51234)),
    ] {
        let p = case.expect("a port");
        assert!((1..=65535).contains(&p));
    }
}

#[test]
fn u16_renders_in_decimal() {
    assert_eq!(u16_to_dec(0).as_str(), "0");
    assert_eq!(u16_to_dec(7).as_str(), "7");
    assert_eq!(u16_to_dec(80).as_str(), "80");
    assert_eq!(u16_to_dec(51234).as_str(), "51234");
    assert_eq!(u16_to_dec(65535).as_str(), "65535");
}

#[test]
fn log_buffer_overflow_keeps_most_recent_in_order() {
    let mut buffer = LogBuffer::new();
    for i in 0..250 {
        buffer.push(format!("line {i}\n"));
    }
    assert_eq!(buffer.len(), MAX_LOG_ENTRIES);
    assert_eq!(buffer.len(), 200);
    for k in 0..200 {
        assert_eq!(buffer.line(k), format!("line {}\n", k + 50));
    }
}

#[test]
fn log_buffer_below_cap_keeps_everything() {
    let mut buffer = LogBuffer::new();
    buffer.push(String::from("a\n"));
    buffer.push(String::from("b\n"));
    assert_eq!(buffer.len(), 2);
    assert_eq!(get_logs(&buffer).as_str(), "a\nb\n");
}

#[test]
fn ready_cell_first_write_wins() {
    let mut cell = ReadyCell::new();
    assert!(cell.read().is_none());
    let won = cell.settle(Ok(ServerReadyData {
        url: String::from("http://127.0.0.1:80"),
        password: None,
    }));
    assert!(won);
    let lost = cell.settle(Err(String::from("too late")));
    assert!(!lost);
    let first = cell.get().expect("settled Ok");
    assert_eq!(first.url.as_str(), "http://127.0.0.1:80");
    assert!(first.password.is_none());
}

#[test]
fn ready_cell_reads_are_idempotent() {
    let mut cell = ReadyCell::new();
    cell.settle(Err(String::from("boom")));
    let a = cell.get();
    let b = cell.get();
    assert_eq!(a.unwrap_err(), b.unwrap_err());
    let c = cell.get();
    assert_eq!(c.unwrap_err().as_str(), "boom");
}

#[test]
fn kill_hands_out_the_child_at_most_once() {
    let mut state = ServerState::new(Some(ChildHandle { pid: 4242 }), ReadyCell::new());
    let first = kill_sidecar(&mut state);
    assert_eq!(first.map(|c| c.pid), Some(4242));
    let second = kill_sidecar(&mut state);
    assert!(second.is_none());
    let third = kill_sidecar(&mut state);
    assert!(third.is_none());
}

#[test]
fn kill_on_empty_slot_is_a_no_op() {
    let mut state = ServerState::new(None, ReadyCell::new());
    assert!(kill_sidecar(&mut state).is_none());
}

#[test]
fn set_child_registers_a_handle_for_shutdown() {
    let mut state = ServerState::new(None, ReadyCell::new());
    state.set_child(Some(ChildHandle { pid: 7 }));
    assert_eq!(kill_sidecar(&mut state).map(|c| c.pid), Some(7));
}

#[test]
fn db_path_prefers_xdg_data_home() {
    let path = opencode_db_path(Some("/data"), Some("/home/u")).expect("path");
    assert_eq!(path.as_str(), "/data/opencode/opencode.db");
}

#[test]
fn db_path_empty_xdg_falls_back_to_home() {
    let path = opencode_db_path(Some(""), Some("/home/u")).expect("path");
    assert_eq!(path.as_str(), "/home/u/.local/share/opencode/opencode.db");
    let path = opencode_db_path(None, Some("/home/u")).expect("path");
    assert_eq!(path.as_str(), "/home/u/.local/share/opencode/opencode.db");
}

#[test]
fn db_path_without_home_is_an_error() {
    let err = opencode_db_path(None, None).unwrap_err();
    assert_eq!(err.as_str(), "cannot determine home directory");
    let err = opencode_db_path(Some(""), None).unwrap_err();
    assert_eq!(err.as_str(), "cannot determine home directory");
}

#[test]
fn sqlite_condition_reads_the_probe_outcome() {
    let ok_path: Result<String, String> = Ok(String::from("/data/opencode/opencode.db"));
    assert!(!sqlite_file_exists(&ok_path, false));
    assert!(sqlite_file_exists(&ok_path, true));
    let no_path: Result<String, String> = Err(String::from("cannot determine home directory"));
    assert!(sqlite_file_exists(&no_path, false));
    assert!(sqlite_file_exists(&no_path, true));
}
