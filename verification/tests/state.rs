use robo::gui::{derive_security_info, resolve_host};
use robo::security::{ChaChaPolySecurity, EmptySecurity, Security};
use robo::state::{AppState, ClientInfo, SecurityInfo, ServerInfo};

fn client(name: &str) -> ClientInfo {
    ClientInfo { name: name.to_string() }
}

fn sample_state() -> AppState {
    AppState::new(
        "192.168.1.20".to_string(),
        19877,
        SecurityInfo::new("chachapoly".to_string(), b"0123456789abcdef0123456789abcdef"),
    )
}

#[test]
fn security_info_holds_the_key_in_base64() {
    let info = SecurityInfo::new("chachapoly".to_string(), b"hello");
    assert_eq!(info.kind, "chachapoly");
    assert_eq!(info.key_base64, "aGVsbG8=");
    assert_eq!(SecurityInfo::new("none".to_string(), b"").key_base64, "");
    assert_eq!(SecurityInfo::new("k".to_string(), &[0xfb, 0xff]).key_base64, "+/8=");
    assert_eq!(SecurityInfo::new("k".to_string(), &[0, 0, 0]).key_base64, "AAAA");
}

#[test]
fn security_info_of_no_encryption() {
    let info = derive_security_info(&EmptySecurity);
    assert_eq!(info, SecurityInfo { kind: "none".to_string(), key_base64: String::new() });
}

#[test]
fn security_info_of_chachapoly() {
    let security = ChaChaPolySecurity::new().unwrap();
    let info = derive_security_info(&security);
    assert_eq!(info.kind, "chachapoly");
    assert_eq!(info.key_base64, base64::encode(security.key().unwrap()));
    assert_eq!(info.key_base64.len(), 44);
}

#[test]
fn resolve_host_keeps_a_given_host() {
    let asked = std::cell::Cell::new(false);
    let resolved = resolve_host("example.org", || {
        asked.set(true);
        "10.1.2.3".to_string()
    });
    assert_eq!(resolved, "example.org");
    assert!(!asked.get());
}

#[test]
fn resolve_host_replaces_the_unspecified_address() {
    assert_eq!(resolve_host("0.0.0.0", || "10.1.2.3".to_string()), "10.1.2.3");
    assert_eq!(resolve_host("0.0.0.00", || "10.1.2.3".to_string()), "0.0.0.00");
    assert_eq!(resolve_host("", || "10.1.2.3".to_string()), "");
}

#[test]
fn app_state_starts_without_clients() {
    let state = sample_state();
    assert_eq!(state.server_info.host, "192.168.1.20");
    assert_eq!(state.server_info.port, 19877);
    assert_eq!(state.server_info.security.kind, "chachapoly");
    assert!(state.connected_clients.is_empty());
}

#[test]
fn pairing_payload_is_the_prefix_and_the_server_info() {
    let payload = sample_state().server_info.pairing_payload();
    assert!(payload.starts_with("robo:"));
    let value: serde_json::Value = serde_json::from_str(&payload[5..]).unwrap();
    let expected: serde_json::Value = serde_json::from_str(
        "{\"host\":\"192.168.1.20\",\"port\":19877,\"security\":{\"kind\":\"chachapoly\",\
         \"key_base64\":\"MDEyMzQ1Njc4OWFiY2RlZjAxMjM0NTY3ODlhYmNkZWY=\"}}",
    )
    .unwrap();
    assert_eq!(value, expected);
}

#[test]
fn server_info_to_json_nests_the_security() {
    let info = ServerInfo {
        host: "h".to_string(),
        port: 65535,
        security: SecurityInfo { kind: "none".to_string(), key_base64: String::new() },
    };
    let value = info.to_json();
    assert_eq!(value.get("host").and_then(|v| v.as_str()), Some("h"));
    assert_eq!(value.get("port").and_then(|v| v.as_u64()), Some(65535));
    assert_eq!(value.get("security"), Some(&info.security.to_json()));
    assert_eq!(
        value.get("security").and_then(|v| v.get("kind")).and_then(|v| v.as_str()),
        Some("none")
    );
    assert_eq!(
        value.get("security").and_then(|v| v.get("key_base64")).and_then(|v| v.as_str()),
        Some("")
    );
}

#[test]
fn qr_code_is_that_of_the_pairing_payload() {
    let state = sample_state();
    let code = state.qr_code().unwrap();
    let expected = qrcodegen::QrCode::encode_text(
        &state.server_info.pairing_payload(),
        qrcodegen::QrCodeEcc::Medium,
    )
    .unwrap();
    assert_eq!(code.size(), expected.size());
    assert!(code.size() >= 21);
    for y in 0..code.size() {
        for x in 0..code.size() {
            assert_eq!(code.get_module(x, y), expected.get_module(x, y));
        }
    }
}

#[test]
fn qr_code_of_a_payload_that_is_too_long() {
    let state = AppState::new(
        "h".repeat(4000),
        1,
        SecurityInfo { kind: "none".to_string(), key_base64: String::new() },
    );
    assert!(state.qr_code().is_none());
}

#[test]
fn connected_clients_come_last() {
    let mut state = sample_state();
    state.client_connected(client("a:1"));
    state.client_connected(client("b:2"));
    state.client_connected(client("c:3"));
    assert_eq!(state.connected_clients, vec![client("a:1"), client("b:2"), client("c:3")]);
    assert_eq!(state.server_info, sample_state().server_info);
}

#[test]
fn disconnected_client_leaves_and_the_others_keep_their_order() {
    let mut state = sample_state();
    for name in ["a:1", "b:2", "c:3", "d:4"] {
        state.client_connected(client(name));
    }
    state.client_disconnected(&client("b:2"));
    assert_eq!(state.connected_clients, vec![client("a:1"), client("c:3"), client("d:4")]);
    state.client_disconnected(&client("d:4"));
    state.client_disconnected(&client("a:1"));
    assert_eq!(state.connected_clients, vec![client("c:3")]);
    state.client_disconnected(&client("c:3"));
    assert!(state.connected_clients.is_empty());
}

#[test]
fn disconnecting_an_unknown_client_changes_nothing() {
    let mut state = sample_state();
    state.client_disconnected(&client("nobody"));
    assert!(state.connected_clients.is_empty());
    state.client_connected(client("a:1"));
    state.client_disconnected(&client("a:10"));
    assert_eq!(state.connected_clients, vec![client("a:1")]);
}

#[test]
fn clients_of_one_name_leave_together() {
    let mut state = sample_state();
    for name in ["same", "other", "same", "same"] {
        state.client_connected(client(name));
    }
    state.client_disconnected(&client("same"));
    assert_eq!(state.connected_clients, vec![client("other")]);
}
