use snap_tui::navigation::{Navigation, Tab};
use snap_tui::protocol::{new_status_request, settle_reply, status_request, ConnectError, Reply};
use snap_tui::snapcast::{
    Client, ClientConfig, Group, HostInfo, LastSeen, ServerInfo, ServerStatus, SnapcastClient,
    SnapcastResponse, SnapcastStatus, SnapclientInfo, SnapserverInfo, Volume,
};
use snap_tui::state::{handle_input, App, ConnectionStatus, InputAction, Key};

fn host(name: &str) -> HostInfo {
    HostInfo {
        name: name.to_string(),
        os: "Linux".to_string(),
        arch: "aarch64".to_string(),
        ip: "10.0.0.2".to_string(),
        mac: "aa:bb:cc:dd:ee:ff".to_string(),
    }
}

fn client(id: &str) -> Client {
    Client {
        id: id.to_string(),
        host: host(id),
        snapclient: SnapclientInfo {
            name: "Snapclient".to_string(),
            protocol_version: 2,
            version: "0.28".to_string(),
        },
        config: ClientConfig {
            instance: 1,
            latency: 20,
            name: id.to_string(),
            volume: Volume { muted: true, percent: 35 },
        },
        connected: false,
        last_seen: LastSeen { sec: 12, usec: 34 },
    }
}

fn status(server_name: &str, group_clients: Vec<Vec<&str>>) -> SnapcastStatus {
    let groups = group_clients
        .into_iter()
        .enumerate()
        .map(|(i, ids)| Group {
            id: format!("group-{}", i),
            name: String::new(),
            stream_id: "default".to_string(),
            muted: false,
            clients: ids.into_iter().map(client).collect(),
        })
        .collect();
    SnapcastStatus {
        server: ServerStatus {
            server: ServerInfo {
                host: host("server"),
                snapserver: SnapserverInfo {
                    name: server_name.to_string(),
                    version: "0.28".to_string(),
                    control_protocol_version: None,
                    protocol_version: 1,
                },
            },
            streams: vec![],
            groups,
        },
    }
}

fn app_with_snapshot() -> App {
    let mut app = App::new("ws://127.0.0.1:1780/jsonrpc".to_string(), 1_000);
    assert!(app.attempt_connection(1_000, Ok(status("first", vec![vec!["a", "b"]]))).is_ok());
    app
}

#[test]
fn status_request_has_the_exact_wire_text() {
    let text = status_request("1234");
    assert_eq!(
        text,
        format!("{{\"id\":\"1234\",\"jsonrpc\":\"{}\",\"method\":\"Server.GetStatus\"}}", "2.0")
    );
}

#[test]
fn fresh_request_carries_a_hyphenated_uuid() {
    let req = new_status_request();
    let id: Vec<char> = req.id.chars().collect();
    assert_eq!(id.len(), 36);
    for (i, c) in id.iter().enumerate() {
        if i == 8 || i == 13 || i == 18 || i == 23 {
            assert_eq!(*c, '-');
        } else {
            assert!(c.is_ascii_hexdigit() && !c.is_ascii_uppercase());
        }
    }
    assert_eq!(req.text, status_request(&req.id));
    let other = new_status_request();
    assert_ne!(req.id, other.id);
}

#[test]
fn fresh_request_is_a_json_document() {
    let req = new_status_request();
    let doc: serde_json::Value = serde_json::from_str(&req.text).unwrap();
    assert_eq!(doc["id"].as_str(), Some(req.id.as_str()));
    assert_eq!(doc["jsonrpc"].as_str(), Some("2.0"));
    assert_eq!(doc["method"].as_str(), Some("Server.GetStatus"));
}

#[test]
fn errors_describe_themselves() {
    assert_eq!(
        ConnectError::Transport("refused".to_string()).describe(),
        "transport error: refused"
    );
    assert_eq!(ConnectError::Protocol("bad".to_string()).describe(), "protocol error: bad");
    assert_eq!(ConnectError::Timeout.describe(), "no reply within the time limit");
}

#[test]
fn a_reply_with_a_result_gives_its_snapshot() {
    let s = status("srv", vec![vec!["x"]]);
    let reply = Reply::Document(SnapcastResponse {
        id: "1".to_string(),
        jsonrpc: "2.0".to_string(),
        result: Some(s.clone()),
    });
    assert_eq!(settle_reply(reply), Ok(s));
}

#[test]
fn every_other_reply_settles_to_its_error() {
    assert_eq!(
        settle_reply(Reply::Malformed("expected value at line 1".to_string())),
        Err(ConnectError::Protocol("malformed reply: expected value at line 1".to_string()))
    );
    assert_eq!(
        settle_reply(Reply::NotText),
        Err(ConnectError::Protocol("reply is not a text frame".to_string()))
    );
    assert_eq!(
        settle_reply(Reply::Closed),
        Err(ConnectError::Protocol("connection closed before a reply".to_string()))
    );
    assert_eq!(
        settle_reply(Reply::TransportFailed("connection refused".to_string())),
        Err(ConnectError::Transport("connection refused".to_string()))
    );
    assert_eq!(settle_reply(Reply::TimedOut), Err(ConnectError::Timeout));
}

#[test]
fn reply_without_result_is_a_protocol_error_and_keeps_the_snapshot() {
    let mut app = app_with_snapshot();
    let before = app.snapcast_client.status.clone();
    let outcome = settle_reply(Reply::Document(SnapcastResponse {
        id: "1".to_string(),
        jsonrpc: "2.0".to_string(),
        result: None,
    }));
    assert_eq!(outcome, Err(ConnectError::Protocol("reply carries no result".to_string())));
    let r = app.attempt_connection(2_000, outcome);
    assert!(matches!(r, Err(ConnectError::Protocol(_))));
    assert_eq!(app.snapcast_client.status, before);
    assert_eq!(
        app.connection_error.as_deref(),
        Some("Connection error: protocol error: reply carries no result")
    );
}

#[test]
fn failed_refresh_keeps_snapshot_and_navigation() {
    let mut app = app_with_snapshot();
    app.navigation = Navigation { current_tab: Tab::Clients, selected_item: Some(1) };
    let before = app.snapcast_client.status.clone();
    let r = app.attempt_connection(9_000, Err(ConnectError::Timeout));
    assert_eq!(r, Err(ConnectError::Timeout));
    assert_eq!(app.snapcast_client.status, before);
    assert_eq!(app.navigation, Navigation { current_tab: Tab::Clients, selected_item: Some(1) });
    assert_eq!(app.last_connection_attempt, 9_000);
    let stored = app.connection_error.clone().unwrap();
    assert!(!stored.is_empty());
    assert_eq!(stored, "Connection error: no reply within the time limit");
    assert_eq!(app.error_message.as_deref(), Some(stored.as_str()));
    assert_eq!(app.connection_status(), ConnectionStatus::Disconnected);
}

#[test]
fn successful_refresh_after_failure_replaces_snapshot_and_clears_error() {
    let mut app = app_with_snapshot();
    let _ = app.attempt_connection(2_000, Err(ConnectError::Transport("reset".to_string())));
    assert!(app.connection_error.is_some());
    let fresh = status("second", vec![vec![], vec!["z"]]);
    assert_eq!(app.attempt_connection(8_000, Ok(fresh.clone())), Ok(()));
    assert_eq!(app.snapcast_client.status, Some(fresh));
    assert_eq!(app.connection_error, None);
    assert_eq!(app.connection_status(), ConnectionStatus::Connected);
}

#[test]
fn connection_status_reads_snapshot_and_error() {
    let mut app = App::new("ws://h:1/jsonrpc".to_string(), 0);
    assert_eq!(app.connection_status(), ConnectionStatus::Connecting);
    let _ = app.attempt_connection(1, Err(ConnectError::Timeout));
    assert_eq!(app.connection_status(), ConnectionStatus::Disconnected);
    let _ = app.attempt_connection(2, Ok(status("s", vec![])));
    assert_eq!(app.connection_status(), ConnectionStatus::Connected);
    let _ = app.attempt_connection(3, Err(ConnectError::Timeout));
    assert_eq!(app.connection_status(), ConnectionStatus::Disconnected);
    assert!(app.snapcast_client.status.is_some());
}

#[test]
fn retry_waits_for_an_error_and_the_interval() {
    let mut app = App::new("ws://h:1/jsonrpc".to_string(), 10_000);
    assert!(!app.retry_due(60_000));
    let _ = app.attempt_connection(10_000, Err(ConnectError::Timeout));
    assert!(!app.retry_due(14_999));
    assert!(app.retry_due(15_000));
    assert!(app.retry_due(u64::MAX));
    assert!(!app.retry_due(0));
}

#[test]
fn automatic_retry_reports_in_the_footer() {
    let mut app = App::new("ws://h:1/jsonrpc".to_string(), 0);
    app.finish_retry(5_000, Err(ConnectError::Protocol("x".to_string())));
    assert_eq!(
        app.error_message.as_deref(),
        Some("Connection attempt failed: protocol error: x")
    );
    assert_eq!(app.info_message, None);
    app.finish_retry(10_000, Ok(status("s", vec![])));
    assert_eq!(app.error_message, None);
    assert_eq!(app.info_message.as_deref(), Some("Connection attempt successful"));
    assert_eq!(app.last_connection_attempt, 10_000);
}

#[test]
fn requested_refresh_reports_in_the_footer() {
    let mut app = App::new("ws://h:1/jsonrpc".to_string(), 0);
    app.finish_refresh(100, Err(ConnectError::Transport("down".to_string())));
    assert_eq!(
        app.error_message.as_deref(),
        Some("Error refreshing Snapcast status: transport error: down")
    );
    app.finish_refresh(200, Ok(status("s", vec![])));
    assert_eq!(app.error_message, None);
    assert_eq!(app.info_message.as_deref(), Some("Successfully refreshed Snapcast status"));
}

#[test]
fn messages_expire_after_their_lifetime() {
    let mut app = App::new("ws://h:1/jsonrpc".to_string(), 0);
    app.finish_retry(1_000, Err(ConnectError::Timeout));
    app.expire_messages(3_999);
    assert!(app.error_message.is_some());
    app.expire_messages(4_000);
    assert_eq!(app.error_message, None);
    assert_eq!(app.info_message, None);
    assert!(app.connection_error.is_some());
}

#[test]
fn keys_drive_views_and_selection() {
    let mut app = App::new("ws://h:1/jsonrpc".to_string(), 0);
    let _ = app.attempt_connection(0, Ok(status("s", vec![vec!["a"], vec![]])));
    assert_eq!(handle_input(&mut app, Key::Char('c')), InputAction::Nothing);
    assert_eq!(app.navigation.current_tab, Tab::Clients);
    handle_input(&mut app, Key::Down);
    assert_eq!(app.navigation.selected_item, Some(0));
    handle_input(&mut app, Key::Down);
    assert_eq!(app.navigation.selected_item, Some(0));
    handle_input(&mut app, Key::Right);
    assert_eq!(app.navigation, Navigation { current_tab: Tab::Streams, selected_item: None });
    handle_input(&mut app, Key::Right);
    assert_eq!(app.navigation.current_tab, Tab::Groups);
    handle_input(&mut app, Key::Left);
    assert_eq!(app.navigation.current_tab, Tab::Streams);
    handle_input(&mut app, Key::Char('g'));
    assert_eq!(app.navigation.current_tab, Tab::Groups);
    handle_input(&mut app, Key::Char('s'));
    assert_eq!(app.navigation.current_tab, Tab::Streams);
    handle_input(&mut app, Key::Up);
    assert_eq!(app.navigation.selected_item, None);
    handle_input(&mut app, Key::Other);
    assert!(!app.should_quit);
}

#[test]
fn refresh_key_asks_for_a_fetch_and_quit_keys_quit() {
    let mut app = App::new("ws://h:1/jsonrpc".to_string(), 0);
    app.navigation.selected_item = Some(3);
    assert_eq!(handle_input(&mut app, Key::Char('r')), InputAction::Refresh);
    assert_eq!(app.navigation.selected_item, Some(3));
    assert!(!app.should_quit);
    handle_input(&mut app, Key::Char('Q'));
    assert!(app.should_quit);
    let mut app = App::new("ws://h:1/jsonrpc".to_string(), 0);
    handle_input(&mut app, Key::Char('q'));
    assert!(app.should_quit);
}

#[test]
fn client_keeps_its_address() {
    let c = SnapcastClient::new("ws://10.0.0.5:1780/jsonrpc".to_string());
    assert_eq!(c.get_url(), "ws://10.0.0.5:1780/jsonrpc");
    assert!(c.status.is_none());
}
