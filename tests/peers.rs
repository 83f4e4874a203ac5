use cliped::node::parse_sync_mode;
use cliped::{AppState, ClipboardItem, Device, DeviceStatus, InboundAction, MessageType, NetworkMessage, Payload, SyncMode};

fn device(id: u32, name: &str, ip: &str, status: DeviceStatus) -> Device {
    Device {
        id,
        name: name.to_string(),
        icon: "laptop".to_string(),
        ip: ip.to_string(),
        status,
        sync_mode: SyncMode::Disabled,
        last_seen: 0,
    }
}

fn text_item(id: &str, content: &str) -> ClipboardItem {
    ClipboardItem {
        id: id.to_string(),
        content: content.to_string(),
        timestamp: "1".to_string(),
        device: "host".to_string(),
        content_type: "text".to_string(),
        file_path: None,
        file_size: None,
        file_name: None,
    }
}

fn message(msg_type: MessageType, id: u32, name: &str, data: Payload) -> NetworkMessage {
    NetworkMessage { msg_type, device_id: id, device_name: name.to_string(), data }
}

fn node(history: Vec<ClipboardItem>) -> AppState {
    AppState::new(device(1, "A", "10.0.0.1", DeviceStatus::Connected), history)
}

fn request_from_b(st: &mut AppState) {
    let r = st.handle_message(message(MessageType::ConnectionRequest, 2, "B", Payload::Empty), "10.0.0.5".to_string(), 7);
    match r {
        InboundAction::ConnectionRequested(Some(d)) => {
            assert_eq!(d.id, 2);
            assert_eq!(d.ip, "10.0.0.5");
            assert_eq!(d.status, DeviceStatus::Pending);
            assert_eq!(d.last_seen, 7);
        },
        other => panic!("unexpected {:?}", other),
    }
}

#[test]
fn sync_dropped_until_paired_then_checked_by_address() {
    let mut st = node(vec![]);
    let sync = message(MessageType::ClipboardSync, 2, "B", Payload::Item(text_item("9", "hello")));
    let r = st.handle_message(sync.clone(), "10.0.0.5".to_string(), 1);
    assert!(matches!(r, InboundAction::Ignore));
    assert!(st.watcher.clipboard_history().is_empty());

    request_from_b(&mut st);
    let out = st.accept_connection(2).unwrap();
    assert_eq!(out.ip, "10.0.0.5");
    assert_eq!(out.message.msg_type, MessageType::ConnectionAccept);
    assert_eq!(out.message.device_id, 1);

    let r = st.handle_message(sync.clone(), "10.0.0.5".to_string(), 2);
    match r {
        InboundAction::ApplyClipboard(item) => assert_eq!(item.content, "hello"),
        other => panic!("unexpected {:?}", other),
    }
    let h = st.watcher.clipboard_history();
    assert_eq!(h.len(), 1);
    assert_eq!(h[0].content, "hello");

    let r = st.handle_message(sync, "10.0.0.9".to_string(), 3);
    assert!(matches!(r, InboundAction::Ignore));
    assert_eq!(st.watcher.clipboard_history().len(), 1);
}

#[test]
fn total_sync_replays_history_in_order() {
    let history = vec![text_item("a", "one"), text_item("b", "two"), text_item("c", "three")];
    let mut st = node(history);
    request_from_b(&mut st);
    st.accept_connection(2).unwrap();
    let out = st.set_sync_mode(2, "total").unwrap();
    assert_eq!(out.len(), 3);
    let ids = ["a", "b", "c"];
    for (o, id) in out.iter().zip(ids.iter()) {
        assert_eq!(o.ip, "10.0.0.5");
        assert_eq!(o.message.msg_type, MessageType::ClipboardSync);
        assert_eq!(o.message.device_id, 1);
        match &o.message.data {
            Payload::Item(item) => assert_eq!(item.id, *id),
            other => panic!("unexpected {:?}", other),
        }
    }
    let c = st.registry.connected_devices();
    assert_eq!(c[0].sync_mode, SyncMode::TotalSync);
}

#[test]
fn partial_and_disabled_modes_replay_nothing() {
    let mut st = node(vec![text_item("a", "one")]);
    request_from_b(&mut st);
    st.accept_connection(2).unwrap();
    assert!(st.set_sync_mode(2, "partial").unwrap().is_empty());
    assert!(st.set_sync_mode(2, "disabled").unwrap().is_empty());
    assert_eq!(st.registry.connected_devices()[0].sync_mode, SyncMode::Disabled);
    assert!(st.registry.eligible_sync_targets().is_empty());
}

#[test]
fn sync_mode_errors() {
    let mut st = node(vec![]);
    assert_eq!(st.set_sync_mode(2, "everything").unwrap_err(), "Invalid sync mode");
    assert_eq!(st.set_sync_mode(2, "total").unwrap_err(), "Device not found");
    assert_eq!(parse_sync_mode("total"), Some(SyncMode::TotalSync));
    assert_eq!(parse_sync_mode("partial"), Some(SyncMode::PartialSync));
    assert_eq!(parse_sync_mode("disabled"), Some(SyncMode::Disabled));
    assert_eq!(parse_sync_mode("Total"), None);
}

#[test]
fn unknown_device_cannot_be_accepted_or_denied() {
    let mut st = node(vec![]);
    request_from_b(&mut st);
    assert_eq!(st.accept_connection(3).unwrap_err(), "Device not found in pending connections");
    assert_eq!(st.deny_connection(3).unwrap_err(), "Device not found in pending connections");
    assert_eq!(st.registry.pending_connections().len(), 1);
    assert!(st.registry.connected_devices().is_empty());
}

#[test]
fn accepting_twice_keeps_one_entry() {
    let mut st = node(vec![]);
    request_from_b(&mut st);
    assert!(st.accept_connection(2).is_ok());
    assert!(st.accept_connection(2).is_err());
    let c = st.registry.connected_devices();
    assert_eq!(c.iter().filter(|d| d.id == 2).count(), 1);
    assert_eq!(c[0].status, DeviceStatus::Connected);
    assert_eq!(c[0].sync_mode, SyncMode::PartialSync);
    assert!(st.registry.pending_connections().is_empty());
}

#[test]
fn deny_drops_pending_without_connecting() {
    let mut st = node(vec![]);
    request_from_b(&mut st);
    let out = st.deny_connection(2).unwrap();
    assert_eq!(out.ip, "10.0.0.5");
    assert_eq!(out.message.msg_type, MessageType::ConnectionDeny);
    assert!(st.registry.pending_connections().is_empty());
    assert!(st.registry.connected_devices().is_empty());
}

#[test]
fn repeated_request_is_recorded_once() {
    let mut st = node(vec![]);
    request_from_b(&mut st);
    let r = st.handle_message(message(MessageType::ConnectionRequest, 2, "B", Payload::Empty), "10.0.0.5".to_string(), 8);
    assert!(matches!(r, InboundAction::ConnectionRequested(None)));
    assert_eq!(st.registry.pending_connections().len(), 1);
}

#[test]
fn sender_check_cases() {
    let mut st = node(vec![]);
    assert!(!st.registry.is_valid_sender(2, &"10.0.0.5".to_string()));
    request_from_b(&mut st);
    st.accept_connection(2).unwrap();
    assert!(st.registry.is_valid_sender(2, &"10.0.0.5".to_string()));
    assert!(!st.registry.is_valid_sender(2, &"10.0.0.9".to_string()));
    assert!(!st.registry.is_valid_sender(3, &"10.0.0.5".to_string()));
}

#[test]
fn accept_message_connects_sender_and_remove_disconnects() {
    let mut st = node(vec![]);
    let r = st.handle_message(message(MessageType::ConnectionAccept, 5, "E", Payload::Empty), "10.0.0.7".to_string(), 3);
    assert!(matches!(r, InboundAction::ConnectionAccepted(5)));
    let c = st.registry.connected_devices();
    assert_eq!(c.len(), 1);
    assert_eq!(c[0].ip, "10.0.0.7");
    assert_eq!(c[0].sync_mode, SyncMode::PartialSync);
    assert_eq!(c[0].icon, "laptop");
    let r = st.handle_message(message(MessageType::ConnectionRemove, 5, "E", Payload::Empty), "10.9.9.9".to_string(), 4);
    assert!(matches!(r, InboundAction::Disconnected(5)));
    assert!(st.registry.connected_devices().is_empty());
}

#[test]
fn deny_heartbeat_and_reserved_kinds_change_nothing() {
    let mut st = node(vec![]);
    for t in [MessageType::ConnectionDeny, MessageType::Heartbeat, MessageType::FileTransferChunk, MessageType::FileTransferComplete] {
        let r = st.handle_message(message(t, 2, "B", Payload::Empty), "10.0.0.5".to_string(), 1);
        assert!(matches!(r, InboundAction::Ignore));
    }
    assert!(st.registry.pending_connections().is_empty());
    assert!(st.registry.connected_devices().is_empty());
}

#[test]
fn remove_device_notifies_and_removes() {
    let mut st = node(vec![]);
    assert_eq!(st.remove_device(2).unwrap_err(), "Device not found");
    request_from_b(&mut st);
    st.accept_connection(2).unwrap();
    let out = st.remove_device(2).unwrap();
    assert_eq!(out.ip, "10.0.0.5");
    assert_eq!(out.message.msg_type, MessageType::ConnectionRemove);
    assert_eq!(out.message.device_name, "A");
    assert!(st.registry.connected_devices().is_empty());
}

#[test]
fn discovery_probe_is_answered_and_recorded() {
    let mut st = node(vec![]);
    let r = st.handle_message(message(MessageType::Discovery, 4, "D", Payload::Empty), "10.0.0.4".to_string(), 9);
    match r {
        InboundAction::Reply(m) => {
            assert_eq!(m.msg_type, MessageType::Discovery);
            assert_eq!(m.device_id, 1);
        },
        other => panic!("unexpected {:?}", other),
    }
    let own = st.handle_message(message(MessageType::Discovery, 1, "A", Payload::Empty), "10.0.0.1".to_string(), 9);
    assert!(matches!(own, InboundAction::Reply(_)));
    let d = st.registry.discovered_devices();
    assert_eq!(d.len(), 1);
    assert_eq!(d[0].id, 4);
    assert_eq!(d[0].status, DeviceStatus::Offline);
    assert_eq!(d[0].last_seen, 9);
}

#[test]
fn discovery_round_probes_subnet_and_collects_replies() {
    let mut st = node(vec![]);
    st.handle_message(message(MessageType::Discovery, 4, "D", Payload::Empty), "10.0.0.4".to_string(), 9);
    let probes = st.begin_discovery("192.168.1.10");
    assert!(st.registry.discovered_devices().is_empty());
    assert_eq!(probes.len(), 253);
    assert_eq!(probes[0].ip, "192.168.1.1");
    assert_eq!(probes[252].ip, "192.168.1.254");
    assert!(probes.iter().all(|p| p.ip != "192.168.1.10" && p.message.msg_type == MessageType::Discovery));
    st.handle_discovery_reply(message(MessageType::Discovery, 6, "F", Payload::Empty), "192.168.1.6".to_string(), 5);
    st.handle_discovery_reply(message(MessageType::Discovery, 6, "F", Payload::Empty), "192.168.1.6".to_string(), 6);
    st.handle_discovery_reply(message(MessageType::Heartbeat, 7, "G", Payload::Empty), "192.168.1.7".to_string(), 6);
    st.handle_discovery_reply(message(MessageType::Discovery, 1, "A", Payload::Empty), "192.168.1.10".to_string(), 6);
    let d = st.registry.discovered_devices();
    assert_eq!(d.len(), 1);
    assert_eq!(d[0].ip, "192.168.1.6");
    assert_eq!(d[0].last_seen, 5);
}

#[test]
fn discovery_needs_four_part_address() {
    let mut st = node(vec![]);
    assert!(st.begin_discovery("localhost").is_empty());
    assert!(st.begin_discovery("::1").is_empty());
    assert_eq!(st.begin_discovery("1.2.3.300").len(), 254);
}

#[test]
fn connection_requests_by_address_or_tag() {
    let st = node(vec![]);
    let o = st.send_connection_request("10.0.0.8").unwrap();
    assert_eq!(o.ip, "10.0.0.8");
    assert_eq!(o.message.msg_type, MessageType::ConnectionRequest);
    assert_eq!(st.send_connection_request("#abc").unwrap_err(), "Tag resolution not yet implemented");
    let o = st.send_connection_request_to_device(&device(3, "C", "10.0.0.3", DeviceStatus::Offline));
    assert_eq!(o.ip, "10.0.0.3");
    assert_eq!(o.message.device_name, "A");
}

#[test]
fn broadcast_reaches_enabled_peers_only() {
    let mut st = node(vec![]);
    request_from_b(&mut st);
    st.accept_connection(2).unwrap();
    st.handle_message(message(MessageType::ConnectionAccept, 3, "C", Payload::Empty), "10.0.0.6".to_string(), 1);
    st.set_sync_mode(3, "disabled").unwrap();
    let out = st.sync_to_connected_devices(&text_item("x", "payload"));
    assert_eq!(out.len(), 1);
    assert_eq!(out[0].ip, "10.0.0.5");
    assert_eq!(out[0].message.msg_type, MessageType::ClipboardSync);
}

#[test]
fn local_change_is_recorded_and_broadcast() {
    let mut st = node(vec![]);
    assert!(st.poll_clipboard(&Some("first".to_string())).unwrap().1.is_empty());
    request_from_b(&mut st);
    st.accept_connection(2).unwrap();
    let (item, out) = st.poll_clipboard(&Some("second".to_string())).unwrap();
    assert_eq!(item.content, "second");
    assert_eq!(item.content_type, "text");
    assert!(item.id.chars().all(|c| c.is_ascii_digit()));
    assert!(item.file_path.is_none());
    assert_eq!(out.len(), 1);
    assert_eq!(out[0].ip, "10.0.0.5");
    assert!(st.poll_clipboard(&Some("second".to_string())).is_none());
    assert!(st.poll_clipboard(&None).is_none());
    let h = st.watcher.clipboard_history();
    assert_eq!(h.len(), 2);
    assert_eq!(h[0].content, "second");
}

#[test]
fn renaming_updates_local_identity() {
    let mut st = node(vec![]);
    st.registry.rename_local("Laptop".to_string());
    assert_eq!(st.registry.local_device().name, "Laptop");
    assert_eq!(st.send_connection_request("10.0.0.8").unwrap().message.device_name, "Laptop");
}
