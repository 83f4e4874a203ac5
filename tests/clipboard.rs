use cliped::files::{
    check_file_size, decode_file_content, file_content_base64, new_file_item, numbered_file_name, received_file_name,
    stored_file_name, with_stored_path, MAX_FILE_SIZE,
};
use cliped::node::new_text_item;
use cliped::preview::{has_text_extension, preview_text};
use cliped::store::{
    get_clipboard_files_count_from_db, get_clipboard_files_paginated_from_db, get_clipboard_history_count_from_db,
    load_clipboard_history_from_db, load_clipboard_history_paginated,
};
use cliped::system::{
    device_info, generate_device_info, generate_id, generate_random_suffix, get_current_timestamp, get_local_ip,
    hostname, id_from_hash,
};
use cliped::text::{decimal_string, str_eq};
use cliped::watcher::is_blank_text;
use cliped::{AppState, ClipboardItem, ClipboardWatcher, Device, DeviceStatus, InboundAction, MessageType, NetworkMessage, Payload, SyncMode};

fn item(id: &str, content: &str, kind: &str) -> ClipboardItem {
    ClipboardItem {
        id: id.to_string(),
        content: content.to_string(),
        timestamp: "1".to_string(),
        device: "host".to_string(),
        content_type: kind.to_string(),
        file_path: None,
        file_size: None,
        file_name: None,
    }
}

#[test]
fn recording_same_content_replaces_old_entry() {
    let mut w = ClipboardWatcher::new(vec![item("1", "x", "text"), item("2", "y", "text")]);
    w.record_local_change(item("3", "x", "text"));
    let h = w.clipboard_history();
    assert_eq!(h.len(), 2);
    assert_eq!(h[0].id, "3");
    assert_eq!(h[1].id, "2");
}

#[test]
fn text_history_is_capped_at_fifty() {
    let mut w = ClipboardWatcher::new(vec![]);
    for i in 0..60 {
        w.record_local_change(item(&i.to_string(), &format!("c{}", i), "text"));
    }
    let h = w.clipboard_history();
    assert_eq!(h.len(), 50);
    assert_eq!(h[0].content, "c59");
    assert_eq!(h[49].content, "c10");
}

#[test]
fn generic_history_is_capped_at_hundred() {
    let mut w = ClipboardWatcher::new(vec![]);
    for i in 0..120 {
        w.add_clipboard_item(item(&i.to_string(), "same", "text"));
    }
    let h = w.clipboard_history();
    assert_eq!(h.len(), 100);
    assert_eq!(h[0].id, "119");
    assert_eq!(h[99].id, "20");
}

#[test]
fn synced_write_is_not_taken_for_a_local_change() {
    let mut w = ClipboardWatcher::new(vec![]);
    assert!(w.tick(&Some("old".to_string())));
    assert!(w.prepare_inbound_write(&Some("old".to_string()), &"synced".to_string()));
    assert!(!w.tick(&Some("synced".to_string())));
    assert!(w.tick(&Some("typed".to_string())));
    assert_eq!(w.clipboard_history().len(), 0);
}

#[test]
fn inbound_write_skipped_when_clipboard_already_holds_it() {
    let mut w = ClipboardWatcher::new(vec![]);
    assert!(!w.prepare_inbound_write(&Some("same".to_string()), &"same".to_string()));
    assert!(w.tick(&Some("new".to_string())));
    assert!(w.prepare_inbound_write(&None, &"same".to_string()));
    assert!(!w.tick(&Some("whatever".to_string())));
}

#[test]
fn tick_ignores_blank_repeated_and_unreadable() {
    let mut w = ClipboardWatcher::new(vec![]);
    assert!(!w.tick(&Some(" \t\n\u{3000}".to_string())));
    assert!(!w.tick(&Some("".to_string())));
    assert!(!w.tick(&None));
    assert!(w.tick(&Some(" a ".to_string())));
    assert!(!w.tick(&Some(" a ".to_string())));
}

#[test]
fn monitoring_off_skips_ticks() {
    let mut w = ClipboardWatcher::new(vec![]);
    assert!(w.is_monitoring_enabled());
    assert!(!w.toggle_monitoring());
    assert!(!w.tick(&Some("text".to_string())));
    w.suppress_next_change();
    assert!(w.toggle_monitoring());
    assert!(!w.tick(&Some("text".to_string())));
    assert!(w.tick(&Some("more".to_string())));
}

#[test]
fn delete_and_clear_history() {
    let mut w = ClipboardWatcher::new(vec![item("1", "a", "text"), item("2", "b", "text"), item("1", "c", "text")]);
    w.delete_clipboard_item(&"1".to_string());
    let h = w.clipboard_history();
    assert_eq!(h.len(), 1);
    assert_eq!(h[0].id, "2");
    w.clear_clipboard_history();
    assert!(w.clipboard_history().is_empty());
}

#[test]
fn blank_text_detection() {
    assert!(is_blank_text(""));
    assert!(is_blank_text(" \u{a0}\u{2028}\r"));
    assert!(!is_blank_text(" x "));
    assert!(!is_blank_text("\u{200b}"));
}

#[test]
fn decimal_and_text_helpers() {
    assert_eq!(decimal_string(0), "0");
    assert_eq!(decimal_string(12345), "12345");
    assert_eq!(decimal_string(u64::MAX), "18446744073709551615");
    assert!(str_eq("abc", "abc"));
    assert!(!str_eq("abc", "abd"));
    assert!(!str_eq("ab", "abc"));
}

#[test]
fn device_identity_formats() {
    let d = device_info(77, 42, "10.1.2.3".to_string(), 1000);
    assert_eq!(d.name, "Device-0042");
    assert_eq!(d.icon, "laptop");
    assert_eq!(d.status, DeviceStatus::Connected);
    assert_eq!(d.sync_mode, SyncMode::Disabled);
    assert_eq!(d.last_seen, 1000);
    assert_eq!(device_info(1, 9999, String::new(), 0).name, "Device-9999");
    let g = generate_device_info();
    assert!(g.name.starts_with("Device-") && g.name.len() == 11);
    assert!(g.id < u32::MAX);
}

#[test]
fn identifiers_and_clock() {
    assert_eq!(id_from_hash(u32::MAX as u64), 0);
    assert_eq!(id_from_hash(u32::MAX as u64 + 5), 5);
    assert_eq!(id_from_hash(7), 7);
    assert!(generate_id() < u32::MAX);
    assert!(generate_random_suffix() < 10000);
    assert!(get_current_timestamp() > 1_600_000_000);
    assert!(!get_local_ip().is_empty());
    assert!(!hostname().is_empty());
}

#[test]
fn text_item_fields() {
    let i = new_text_item(12, "hi".to_string(), 1700000000, "box".to_string());
    assert_eq!(i.id, "12");
    assert_eq!(i.timestamp, "1700000000");
    assert_eq!(i.content_type, "text");
    assert_eq!(i.device, "box");
    assert!(i.file_size.is_none());
}

#[test]
fn file_size_limit() {
    assert!(check_file_size("a.bin", MAX_FILE_SIZE).is_ok());
    assert_eq!(
        check_file_size("big.iso", 25 * 1024 * 1024).unwrap_err(),
        "File 'big.iso' is too large (25MB). Maximum size is 10MB."
    );
}

#[test]
fn file_item_and_names() {
    let i = new_file_item("9".to_string(), "a.txt".to_string(), 12, 12, "/s/9.txt".to_string(), "5".to_string(), "h".to_string());
    assert_eq!(i.content, "File: a.txt (12 bytes)");
    assert_eq!(i.content_type, "file");
    assert_eq!(i.file_path.as_deref(), Some("/s/9.txt"));
    assert_eq!(i.file_size, Some(12));
    assert_eq!(received_file_name(&i), "a.txt");
    assert_eq!(received_file_name(&item("1", "x", "file")), "received_file");
    let moved = with_stored_path(i, "/local/9.txt".to_string());
    assert_eq!(moved.file_path.as_deref(), Some("/local/9.txt"));
    assert_eq!(moved.file_name.as_deref(), Some("a.txt"));
    assert_eq!(stored_file_name("9", "txt"), "9.txt");
    assert_eq!(stored_file_name("9", ""), "9");
    assert_eq!(numbered_file_name("report", "pdf", 2), "report (2).pdf");
    assert_eq!(numbered_file_name("notes", "", 1), "notes (1)");
}

#[test]
fn file_content_round_trip_through_base64() {
    let b64 = file_content_base64(&b"hello".to_vec());
    assert_eq!(b64, "aGVsbG8=");
    assert_eq!(decode_file_content(&b64).unwrap(), b"hello".to_vec());
    assert_eq!(file_content_base64(&vec![]), "");
    assert!(decode_file_content(&"not base64!".to_string()).is_none());
}

#[test]
fn store_selection_and_pages() {
    let rows = vec![
        item("1", "a", "text"),
        item("2", "f1", "file"),
        item("3", "b", "text"),
        item("4", "c", "text"),
        item("5", "f2", "file"),
    ];
    assert_eq!(get_clipboard_history_count_from_db(&rows), 3);
    assert_eq!(get_clipboard_files_count_from_db(&rows), 2);
    let p = load_clipboard_history_paginated(&rows, 1, 1);
    assert_eq!(p.len(), 1);
    assert_eq!(p[0].id, "3");
    assert!(load_clipboard_history_paginated(&rows, 3, 10).is_empty());
    let f = get_clipboard_files_paginated_from_db(&rows, 0, 10);
    assert_eq!(f.iter().map(|i| i.id.as_str()).collect::<Vec<_>>(), vec!["2", "5"]);
    let many: Vec<ClipboardItem> = (0..70).map(|i| item(&i.to_string(), "t", "text")).collect();
    assert_eq!(load_clipboard_history_from_db(&many).len(), 50);
}

fn peer_node() -> AppState {
    let local = Device {
        id: 1,
        name: "A".to_string(),
        icon: "laptop".to_string(),
        ip: "10.0.0.1".to_string(),
        status: DeviceStatus::Connected,
        sync_mode: SyncMode::Disabled,
        last_seen: 0,
    };
    let mut st = AppState::new(local, vec![]);
    let accept = NetworkMessage { msg_type: MessageType::ConnectionAccept, device_id: 2, device_name: "B".to_string(), data: Payload::Empty };
    st.handle_message(accept, "10.0.0.5".to_string(), 0);
    st
}

#[test]
fn file_transfer_from_trusted_peer_is_decoded() {
    let mut st = peer_node();
    let mut f = item("8", "File: a (5 bytes)", "file");
    f.file_name = Some("a".to_string());
    let msg = NetworkMessage {
        msg_type: MessageType::FileTransfer,
        device_id: 2,
        device_name: "B".to_string(),
        data: Payload::File(f.clone(), "aGVsbG8=".to_string()),
    };
    match st.handle_message(msg.clone(), "10.0.0.5".to_string(), 1) {
        InboundAction::StoreFile(i, bytes) => {
            assert_eq!(i.id, "8");
            assert_eq!(bytes, b"hello".to_vec());
        },
        other => panic!("unexpected {:?}", other),
    }
    assert!(matches!(st.handle_message(msg, "10.0.0.6".to_string(), 1), InboundAction::Ignore));
    let bad = NetworkMessage {
        msg_type: MessageType::FileTransfer,
        device_id: 2,
        device_name: "B".to_string(),
        data: Payload::File(f, "%%%".to_string()),
    };
    assert!(matches!(st.handle_message(bad, "10.0.0.5".to_string(), 1), InboundAction::Ignore));
    assert!(st.watcher.clipboard_history().is_empty());
}

#[test]
fn file_broadcast_carries_base64_content() {
    let st = peer_node();
    let out = st.sync_file_to_connected_devices(&item("8", "File: a (5 bytes)", "file"), &b"hello".to_vec());
    assert_eq!(out.len(), 1);
    assert_eq!(out[0].message.msg_type, MessageType::FileTransfer);
    match &out[0].message.data {
        Payload::File(i, b64) => {
            assert_eq!(i.id, "8");
            assert_eq!(b64, "aGVsbG8=");
        },
        other => panic!("unexpected {:?}", other),
    }
}

#[test]
fn previews_cut_at_last_space() {
    assert_eq!(preview_text("hello world foo", Some(8)), "hello...");
    assert_eq!(preview_text("abcdefghij", Some(4)), "abcd...");
    assert_eq!(preview_text("short", Some(5)), "short");
    assert_eq!(preview_text("short", None), "short");
    let long = "word ".repeat(60);
    let p = preview_text(&long, None);
    assert_eq!(p.len(), 199 + 3);
    assert!(p.ends_with("word..."));
    assert_eq!(preview_text("é é é", Some(3)), "é...");
    assert!(has_text_extension("TXT"));
    assert!(has_text_extension("Rs"));
    assert!(has_text_extension("dockerfile"));
    assert!(!has_text_extension("png"));
    assert!(!has_text_extension(""));
}
