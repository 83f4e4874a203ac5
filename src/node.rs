use vstd::prelude::*;

use crate::discovery::{discovery_target_ips, discovery_targets};
use crate::files::{base64_decoded, base64_of, decode_file_content, file_content_base64, MAX_FILE_SIZE};
use crate::registry::{
    has_id, index_of, put, valid_sender, without, PeerRegistry, RegistryView,
};
use crate::system::{generate_id, get_current_timestamp, hostname};
use crate::text::{decimal, decimal_string, str_eq};
use crate::types::{ClipboardItem, Device, DeviceStatus, MessageType, NetworkMessage, Payload, SyncMode};
use crate::watcher::{recorded, ClipboardWatcher, WatcherView};

verus! {

/// One datagram to send: to `ip` on the sync port.
#[derive(Debug)]
pub struct Outbound {
    pub ip: String,
    pub message: NetworkMessage,
}

/// What the receive loop does after a datagram has been handled.
#[derive(Debug)]
pub enum InboundAction {
    /// Nothing.
    Ignore,
    /// Send the message back to the sender's address and port.
    Reply(NetworkMessage),
    /// A device asked to connect; the recorded device where its request is new.
    ConnectionRequested(Option<Device>),
    /// The sender accepted this node's request and is now connected.
    ConnectionAccepted(u32),
    /// The sender removed this node; it is no longer connected.
    Disconnected(u32),
    /// A trusted peer sent this item: read the clipboard, ask
    /// `prepare_inbound_write`, and write its content where that says so.
    ApplyClipboard(ClipboardItem),
    /// A trusted peer sent this file item and the file's bytes: store them
    /// and save the item with the stored path.
    StoreFile(ClipboardItem, Vec<u8>),
}

/// A message from the node `local`.
pub open spec fn from_local(local: Device, msg_type: MessageType, data: Payload) -> NetworkMessage {
    NetworkMessage { msg_type, device_id: local.id, device_name: local.name, data }
}

/// `out` sends `msg` once to each of `targets`, in order.
pub open spec fn sends_to_each(out: Seq<Outbound>, targets: Seq<Device>, msg: NetworkMessage) -> bool {
    &&& out.len() == targets.len()
    &&& forall|i: int| 0 <= i < out.len() ==> #[trigger] out[i].ip == targets[i].ip && out[i].message == msg
}

/// `out` sends to `ip` one `ClipboardSync` from `local` for each item of
/// `history`, in order.
pub open spec fn replays(out: Seq<Outbound>, ip: String, local: Device, history: Seq<ClipboardItem>) -> bool {
    &&& out.len() == history.len()
    &&& forall|i: int| 0 <= i < out.len() ==> #[trigger] out[i].ip == ip && out[i].message == from_local(
        local,
        MessageType::ClipboardSync,
        Payload::Item(history[i]),
    )
}

/// `d` is a peer made from a datagram of `id` and `name`, received from
/// `ip` at `now`.
pub open spec fn is_peer(
    d: Device,
    id: u32,
    name: String,
    ip: String,
    status: DeviceStatus,
    mode: SyncMode,
    now: u64,
) -> bool {
    &&& d.id == id
    &&& d.name == name
    &&& d.icon@ == "laptop"@
    &&& d.ip == ip
    &&& d.status == status
    &&& d.sync_mode == mode
    &&& d.last_seen == now
}

/// `after` is `before` with the sender of a discovery datagram recorded as
/// discovered, unless it is the node itself or already recorded.
pub open spec fn discovery_recorded(
    before: RegistryView,
    after: RegistryView,
    id: u32,
    name: String,
    ip: String,
    now: u64,
) -> bool {
    if id != before.local.id && !has_id(before.discovered, id) {
        &&& after == RegistryView { discovered: before.discovered.push(after.discovered.last()), ..before }
        &&& is_peer(after.discovered.last(), id, name, ip, DeviceStatus::Offline, SyncMode::Disabled, now)
    } else {
        after == before
    }
}

/// `r` and `after` are what the receive loop does with `msg`, received from
/// `ip` at `now` by a node in state `before`.
pub open spec fn inbound_handled(
    before: RegistryView,
    after: RegistryView,
    msg: NetworkMessage,
    ip: String,
    now: u64,
    r: InboundAction,
) -> bool {
    let id = msg.device_id;
    match msg.msg_type {
        MessageType::Discovery => {
            &&& r == InboundAction::Reply(from_local(before.local, MessageType::Discovery, Payload::Empty))
            &&& discovery_recorded(before, after, id, msg.device_name, ip, now)
        },
        MessageType::ConnectionRequest => if has_id(before.pending, id) {
            after == before && r == InboundAction::ConnectionRequested(None)
        } else {
            let d = after.pending.last();
            &&& after == RegistryView { pending: before.pending.push(d), ..before }
            &&& is_peer(d, id, msg.device_name, ip, DeviceStatus::Pending, SyncMode::Disabled, now)
            &&& r == InboundAction::ConnectionRequested(Some(d))
        },
        MessageType::ConnectionAccept => {
            let d = after.connected[index_of(after.connected, id)];
            &&& after == RegistryView { connected: put(before.connected, d), ..before }
            &&& is_peer(d, id, msg.device_name, ip, DeviceStatus::Connected, SyncMode::PartialSync, now)
            &&& r == InboundAction::ConnectionAccepted(id)
        },
        MessageType::ConnectionRemove => {
            &&& after == RegistryView { connected: without(before.connected, id), ..before }
            &&& r == InboundAction::Disconnected(id)
        },
        MessageType::ClipboardSync => {
            &&& after == before
            &&& r == if valid_sender(before.connected, id, ip@) && msg.data is Item {
                InboundAction::ApplyClipboard(msg.data->Item_0)
            } else {
                InboundAction::Ignore
            }
        },
        MessageType::FileTransfer => {
            &&& after == before
            &&& if valid_sender(before.connected, id, ip@) && msg.data is File && base64_decoded(
                msg.data->File_1@,
            ) is Some {
                r matches InboundAction::StoreFile(item, bytes) && item == msg.data->File_0 && Some(bytes@)
                    == base64_decoded(msg.data->File_1@)
            } else {
                r == InboundAction::Ignore
            }
        },
        _ => after == before && r == InboundAction::Ignore,
    }
}

/// The sync mode named `s`: `total`, `partial` or `disabled`.
pub open spec fn sync_mode_named(s: Seq<char>) -> Option<SyncMode> {
    if s == "total"@ {
        Some(SyncMode::TotalSync)
    } else if s == "partial"@ {
        Some(SyncMode::PartialSync)
    } else if s == "disabled"@ {
        Some(SyncMode::Disabled)
    } else {
        None
    }
}

/// Reads a sync mode from its name.
pub fn parse_sync_mode(s: &str) -> (r: Option<SyncMode>)
    ensures
        r == sync_mode_named(s@),
{
    if str_eq(s, "total") {
        Some(SyncMode::TotalSync)
    } else if str_eq(s, "partial") {
        Some(SyncMode::PartialSync)
    } else if str_eq(s, "disabled") {
        Some(SyncMode::Disabled)
    } else {
        None
    }
}

/// A text item taken from the local clipboard.
pub fn new_text_item(id: u32, text: String, now: u64, device: String) -> (r: ClipboardItem)
    ensures
        r.id@ == decimal(id as nat),
        r.content == text,
        r.timestamp@ == decimal(now as nat),
        r.device == device,
        r.content_type@ == "text"@,
        r.file_path is None,
        r.file_size is None,
        r.file_name is None,
{
    ClipboardItem {
        id: decimal_string(id as u64),
        content: text,
        timestamp: decimal_string(now),
        device,
        content_type: String::from_str("text"),
        file_path: None,
        file_size: None,
        file_name: None,
    }
}

/// A peer made from a datagram.
fn peer(id: u32, name: String, ip: String, status: DeviceStatus, mode: SyncMode, now: u64) -> (r: Device)
    ensures
        is_peer(r, id, name, ip, status, mode, now),
{
    Device { id, name, icon: String::from_str("laptop"), ip, status, sync_mode: mode, last_seen: now }
}

/// The state of one node: its peers and its clipboard.
pub struct AppState {
    pub registry: PeerRegistry,
    pub watcher: ClipboardWatcher,
}

impl AppState {
    /// A node with identity `local`, no peers, and the stored `history`.
    pub fn new(local: Device, history: Vec<ClipboardItem>) -> (r: Self)
        ensures
            r.registry@.wf(),
            r.registry@ == (RegistryView {
                local,
                connected: Seq::empty(),
                pending: Seq::empty(),
                discovered: Seq::empty(),
            }),
            r.watcher@ == (WatcherView {
                history: history@,
                last_seen: Seq::empty(),
                monitoring: true,
                suppress_next_change: false,
            }),
    {
        AppState { registry: PeerRegistry::new(local), watcher: ClipboardWatcher::new(history) }
    }

    /// A message from this node.
    fn local_message(&self, msg_type: MessageType, data: Payload) -> (r: NetworkMessage)
        ensures
            r == from_local(self.registry@.local, msg_type, data),
    {
        let local = self.registry.local_device();
        NetworkMessage { msg_type, device_id: local.id, device_name: local.name.clone(), data }
    }

    /// Sends `msg` to each of `targets`.
    fn send_to_each(targets: Vec<Device>, msg: &NetworkMessage) -> (r: Vec<Outbound>)
        ensures
            sends_to_each(r@, targets@, *msg),
    {
        let mut r: Vec<Outbound> = Vec::new();
        let mut i: usize = 0;
        while i < targets.len()
            invariant
                i <= targets@.len(),
                r@.len() == i,
                forall|j: int| 0 <= j < i ==> #[trigger] r@[j].ip == targets@[j].ip && r@[j].message == *msg,
            decreases targets@.len() - i,
        {
            r.push(Outbound { ip: targets[i].ip.clone(), message: msg.clone() });
            i = i + 1;
        }
        r
    }

    /// The sends that deliver a text item to every eligible peer.
    pub fn sync_to_connected_devices(&self, item: &ClipboardItem) -> (r: Vec<Outbound>)
        requires
            self.registry@.wf(),
        ensures
            sends_to_each(
                r@,
                self.registry@.sync_targets(),
                from_local(self.registry@.local, MessageType::ClipboardSync, Payload::Item(*item)),
            ),
    {
        let targets = self.registry.eligible_sync_targets();
        let msg = self.local_message(MessageType::ClipboardSync, Payload::Item(item.clone()));
        Self::send_to_each(targets, &msg)
    }

    /// The sends that deliver a file item and the file's bytes, in base64,
    /// to every eligible peer.
    pub fn sync_file_to_connected_devices(&self, item: &ClipboardItem, content: &Vec<u8>) -> (r: Vec<Outbound>)
        requires
            self.registry@.wf(),
            content@.len() <= MAX_FILE_SIZE,
        ensures
            exists|b64: String|
                b64@ == base64_of(content@) && sends_to_each(
                    r@,
                    self.registry@.sync_targets(),
                    from_local(self.registry@.local, MessageType::FileTransfer, Payload::File(*item, b64)),
                ),
    {
        let targets = self.registry.eligible_sync_targets();
        let b64 = file_content_base64(content);
        let msg = self.local_message(MessageType::FileTransfer, Payload::File(item.clone(), b64));
        Self::send_to_each(targets, &msg)
    }

    /// Records the sender of a discovery datagram as discovered, unless it is
    /// this node itself or already recorded.
    fn record_discovered(&mut self, id: u32, name: String, ip: String, now: u64)
        requires
            old(self).registry@.wf(),
        ensures
            final(self).registry@.wf(),
            final(self).watcher@ == old(self).watcher@,
            discovery_recorded(old(self).registry@, final(self).registry@, id, name, ip, now),
    {
        if id != self.registry.local_device().id {
            let d = peer(id, name, ip, DeviceStatus::Offline, SyncMode::Disabled, now);
            self.registry.upsert_discovered(d);
        }
    }

    /// Handles a datagram that arrived on the sync port from `sender_ip` at
    /// `now`, and says what the receive loop does next.
    pub fn handle_message(&mut self, msg: NetworkMessage, sender_ip: String, now: u64) -> (r: InboundAction)
        requires
            old(self).registry@.wf(),
        ensures
            final(self).registry@.wf(),
            final(self).watcher@ == match r {
                InboundAction::ApplyClipboard(item) => WatcherView {
                    history: recorded(old(self).watcher@.history, item),
                    ..old(self).watcher@
                },
                _ => old(self).watcher@,
            },
            inbound_handled(old(self).registry@, final(self).registry@, msg, sender_ip, now, r),
    {
        let NetworkMessage { msg_type, device_id, device_name, data } = msg;
        match msg_type {
            MessageType::Discovery => {
                let reply = self.local_message(MessageType::Discovery, Payload::Empty);
                self.record_discovered(device_id, device_name, sender_ip, now);
                InboundAction::Reply(reply)
            },
            MessageType::ConnectionRequest => {
                let d = peer(device_id, device_name, sender_ip, DeviceStatus::Pending, SyncMode::Disabled, now);
                let shown = d.clone();
                if self.registry.add_pending(d) {
                    InboundAction::ConnectionRequested(Some(shown))
                } else {
                    InboundAction::ConnectionRequested(None)
                }
            },
            MessageType::ConnectionAccept => {
                let d = peer(device_id, device_name, sender_ip, DeviceStatus::Connected, SyncMode::PartialSync, now);
                proof {
                    crate::registry::lemma_put_unique(self.registry@.connected, d);
                }
                self.registry.insert_connected(d);
                InboundAction::ConnectionAccepted(device_id)
            },
            MessageType::ConnectionRemove => {
                self.registry.remove_connected(device_id);
                InboundAction::Disconnected(device_id)
            },
            MessageType::ClipboardSync => {
                if !self.registry.is_valid_sender(device_id, &sender_ip) {
                    return InboundAction::Ignore;
                }
                match data {
                    Payload::Item(item) => {
                        self.watcher.record_local_change(item.clone());
                        InboundAction::ApplyClipboard(item)
                    },
                    _ => InboundAction::Ignore,
                }
            },
            MessageType::FileTransfer => {
                if !self.registry.is_valid_sender(device_id, &sender_ip) {
                    return InboundAction::Ignore;
                }
                match data {
                    Payload::File(item, b64) => match decode_file_content(&b64) {
                        Some(bytes) => InboundAction::StoreFile(item, bytes),
                        None => InboundAction::Ignore,
                    },
                    _ => InboundAction::Ignore,
                }
            },
            _ => InboundAction::Ignore,
        }
    }

    /// Starts a discovery round from the node at `local_ip`: forgets the
    /// devices of the previous round and gives the probes to send.
    pub fn begin_discovery(&mut self, local_ip: &str) -> (r: Vec<Outbound>)
        requires
            old(self).registry@.wf(),
        ensures
            final(self).registry@.wf(),
            final(self).watcher@ == old(self).watcher@,
            final(self).registry@ == (RegistryView { discovered: Seq::empty(), ..old(self).registry@ }),
            r@.map_values(|o: Outbound| o.ip@) == discovery_targets(local_ip@),
            forall|i: int| 0 <= i < r@.len() ==> #[trigger] r@[i].message == from_local(
                old(self).registry@.local,
                MessageType::Discovery,
                Payload::Empty,
            ),
    {
        self.registry.clear_discovered();
        let ips = discovery_target_ips(local_ip);
        let probe = self.local_message(MessageType::Discovery, Payload::Empty);
        let mut r: Vec<Outbound> = Vec::new();
        let mut i: usize = 0;
        while i < ips.len()
            invariant
                i <= ips@.len(),
                r@.len() == i,
                forall|j: int| 0 <= j < i ==> (#[trigger] r@[j]).ip == ips@[j] && r@[j].message == probe,
            decreases ips@.len() - i,
        {
            r.push(Outbound { ip: ips[i].clone(), message: probe.clone() });
            i = i + 1;
        }
        assert(r@.map_values(|o: Outbound| o.ip@) =~= ips@.map_values(|t: String| t@));
        r
    }

    /// Handles a datagram that answered this node's discovery probe: a
    /// discovery reply from another device records it as discovered.
    pub fn handle_discovery_reply(&mut self, msg: NetworkMessage, sender_ip: String, now: u64)
        requires
            old(self).registry@.wf(),
        ensures
            final(self).registry@.wf(),
            final(self).watcher@ == old(self).watcher@,
            if msg.msg_type == MessageType::Discovery {
                discovery_recorded(old(self).registry@, final(self).registry@, msg.device_id, msg.device_name, sender_ip, now)
            } else {
                final(self).registry@ == old(self).registry@
            },
    {
        if msg.msg_type == MessageType::Discovery {
            self.record_discovered(msg.device_id, msg.device_name, sender_ip, now);
        }
    }

    /// One polling tick of the clipboard watcher, `read` being the clipboard's
    /// text or `None` where it could not be read. On a genuine local change it
    /// gives the new text item, now first in the history, and the sends that
    /// deliver it to every eligible peer.
    pub fn poll_clipboard(&mut self, read: &Option<String>) -> (r: Option<(ClipboardItem, Vec<Outbound>)>)
        requires
            old(self).registry@.wf(),
        ensures
            final(self).registry@ == old(self).registry@,
            ({
                let (w, genuine) = old(self).watcher@.tick_step(
                    match *read {
                        Some(t) => Some(t@),
                        None => None,
                    },
                );
                match r {
                    None => !genuine && final(self).watcher@ == w,
                    Some((item, out)) => {
                        &&& genuine
                        &&& read matches Some(text)
                        &&& item.content == text
                        &&& exists|n: nat| n < u32::MAX && item.id@ == decimal(n)
                        &&& exists|t: nat| item.timestamp@ == decimal(t)
                        &&& item.content_type@ == "text"@
                        &&& item.file_path is None && item.file_size is None && item.file_name is None
                        &&& final(self).watcher@ == (WatcherView { history: recorded(w.history, item), ..w })
                        &&& sends_to_each(
                            out@,
                            old(self).registry@.sync_targets(),
                            from_local(old(self).registry@.local, MessageType::ClipboardSync, Payload::Item(item)),
                        )
                    },
                }
            }),
    {
        if !self.watcher.tick(read) {
            return None;
        }
        let text = match read {
            Some(t) => t.clone(),
            None => {
                return None;
            },
        };
        let item = new_text_item(generate_id(), text, get_current_timestamp(), hostname());
        self.watcher.record_local_change(item.clone());
        let out = self.sync_to_connected_devices(&item);
        Some((item, out))
    }

    /// A connection request to the device at `ip_or_tag`. A tag (a text
    /// starting with `#`) cannot be resolved to an address.
    pub fn send_connection_request(&self, ip_or_tag: &str) -> (r: Result<Outbound, String>)
        ensures
            match r {
                Ok(o) => {
                    &&& !(ip_or_tag@.len() > 0 && ip_or_tag@[0] == '#')
                    &&& o.ip@ == ip_or_tag@
                    &&& o.message == from_local(self.registry@.local, MessageType::ConnectionRequest, Payload::Empty)
                },
                Err(e) => ip_or_tag@.len() > 0 && ip_or_tag@[0] == '#' && e@ == "Tag resolution not yet implemented"@,
            },
    {
        if ip_or_tag.unicode_len() > 0 && ip_or_tag.get_char(0) == '#' {
            return Err(String::from_str("Tag resolution not yet implemented"));
        }
        let message = self.local_message(MessageType::ConnectionRequest, Payload::Empty);
        Ok(Outbound { ip: String::from_str(ip_or_tag), message })
    }

    /// A connection request to a discovered device.
    pub fn send_connection_request_to_device(&self, target: &Device) -> (r: Outbound)
        ensures
            r.ip == target.ip,
            r.message == from_local(self.registry@.local, MessageType::ConnectionRequest, Payload::Empty),
    {
        let message = self.local_message(MessageType::ConnectionRequest, Payload::Empty);
        Outbound { ip: target.ip.clone(), message }
    }

    /// Accepts the pending device `id`: it becomes a connected peer with
    /// partial sync, and is told so.
    pub fn accept_connection(&mut self, id: u32) -> (r: Result<Outbound, String>)
        requires
            old(self).registry@.wf(),
        ensures
            final(self).registry@.wf(),
            final(self).watcher@ == old(self).watcher@,
            final(self).registry@ == old(self).registry@.accept_step(id).0,
            match r {
                Ok(o) => {
                    &&& old(self).registry@.accept_step(id).1 matches Some(d)
                    &&& o.ip == d.ip
                    &&& o.message == from_local(old(self).registry@.local, MessageType::ConnectionAccept, Payload::Empty)
                },
                Err(e) => !has_id(old(self).registry@.pending, id) && e@ == "Device not found in pending connections"@,
            },
    {
        match self.registry.accept_pending(id) {
            Some(d) => {
                let message = self.local_message(MessageType::ConnectionAccept, Payload::Empty);
                Ok(Outbound { ip: d.ip, message })
            },
            None => Err(String::from_str("Device not found in pending connections")),
        }
    }

    /// Denies the pending device `id`: it is dropped, and told so.
    pub fn deny_connection(&mut self, id: u32) -> (r: Result<Outbound, String>)
        requires
            old(self).registry@.wf(),
        ensures
            final(self).registry@.wf(),
            final(self).watcher@ == old(self).watcher@,
            final(self).registry@ == old(self).registry@.deny_step(id).0,
            match r {
                Ok(o) => {
                    &&& old(self).registry@.deny_step(id).1 matches Some(d)
                    &&& o.ip == d.ip
                    &&& o.message == from_local(old(self).registry@.local, MessageType::ConnectionDeny, Payload::Empty)
                },
                Err(e) => !has_id(old(self).registry@.pending, id) && e@ == "Device not found in pending connections"@,
            },
    {
        match self.registry.deny_pending(id) {
            Some(d) => {
                let message = self.local_message(MessageType::ConnectionDeny, Payload::Empty);
                Ok(Outbound { ip: d.ip, message })
            },
            None => Err(String::from_str("Device not found in pending connections")),
        }
    }

    /// Removes the connected device `id` and tells it so; the removal does
    /// not wait for the notice to arrive.
    pub fn remove_device(&mut self, id: u32) -> (r: Result<Outbound, String>)
        requires
            old(self).registry@.wf(),
        ensures
            final(self).registry@.wf(),
            final(self).watcher@ == old(self).watcher@,
            final(self).registry@ == (RegistryView {
                connected: without(old(self).registry@.connected, id),
                ..old(self).registry@
            }),
            match r {
                Ok(o) => {
                    let c = old(self).registry@.connected;
                    &&& has_id(c, id)
                    &&& o.ip == c[index_of(c, id)].ip
                    &&& o.message == from_local(old(self).registry@.local, MessageType::ConnectionRemove, Payload::Empty)
                },
                Err(e) => !has_id(old(self).registry@.connected, id) && e@ == "Device not found"@,
            },
    {
        match self.registry.remove_connected(id) {
            Some(d) => {
                let message = self.local_message(MessageType::ConnectionRemove, Payload::Empty);
                Ok(Outbound { ip: d.ip, message })
            },
            None => Err(String::from_str("Device not found")),
        }
    }

    /// Sets the sync mode of the connected device `id` from its name. A
    /// switch to total sync replays the whole history to that device.
    pub fn set_sync_mode(&mut self, id: u32, mode_name: &str) -> (r: Result<Vec<Outbound>, String>)
        requires
            old(self).registry@.wf(),
        ensures
            final(self).registry@.wf(),
            final(self).watcher@ == old(self).watcher@,
            match r {
                Ok(out) => {
                    let c = old(self).registry@.connected;
                    let k = index_of(c, id);
                    &&& sync_mode_named(mode_name@) matches Some(mode)
                    &&& has_id(c, id)
                    &&& final(self).registry@ == (RegistryView {
                        connected: c.update(k, Device { sync_mode: mode, ..c[k] }),
                        ..old(self).registry@
                    })
                    &&& if mode == SyncMode::TotalSync {
                        replays(out@, c[k].ip, old(self).registry@.local, old(self).watcher@.history)
                    } else {
                        out@.len() == 0
                    }
                },
                Err(e) => {
                    &&& final(self).registry@ == old(self).registry@
                    &&& if sync_mode_named(mode_name@) is None {
                        e@ == "Invalid sync mode"@
                    } else {
                        !has_id(old(self).registry@.connected, id) && e@ == "Device not found"@
                    }
                },
            },
    {
        let mode = match parse_sync_mode(mode_name) {
            Some(m) => m,
            None => {
                return Err(String::from_str("Invalid sync mode"));
            },
        };
        match self.registry.set_sync_mode(id, mode) {
            Some((ip, _name)) => {
                let mut out: Vec<Outbound> = Vec::new();
                if mode == SyncMode::TotalSync {
                    let history = self.watcher.clipboard_history();
                    let mut i: usize = 0;
                    while i < history.len()
                        invariant
                            i <= history@.len(),
                            history@ == old(self).watcher@.history,
                            self.registry@.local == old(self).registry@.local,
                            out@.len() == i,
                            forall|j: int| 0 <= j < i ==> #[trigger] out@[j].ip == ip && out@[j].message
                                == from_local(
                                self.registry@.local,
                                MessageType::ClipboardSync,
                                Payload::Item(history@[j]),
                            ),
                        decreases history@.len() - i,
                    {
                        let message = self.local_message(MessageType::ClipboardSync, Payload::Item(history[i].clone()));
                        out.push(Outbound { ip: ip.clone(), message });
                        i = i + 1;
                    }
                }
                Ok(out)
            },
            None => Err(String::from_str("Device not found")),
        }
    }
}

} // verus!
