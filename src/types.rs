use vstd::prelude::*;

verus! {

/// Pairing state of a device as seen by this node.
#[derive(PartialEq, Eq, Structural, Clone, Copy, Debug)]
pub enum DeviceStatus {
    Pending,
    Connected,
    Denied,
    Offline,
}

/// How much clipboard history is replicated to a connected device.
#[derive(PartialEq, Eq, Structural, Clone, Copy, Debug)]
pub enum SyncMode {
    /// The whole history, then every new item.
    TotalSync,
    /// Every new item from now on.
    PartialSync,
    /// Nothing.
    Disabled,
}

/// A participant of the network: a peer, or this node itself.
#[derive(Debug)]
pub struct Device {
    pub id: u32,
    pub name: String,
    pub icon: String,
    pub ip: String,
    pub status: DeviceStatus,
    pub sync_mode: SyncMode,
    pub last_seen: u64,
}

impl Clone for Device {
    fn clone(&self) -> (r: Self)
        ensures
            r == *self,
    {
        Device {
            id: self.id,
            name: self.name.clone(),
            icon: self.icon.clone(),
            ip: self.ip.clone(),
            status: self.status,
            sync_mode: self.sync_mode,
            last_seen: self.last_seen,
        }
    }
}

/// One entry of the clipboard history: a text, or a file with its metadata.
#[derive(Debug)]
pub struct ClipboardItem {
    pub id: String,
    pub content: String,
    pub timestamp: String,
    pub device: String,
    pub content_type: String,
    pub file_path: Option<String>,
    pub file_size: Option<u64>,
    pub file_name: Option<String>,
}

fn clone_opt_string(s: &Option<String>) -> (r: Option<String>)
    ensures
        r == *s,
{
    match s {
        Some(x) => Some(x.clone()),
        None => None,
    }
}

impl Clone for ClipboardItem {
    fn clone(&self) -> (r: Self)
        ensures
            r == *self,
    {
        ClipboardItem {
            id: self.id.clone(),
            content: self.content.clone(),
            timestamp: self.timestamp.clone(),
            device: self.device.clone(),
            content_type: self.content_type.clone(),
            file_path: clone_opt_string(&self.file_path),
            file_size: self.file_size,
            file_name: clone_opt_string(&self.file_name),
        }
    }
}

/// The kind of a datagram exchanged between nodes.
#[derive(PartialEq, Eq, Structural, Clone, Copy, Debug)]
pub enum MessageType {
    Discovery,
    ConnectionRequest,
    ConnectionAccept,
    ConnectionDeny,
    ConnectionRemove,
    ClipboardSync,
    FileTransfer,
    /// Reserved: no handler acts on it.
    FileTransferChunk,
    /// Reserved: no handler acts on it.
    FileTransferComplete,
    /// Reserved: no handler acts on it.
    Heartbeat,
}

/// What a message carries besides its sender.
#[derive(Debug)]
pub enum Payload {
    Empty,
    /// A clipboard item, carried by `ClipboardSync`.
    Item(ClipboardItem),
    /// A file item and the file's bytes in base64, carried by `FileTransfer`.
    File(ClipboardItem, String),
}

impl Clone for Payload {
    fn clone(&self) -> (r: Self)
        ensures
            r == *self,
    {
        match self {
            Payload::Empty => Payload::Empty,
            Payload::Item(i) => Payload::Item(i.clone()),
            Payload::File(i, b) => Payload::File(i.clone(), b.clone()),
        }
    }
}

/// The wire envelope: a kind, the sender's identity and a payload.
#[derive(Debug)]
pub struct NetworkMessage {
    pub msg_type: MessageType,
    pub device_id: u32,
    pub device_name: String,
    pub data: Payload,
}

impl Clone for NetworkMessage {
    fn clone(&self) -> (r: Self)
        ensures
            r == *self,
    {
        NetworkMessage {
            msg_type: self.msg_type,
            device_id: self.device_id,
            device_name: self.device_name.clone(),
            data: self.data.clone(),
        }
    }
}

} // verus!
