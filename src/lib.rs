//! Peer discovery, pairing and clipboard synchronisation for hosts on one
//! local network.
//!
//! The library holds the decisions of a node: which peers it knows and
//! trusts, which clipboard changes are genuine, and what it must send to
//! whom. Sockets, the system clipboard and the item store are driven by the
//! caller, which hands the results back to the functions here as plain
//! values.

pub mod discovery;
pub mod files;
pub mod laws;
pub mod node;
pub mod preview;
pub mod registry;
pub mod store;
pub mod system;
pub mod text;
pub mod types;
pub mod watcher;

pub use node::{AppState, InboundAction, Outbound};
pub use registry::PeerRegistry;
pub use types::{ClipboardItem, Device, DeviceStatus, MessageType, NetworkMessage, Payload, SyncMode};
pub use watcher::ClipboardWatcher;
