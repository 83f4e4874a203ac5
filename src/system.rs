use vstd::prelude::*;

use std::collections::hash_map::DefaultHasher;
use std::hash::Hasher;

use crate::text::{four_digits, push_four_digits};
use crate::types::{Device, DeviceStatus, SyncMode};

verus! {

/// The port on which every node listens.
pub const SYNC_PORT: u16 = 51847;

/// Relies on `SystemTime::elapsed` on the Unix epoch: the time since then
/// as whole seconds and the nanoseconds past them, or `None` where the
/// clock reads earlier than the epoch.
#[verifier::external_body]
fn since_epoch() -> (r: Option<(u64, u32)>)
    ensures
        r matches Some((_, nanos)) ==> nanos < 1_000_000_000,
{
    match std::time::UNIX_EPOCH.elapsed() {
        Ok(d) => Some((d.as_secs(), d.subsec_nanos())),
        Err(_) => None,
    }
}

/// Relies on `u128::to_ne_bytes`: the bytes of `n` in the machine's order.
#[verifier::external_body]
fn native_bytes(n: u128) -> (r: [u8; 16]) {
    n.to_ne_bytes()
}

/// Relies on `rand::random`: a value drawn from the thread's generator.
pub assume_specification<T>[ rand::random::<T> ]() -> (r: T)
    where
        rand::distributions::Standard: rand::distributions::Distribution<T>,
;

/// Relies on `whoami::fallible::hostname`: the host's name, where the
/// system gives one.
#[verifier::external_body]
fn host_name() -> (r: Option<String>) {
    whoami::fallible::hostname().ok()
}

/// Relies on `local_ip_address::local_ip`: this host's address on the
/// local network in text form, where one is found.
#[verifier::external_body]
fn local_ip_text() -> (r: Option<String>) {
    match local_ip_address::local_ip() {
        Ok(ip) => Some(ip.to_string()),
        Err(_) => None,
    }
}

/// Seconds since the Unix epoch; zero where the clock reads earlier.
pub fn get_current_timestamp() -> (r: u64) {
    match since_epoch() {
        Some((secs, _)) => secs,
        None => 0,
    }
}

/// Nanoseconds since the Unix epoch; zero where the clock reads earlier.
fn current_nanos() -> (r: u128) {
    match since_epoch() {
        Some((secs, nanos)) => {
            let s: u128 = secs as u128;
            let n: u128 = nanos as u128;
            assert(s * 1_000_000_000 + n <= u128::MAX) by (nonlinear_arith)
                requires
                    s <= u64::MAX,
                    n < 1_000_000_000,
            ;
            s * 1_000_000_000 + n
        },
        None => 0,
    }
}

/// The identifier made from a hash: the hash reduced modulo `u32::MAX`.
pub fn id_from_hash(h: u64) -> (r: u32)
    ensures
        r as int == h as int % (u32::MAX as int),
{
    (h % (u32::MAX as u64)) as u32
}

/// A fresh identifier: a hash of the current time in nanoseconds, reduced
/// modulo `u32::MAX`.
pub fn generate_id() -> (r: u32)
    ensures
        r < u32::MAX,
{
    let nanos = current_nanos();
    let bytes = native_bytes(nanos);
    let mut hasher = DefaultHasher::new();
    hasher.write(bytes.as_slice());
    id_from_hash(hasher.finish())
}

/// A random number below 10000, for a device name.
pub fn generate_random_suffix() -> (r: u16)
    ensures
        r < 10000,
{
    let n: u16 = rand::random::<u16>();
    n % 10000
}

/// The name of this host, or `Unknown` where the system gives none.
pub fn hostname() -> (r: String) {
    match host_name() {
        Some(h) => h,
        None => String::from_str("Unknown"),
    }
}

/// This host's address on the local network, or the loopback address
/// where none is found.
pub fn get_local_ip() -> (r: String) {
    match local_ip_text() {
        Some(ip) => ip,
        None => String::from_str("127.0.0.1"),
    }
}

/// The name a node gives itself: `Device-` and four digits.
pub open spec fn device_name(suffix: nat) -> Seq<char> {
    "Device-"@ + four_digits(suffix)
}

/// Builds this node's identity from its parts.
pub fn device_info(id: u32, suffix: u16, ip: String, now: u64) -> (r: Device)
    ensures
        r.id == id,
        r.name@ == device_name(suffix as nat),
        r.icon@ == "laptop"@,
        r.ip == ip,
        r.status == DeviceStatus::Connected,
        r.sync_mode == SyncMode::Disabled,
        r.last_seen == now,
{
    let mut name = String::from_str("Device-");
    push_four_digits(&mut name, suffix as u64);
    Device {
        id,
        name,
        icon: String::from_str("laptop"),
        ip,
        status: DeviceStatus::Connected,
        sync_mode: SyncMode::Disabled,
        last_seen: now,
    }
}

/// This node's identity for this run: a fresh identifier, a random name,
/// the local address and the current time.
pub fn generate_device_info() -> (r: Device)
    ensures
        r.id < u32::MAX,
        exists|suffix: nat| suffix < 10000 && r.name@ == device_name(suffix),
        r.icon@ == "laptop"@,
        r.status == DeviceStatus::Connected,
        r.sync_mode == SyncMode::Disabled,
{
    let id = generate_id();
    let suffix = generate_random_suffix();
    let ip = get_local_ip();
    let now = get_current_timestamp();
    device_info(id, suffix, ip, now)
}

} // verus!
