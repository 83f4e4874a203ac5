use vstd::prelude::*;

use crate::types::{Device, DeviceStatus, SyncMode};

verus! {

/// Some device of `s` has identifier `id`.
pub open spec fn has_id(s: Seq<Device>, id: u32) -> bool {
    exists|i: int| 0 <= i < s.len() && #[trigger] s[i].id == id
}

/// The position of the device with identifier `id` in `s`.
pub open spec fn index_of(s: Seq<Device>, id: u32) -> int {
    choose|i: int| 0 <= i < s.len() && #[trigger] s[i].id == id
}

/// No two devices of `s` share an identifier.
pub open spec fn unique_ids(s: Seq<Device>) -> bool {
    forall|i: int, j: int| 0 <= i < s.len() && 0 <= j < s.len() && i != j ==> #[trigger] s[i].id != #[trigger] s[j].id
}

/// `s` with `d` in place of the device of the same identifier, or with `d`
/// appended where there is none: an insert into a map keyed by identifier.
pub open spec fn put(s: Seq<Device>, d: Device) -> Seq<Device> {
    if has_id(s, d.id) {
        s.update(index_of(s, d.id), d)
    } else {
        s.push(d)
    }
}

/// `s` without the device of identifier `id`.
pub open spec fn without(s: Seq<Device>, id: u32) -> Seq<Device> {
    if has_id(s, id) {
        s.remove(index_of(s, id))
    } else {
        s
    }
}

/// `d` promoted to a trusted peer that receives new items.
pub open spec fn accepted(d: Device) -> Device {
    Device { status: DeviceStatus::Connected, sync_mode: SyncMode::PartialSync, ..d }
}

/// `d` receives broadcasts from the node whose identifier is `local_id`.
pub open spec fn is_sync_target(d: Device, local_id: u32) -> bool {
    &&& d.status == DeviceStatus::Connected
    &&& d.sync_mode != SyncMode::Disabled
    &&& d.id != local_id
}

/// A sender is trusted when it is connected under that identifier and its
/// datagram comes from the address stored for it.
pub open spec fn valid_sender(connected: Seq<Device>, id: u32, ip: Seq<char>) -> bool {
    has_id(connected, id) && connected[index_of(connected, id)].ip@ == ip
}

pub proof fn lemma_index_of(s: Seq<Device>, k: int)
    requires
        unique_ids(s),
        0 <= k < s.len(),
    ensures
        has_id(s, s[k].id),
        index_of(s, s[k].id) == k,
{
    assert(s[k].id == s[k].id);
    let i = index_of(s, s[k].id);
    assert(0 <= i < s.len() && s[i].id == s[k].id);
}

pub proof fn lemma_put_unique(s: Seq<Device>, d: Device)
    requires
        unique_ids(s),
    ensures
        unique_ids(put(s, d)),
        has_id(put(s, d), d.id),
        put(s, d)[index_of(put(s, d), d.id)] == d,
{
    if has_id(s, d.id) {
        let k = index_of(s, d.id);
        let t = s.update(k, d);
        assert forall|i: int, j: int| 0 <= i < t.len() && 0 <= j < t.len() && i != j implies #[trigger] t[i].id != #[trigger] t[j].id by {
            if i != k && j != k {
                assert(s[i].id != s[j].id);
            } else if i == k {
                assert(s[j].id != s[k].id);
            } else {
                assert(s[i].id != s[k].id);
            }
        }
        lemma_index_of(t, k);
    } else {
        let t = s.push(d);
        assert forall|i: int, j: int| 0 <= i < t.len() && 0 <= j < t.len() && i != j implies #[trigger] t[i].id != #[trigger] t[j].id by {
            if i < s.len() && j < s.len() {
                assert(s[i].id != s[j].id);
            } else if i == s.len() {
                assert(t[j] == s[j]);
            } else {
                assert(t[i] == s[i]);
            }
        }
        lemma_index_of(t, s.len() as int);
    }
}

pub proof fn lemma_remove_unique(s: Seq<Device>, k: int)
    requires
        unique_ids(s),
        0 <= k < s.len(),
    ensures
        unique_ids(s.remove(k)),
        !has_id(s.remove(k), s[k].id),
{
    let t = s.remove(k);
    assert forall|i: int, j: int| 0 <= i < t.len() && 0 <= j < t.len() && i != j implies #[trigger] t[i].id != #[trigger] t[j].id by {
        let a = if i < k { i } else { i + 1 };
        let b = if j < k { j } else { j + 1 };
        assert(t[i] == s[a] && t[j] == s[b]);
        assert(s[a].id != s[b].id);
    }
    if has_id(t, s[k].id) {
        let i = choose|i: int| 0 <= i < t.len() && #[trigger] t[i].id == s[k].id;
        let a = if i < k { i } else { i + 1 };
        assert(t[i] == s[a]);
        assert(s[a].id != s[k].id);
    }
}

/// Position of the device with identifier `id` in `v`.
pub fn position_of(v: &Vec<Device>, id: u32) -> (r: Option<usize>)
    requires
        unique_ids(v@),
    ensures
        match r {
            Some(k) => k < v@.len() && has_id(v@, id) && index_of(v@, id) == k as int && v@[k as int].id == id,
            None => !has_id(v@, id),
        },
{
    let mut i: usize = 0;
    while i < v.len()
        invariant
            i <= v@.len(),
            unique_ids(v@),
            forall|j: int| 0 <= j < i ==> #[trigger] v@[j].id != id,
        decreases v@.len() - i,
    {
        if v[i].id == id {
            proof {
                lemma_index_of(v@, i as int);
            }
            return Some(i);
        }
        i = i + 1;
    }
    None
}

/// The state of a registry as values: this node's identity, the connected
/// peers keyed by identifier, and the pending and discovered devices in
/// order of arrival.
pub struct RegistryView {
    pub local: Device,
    pub connected: Seq<Device>,
    pub pending: Seq<Device>,
    pub discovered: Seq<Device>,
}

impl RegistryView {
    pub open spec fn wf(self) -> bool {
        &&& unique_ids(self.connected)
        &&& unique_ids(self.pending)
        &&& unique_ids(self.discovered)
        &&& forall|i: int| 0 <= i < self.connected.len() ==>
            (#[trigger] self.connected[i]).status == DeviceStatus::Connected
    }

    /// The connected peers that receive broadcasts, in registry order.
    pub open spec fn sync_targets(self) -> Seq<Device> {
        self.connected.filter(|d: Device| is_sync_target(d, self.local.id))
    }

    /// The registry after `accept_pending(id)`, and its result.
    pub open spec fn accept_step(self, id: u32) -> (RegistryView, Option<Device>) {
        if has_id(self.pending, id) {
            let d = accepted(self.pending[index_of(self.pending, id)]);
            (
                RegistryView {
                    pending: self.pending.remove(index_of(self.pending, id)),
                    connected: put(self.connected, d),
                    ..self
                },
                Some(d),
            )
        } else {
            (self, None)
        }
    }

    /// The registry after `deny_pending(id)`, and its result.
    pub open spec fn deny_step(self, id: u32) -> (RegistryView, Option<Device>) {
        if has_id(self.pending, id) {
            (
                RegistryView { pending: self.pending.remove(index_of(self.pending, id)), ..self },
                Some(self.pending[index_of(self.pending, id)]),
            )
        } else {
            (self, None)
        }
    }
}

/// The peers known to this node: the connected ones, the ones that asked to
/// connect, and the ones seen by the last discovery round.
pub struct PeerRegistry {
    local: Device,
    connected: Vec<Device>,
    pending: Vec<Device>,
    discovered: Vec<Device>,
}

impl View for PeerRegistry {
    type V = RegistryView;

    closed spec fn view(&self) -> RegistryView {
        RegistryView {
            local: self.local,
            connected: self.connected@,
            pending: self.pending@,
            discovered: self.discovered@,
        }
    }
}

impl PeerRegistry {
    /// A registry with no peers, for the node whose identity is `local`.
    pub fn new(local: Device) -> (r: Self)
        ensures
            r@.wf(),
            r@ == (RegistryView {
                local,
                connected: Seq::empty(),
                pending: Seq::empty(),
                discovered: Seq::empty(),
            }),
    {
        let r = PeerRegistry { local, connected: Vec::new(), pending: Vec::new(), discovered: Vec::new() };
        assert(r@.connected =~= Seq::<Device>::empty());
        r
    }

    pub fn local_device(&self) -> (r: &Device)
        ensures
            *r == self@.local,
    {
        &self.local
    }

    pub fn connected_devices(&self) -> (r: Vec<Device>)
        ensures
            r@ == self@.connected,
    {
        self.connected.clone()
    }

    pub fn pending_connections(&self) -> (r: Vec<Device>)
        ensures
            r@ == self@.pending,
    {
        self.pending.clone()
    }

    pub fn discovered_devices(&self) -> (r: Vec<Device>)
        ensures
            r@ == self@.discovered,
    {
        self.discovered.clone()
    }

    /// Records a device seen by discovery, unless one of its identifier is
    /// already recorded.
    pub fn upsert_discovered(&mut self, d: Device)
        requires
            old(self)@.wf(),
        ensures
            final(self)@.wf(),
            final(self)@ == (RegistryView {
                discovered: if has_id(old(self)@.discovered, d.id) {
                    old(self)@.discovered
                } else {
                    old(self)@.discovered.push(d)
                },
                ..old(self)@
            }),
    {
        match position_of(&self.discovered, d.id) {
            Some(_) => {},
            None => {
                proof {
                    lemma_put_unique(self.discovered@, d);
                }
                self.discovered.push(d);
            },
        }
    }

    /// Forgets the devices of the previous discovery round.
    pub fn clear_discovered(&mut self)
        requires
            old(self)@.wf(),
        ensures
            final(self)@.wf(),
            final(self)@ == (RegistryView { discovered: Seq::empty(), ..old(self)@ }),
    {
        self.discovered.clear();
        assert(self@.discovered =~= Seq::<Device>::empty());
    }

    /// Records a connection request, unless one from the same identifier is
    /// already pending; says whether it was recorded.
    pub fn add_pending(&mut self, d: Device) -> (inserted: bool)
        requires
            old(self)@.wf(),
        ensures
            final(self)@.wf(),
            inserted == !has_id(old(self)@.pending, d.id),
            final(self)@ == (RegistryView {
                pending: if inserted { old(self)@.pending.push(d) } else { old(self)@.pending },
                ..old(self)@
            }),
    {
        match position_of(&self.pending, d.id) {
            Some(_) => false,
            None => {
                proof {
                    lemma_put_unique(self.pending@, d);
                }
                self.pending.push(d);
                true
            },
        }
    }

    /// Inserts `d` into the connected map, replacing the entry of the same
    /// identifier.
    pub fn insert_connected(&mut self, d: Device)
        requires
            old(self)@.wf(),
            d.status == DeviceStatus::Connected,
        ensures
            final(self)@.wf(),
            final(self)@ == (RegistryView { connected: put(old(self)@.connected, d), ..old(self)@ }),
    {
        proof {
            lemma_put_unique(self.connected@, d);
        }
        match position_of(&self.connected, d.id) {
            Some(k) => {
                self.connected.set(k, d);
            },
            None => {
                self.connected.push(d);
            },
        }
        assert forall|i: int| 0 <= i < self@.connected.len() implies
            (#[trigger] self@.connected[i]).status == DeviceStatus::Connected by {
            if i < old(self)@.connected.len() && self@.connected[i] != d {
                assert(self@.connected[i] == old(self)@.connected[i]);
            }
        }
    }

    /// Moves the pending device `id` to the connected map, with status
    /// `Connected` and sync mode `PartialSync`.
    pub fn accept_pending(&mut self, id: u32) -> (r: Option<Device>)
        requires
            old(self)@.wf(),
        ensures
            final(self)@.wf(),
            (final(self)@, r) == old(self)@.accept_step(id),
    {
        match position_of(&self.pending, id) {
            Some(k) => {
                proof {
                    lemma_remove_unique(self.pending@, k as int);
                }
                let mut d = self.pending.remove(k);
                d.status = DeviceStatus::Connected;
                d.sync_mode = SyncMode::PartialSync;
                let r = d.clone();
                self.insert_connected(d);
                Some(r)
            },
            None => None,
        }
    }

    /// Drops the pending device `id` without connecting it.
    pub fn deny_pending(&mut self, id: u32) -> (r: Option<Device>)
        requires
            old(self)@.wf(),
        ensures
            final(self)@.wf(),
            (final(self)@, r) == old(self)@.deny_step(id),
    {
        match position_of(&self.pending, id) {
            Some(k) => {
                proof {
                    lemma_remove_unique(self.pending@, k as int);
                }
                Some(self.pending.remove(k))
            },
            None => None,
        }
    }

    /// Removes the connected device `id`.
    pub fn remove_connected(&mut self, id: u32) -> (r: Option<Device>)
        requires
            old(self)@.wf(),
        ensures
            final(self)@.wf(),
            final(self)@ == (RegistryView { connected: without(old(self)@.connected, id), ..old(self)@ }),
            r == (if has_id(old(self)@.connected, id) {
                Some(old(self)@.connected[index_of(old(self)@.connected, id)])
            } else {
                None
            }),
    {
        match position_of(&self.connected, id) {
            Some(k) => {
                proof {
                    lemma_remove_unique(self.connected@, k as int);
                }
                let d = self.connected.remove(k);
                assert forall|i: int| 0 <= i < self@.connected.len() implies
                    (#[trigger] self@.connected[i]).status == DeviceStatus::Connected by {
                    if i < k {
                        assert(self@.connected[i] == old(self)@.connected[i]);
                    } else {
                        assert(self@.connected[i] == old(self)@.connected[i + 1]);
                    }
                }
                Some(d)
            },
            None => None,
        }
    }

    /// Sets the sync mode of the connected device `id`; gives its address
    /// and name for a follow-up replay.
    pub fn set_sync_mode(&mut self, id: u32, mode: SyncMode) -> (r: Option<(String, String)>)
        requires
            old(self)@.wf(),
        ensures
            final(self)@.wf(),
            match r {
                Some((ip, name)) => {
                    let k = index_of(old(self)@.connected, id);
                    &&& has_id(old(self)@.connected, id)
                    &&& final(self)@ == (RegistryView {
                        connected: old(self)@.connected.update(k, Device { sync_mode: mode, ..old(self)@.connected[k] }),
                        ..old(self)@
                    })
                    &&& ip == old(self)@.connected[k].ip
                    &&& name == old(self)@.connected[k].name
                },
                None => !has_id(old(self)@.connected, id) && final(self)@ == old(self)@,
            },
    {
        match position_of(&self.connected, id) {
            Some(k) => {
                let mut d = self.connected[k].clone();
                d.sync_mode = mode;
                let r = (d.ip.clone(), d.name.clone());
                proof {
                    lemma_put_unique(self.connected@, d);
                }
                self.connected.set(k, d);
                assert forall|i: int| 0 <= i < self@.connected.len() implies
                    (#[trigger] self@.connected[i]).status == DeviceStatus::Connected by {
                    if i != k {
                        assert(self@.connected[i] == old(self)@.connected[i]);
                    }
                }
                Some(r)
            },
            None => None,
        }
    }

    /// Renames this node, and its entry in the connected map where it has one.
    pub fn rename_local(&mut self, name: String)
        requires
            old(self)@.wf(),
        ensures
            final(self)@.wf(),
            final(self)@.local == (Device { name: name, ..old(self)@.local }),
            final(self)@.pending == old(self)@.pending,
            final(self)@.discovered == old(self)@.discovered,
            final(self)@.connected == if has_id(old(self)@.connected, old(self)@.local.id) {
                let c = old(self)@.connected;
                let k = index_of(c, old(self)@.local.id);
                c.update(k, Device { name: name, ..c[k] })
            } else {
                old(self)@.connected
            },
    {
        match position_of(&self.connected, self.local.id) {
            Some(k) => {
                let mut d = self.connected[k].clone();
                d.name = name.clone();
                proof {
                    lemma_put_unique(self.connected@, d);
                }
                self.connected.set(k, d);
                assert forall|i: int| 0 <= i < self@.connected.len() implies
                    (#[trigger] self@.connected[i]).status == DeviceStatus::Connected by {
                    if i != k {
                        assert(self@.connected[i] == old(self)@.connected[i]);
                    }
                }
            },
            None => {},
        }
        self.local.name = name;
    }

    /// The sender `id` is connected and its datagram came from the address
    /// stored for it.
    pub fn is_valid_sender(&self, id: u32, ip: &String) -> (r: bool)
        requires
            self@.wf(),
        ensures
            r == valid_sender(self@.connected, id, ip@),
    {
        if self.connected.len() == 0 {
            return false;
        }
        match position_of(&self.connected, id) {
            Some(k) => self.connected[k].ip == *ip,
            None => false,
        }
    }

    /// The connected peers that receive broadcasts: connected, with sync
    /// enabled, and not this node itself.
    pub fn eligible_sync_targets(&self) -> (r: Vec<Device>)
        requires
            self@.wf(),
        ensures
            r@ == self@.sync_targets(),
    {
        let ghost s = self.connected@;
        let ghost local_id = self.local.id;
        let ghost p = |d: Device| is_sync_target(d, local_id);
        let mut r: Vec<Device> = Vec::new();
        let mut i: usize = 0;
        while i < self.connected.len()
            invariant
                i <= s.len(),
                s == self.connected@,
                local_id == self.local.id,
                p == (|d: Device| is_sync_target(d, local_id)),
                r@ == s.subrange(0, i as int).filter(p),
            decreases s.len() - i,
        {
            let d = &self.connected[i];
            proof {
                assert(s.subrange(0, i + 1).drop_last() =~= s.subrange(0, i as int));
                reveal(Seq::filter);
            }
            if d.status == DeviceStatus::Connected && d.sync_mode != SyncMode::Disabled && d.id != self.local.id {
                r.push(d.clone());
            }
            assert(s.subrange(0, i + 1).last() == s[i as int]);
            i = i + 1;
        }
        assert(s.subrange(0, s.len() as int) =~= s);
        r
    }
}

} // verus!
