//! Bluetooth widget state: adapter power and discovery flags, plus a
//! per-device connected flag. The aggregate connected count is kept
//! consistent by diffing flag *transitions*: repeated events carrying the
//! same flag value leave the count untouched, and after any event
//! sequence the count equals the number of devices whose last-observed
//! flag is true.

use vstd::prelude::*;

verus! {

use crate::assoc::IdMap;

/// The devices whose last-observed connected flag is true.
pub open spec fn connected_set(m: Map<u64, bool>) -> Set<u64> {
    m.dom().filter(|k: u64| m[k])
}

/// How many devices are connected under `m`.
pub open spec fn spec_connected_count(m: Map<u64, bool>) -> nat {
    connected_set(m).len()
}

/// Recording a flag changes the connected count by the difference between
/// the flag's new and previously observed contribution.
pub proof fn lemma_connected_count_insert(m: Map<u64, bool>, a: u64, c: bool)
    requires
        m.dom().finite(),
    ensures
        spec_connected_count(m.insert(a, c)) == spec_connected_count(m) - (if m.contains_key(a)
            && m[a] {
            1int
        } else {
            0int
        }) + (if c {
            1int
        } else {
            0int
        }),
{
    let s = connected_set(m);
    let s2 = connected_set(m.insert(a, c));
    m.dom().lemma_len_filter(|k: u64| m[k]);
    if c {
        assert(s2 =~= s.insert(a));
    } else {
        assert(s2 =~= s.remove(a));
    }
}

/// Removing a device decrements the count exactly when its last-observed
/// flag was true.
pub proof fn lemma_connected_count_remove(m: Map<u64, bool>, a: u64)
    requires
        m.dom().finite(),
    ensures
        spec_connected_count(m.remove(a)) == spec_connected_count(m) - (if m.contains_key(a)
            && m[a] {
            1int
        } else {
            0int
        }),
{
    let s = connected_set(m);
    let s2 = connected_set(m.remove(a));
    m.dom().lemma_len_filter(|k: u64| m[k]);
    assert(s2 =~= s.remove(a));
}

/// An event that repeats the flag a device already has leaves the whole
/// device map, and with it the connected count, unchanged — so any event
/// sequence and the same sequence with duplicates spliced in fold to the
/// same state.
pub proof fn lemma_duplicate_flag_event_is_noop(m: Map<u64, bool>, a: u64, c: bool)
    requires
        m.contains_key(a),
        m[a] == c,
    ensures
        m.insert(a, c) == m,
{
    assert(m.insert(a, c) =~= m);
}

/// What the widget should draw for the current snapshot.
#[derive(PartialEq, Eq, Structural, Clone, Copy, Debug)]
pub enum BluetoothIndicator {
    Error,
    Unknown,
    Off,
    Discovering,
    Idle,
    Connected,
}

/// Snapshot of the Bluetooth adapter and its devices, keyed by the
/// device's 48-bit address.
pub struct Bluetooth {
    pub error_message: Option<String>,
    pub powered: Option<bool>,
    pub discovering: Option<bool>,
    pub devices_connected: IdMap<bool>,
    pub connected_count: usize,
}

impl Bluetooth {
    /// The per-device flags, as a map.
    pub open spec fn devices(self) -> Map<u64, bool> {
        self.devices_connected@
    }

    /// The device store is a well-formed map with a finite domain, and
    /// the cached count agrees with it: under `wf`, `connected_count` is
    /// the number of devices whose last-observed flag is true.
    pub open spec fn wf(self) -> bool {
        &&& self.devices_connected.wf()
        &&& self.devices().dom().finite()
        &&& self.connected_count == spec_connected_count(self.devices())
    }

    /// Fresh snapshot: nothing known, no devices.
    pub fn new() -> (r: Bluetooth)
        ensures
            r.wf(),
            r.error_message is None,
            r.powered is None,
            r.discovering is None,
            r.devices() == Map::<u64, bool>::empty(),
            r.connected_count == 0,
    {
        let devices_connected = IdMap::new();
        proof {
            assert(connected_set(devices_connected@) =~= Set::<u64>::empty());
        }
        Bluetooth {
            error_message: None,
            powered: None,
            discovering: None,
            devices_connected,
            connected_count: 0,
        }
    }

    /// A terminal setup failure: the widget renders the message from now on.
    pub fn set_error(&mut self, e: String)
        ensures
            final(self).wf() == old(self).wf(),
            final(self).error_message == Some(e),
            final(self).powered == old(self).powered,
            final(self).discovering == old(self).discovering,
            final(self).devices() == old(self).devices(),
            final(self).connected_count == old(self).connected_count,
    {
        self.error_message = Some(e);
    }

    /// The adapter's powered property changed (or was first read).
    pub fn set_powered(&mut self, powered: bool)
        ensures
            final(self).wf() == old(self).wf(),
            final(self).powered == Some(powered),
            final(self).error_message == old(self).error_message,
            final(self).discovering == old(self).discovering,
            final(self).devices() == old(self).devices(),
            final(self).connected_count == old(self).connected_count,
    {
        self.powered = Some(powered);
    }

    /// The adapter's discovering property changed (or was first read).
    pub fn set_discovering(&mut self, discovering: bool)
        ensures
            final(self).wf() == old(self).wf(),
            final(self).discovering == Some(discovering),
            final(self).error_message == old(self).error_message,
            final(self).powered == old(self).powered,
            final(self).devices() == old(self).devices(),
            final(self).connected_count == old(self).connected_count,
    {
        self.discovering = Some(discovering);
    }

    /// A device was added or its connected flag was observed. The count
    /// moves only on an actual transition of the flag.
    pub fn device_connected(&mut self, addr: u64, connected: bool)
        requires
            old(self).wf(),
        ensures
            final(self).wf(),
            final(self).devices() == old(self).devices().insert(addr, connected),
            final(self).connected_count == spec_connected_count(final(self).devices()),
            final(self).error_message == old(self).error_message,
            final(self).powered == old(self).powered,
            final(self).discovering == old(self).discovering,
    {
        let was: Option<bool> = match self.devices_connected.get(addr) {
            Some(b) => Some(*b),
            None => None,
        };
        let ghost m0 = self.devices_connected@;
        self.devices_connected.insert(addr, connected);
        let dom_len = self.devices_connected.len();
        proof {
            lemma_connected_count_insert(m0, addr, connected);
            self.devices_connected@.dom().lemma_len_filter(|k: u64| self.devices_connected@[k]);
        }
        let was_true = was == Some(true);
        if was_true && !connected {
            self.connected_count = self.connected_count - 1;
        } else if !was_true && connected {
            self.connected_count = self.connected_count + 1;
        }
    }

    /// A device disappeared from the adapter: it is dropped from the
    /// tracked set whatever its last flag was, and the count follows.
    pub fn device_removed(&mut self, addr: u64)
        requires
            old(self).wf(),
        ensures
            final(self).wf(),
            final(self).devices() == old(self).devices().remove(addr),
            final(self).connected_count == spec_connected_count(final(self).devices()),
            final(self).error_message == old(self).error_message,
            final(self).powered == old(self).powered,
            final(self).discovering == old(self).discovering,
    {
        let ghost m0 = self.devices_connected@;
        let was = self.devices_connected.remove(addr);
        proof {
            lemma_connected_count_remove(m0, addr);
        }
        if was == Some(true) {
            proof {
                assert(connected_set(m0).contains(addr));
                m0.dom().lemma_len_filter(|k: u64| m0[k]);
                if connected_set(m0).len() == 0 {
                    connected_set(m0).lemma_len0_is_empty();
                }
            }
            self.connected_count = self.connected_count - 1;
        }
    }

    /// Decide what the widget draws from the current snapshot.
    pub fn indicator(&self) -> (r: BluetoothIndicator)
        ensures
            r == spec_bluetooth_indicator(*self),
    {
        if self.error_message.is_some() {
            BluetoothIndicator::Error
        } else {
            match self.powered {
                Some(true) => {
                    if self.discovering == Some(true) {
                        BluetoothIndicator::Discovering
                    } else if self.connected_count == 0 {
                        BluetoothIndicator::Idle
                    } else {
                        BluetoothIndicator::Connected
                    }
                },
                Some(false) => BluetoothIndicator::Off,
                None => BluetoothIndicator::Unknown,
            }
        }
    }
}

/// What [`Bluetooth::indicator`] returns, as a function of the snapshot.
pub open spec fn spec_bluetooth_indicator(b: Bluetooth) -> BluetoothIndicator {
    if b.error_message is Some {
        BluetoothIndicator::Error
    } else if b.powered == Some(true) {
        if b.discovering == Some(true) {
            BluetoothIndicator::Discovering
        } else if b.connected_count == 0 {
            BluetoothIndicator::Idle
        } else {
            BluetoothIndicator::Connected
        }
    } else if b.powered == Some(false) {
        BluetoothIndicator::Off
    } else {
        BluetoothIndicator::Unknown
    }
}

} // verus!
