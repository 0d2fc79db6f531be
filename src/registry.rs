use vstd::prelude::*;
use crate::device::{DeviceInfo, DeviceModel, PairingState};
use crate::error::ManagerError;

verus! {

/// No two records of `s` share an address.
pub open spec fn addresses_unique(s: Seq<DeviceModel>) -> bool {
    forall|i: int, j: int|
        0 <= i < s.len() && 0 <= j < s.len() && i != j ==> #[trigger] s[i].address
            != #[trigger] s[j].address
}

/// Some record of `s` has address `a`.
pub open spec fn has_address(s: Seq<DeviceModel>, a: Seq<char>) -> bool {
    exists|i: int| 0 <= i < s.len() && #[trigger] s[i].address == a
}

/// The position of the record with address `a` (meaningful when there is one).
pub open spec fn index_of(s: Seq<DeviceModel>, a: Seq<char>) -> int {
    choose|i: int| 0 <= i < s.len() && #[trigger] s[i].address == a
}

/// Insert `d` at the end when its address is new, else replace the record in place.
pub open spec fn upsert_spec(s: Seq<DeviceModel>, d: DeviceModel) -> Seq<DeviceModel> {
    if has_address(s, d.address) {
        s.update(index_of(s, d.address), d)
    } else {
        s.push(d)
    }
}

/// Drop the record with address `a`, keeping the order of the others.
pub open spec fn remove_spec(s: Seq<DeviceModel>, a: Seq<char>) -> Seq<DeviceModel> {
    if has_address(s, a) {
        s.remove(index_of(s, a))
    } else {
        s
    }
}

/// The records that are paired or connected, in their order.
pub open spec fn purge_spec(s: Seq<DeviceModel>) -> Seq<DeviceModel> {
    s.filter(|d: DeviceModel| d.pairing_state != PairingState::Unpaired)
}

/// In a list without duplicate addresses, a record with address `a` sits at `index_of`.
pub proof fn lemma_index_of_unique(s: Seq<DeviceModel>, a: Seq<char>, i: int)
    requires
        addresses_unique(s),
        0 <= i < s.len(),
        s[i].address == a,
    ensures
        index_of(s, a) == i,
{
    let k = index_of(s, a);
    assert(0 <= k < s.len() && s[k].address == a);
}

/// Purging keeps addresses unique.
pub proof fn lemma_purge_unique(s: Seq<DeviceModel>)
    requires
        addresses_unique(s),
    ensures
        addresses_unique(purge_spec(s)),
    decreases s.len(),
{
    reveal(Seq::filter);
    let pred = |d: DeviceModel| d.pairing_state != PairingState::Unpaired;
    if s.len() > 0 {
        let t = s.drop_last();
        assert(addresses_unique(t)) by {
            assert forall|a: int, b: int|
                0 <= a < t.len() && 0 <= b < t.len() && a != b implies #[trigger] t[a].address
                != #[trigger] t[b].address by {
                assert(t[a] == s[a] && t[b] == s[b]);
            }
        }
        lemma_purge_unique(t);
        let ft = t.filter(pred);
        assert(purge_spec(t) == ft);
        if pred(s.last()) {
            let r = ft.push(s.last());
            assert forall|k: int| 0 <= k < ft.len() implies #[trigger] ft[k].address
                != s.last().address by {
                assert(ft.contains(ft[k]));
                t.lemma_filter_contains_rev(pred, ft[k]);
                let j = choose|j: int| 0 <= j < t.len() && t[j] == ft[k];
                assert(t[j] == s[j]);
                assert(s[s.len() - 1] == s.last());
            }
            assert forall|a: int, b: int|
                0 <= a < r.len() && 0 <= b < r.len() && a != b implies #[trigger] r[a].address
                != #[trigger] r[b].address by {
                if a < ft.len() && b < ft.len() {
                    assert(r[a] == ft[a] && r[b] == ft[b]);
                } else if a < ft.len() {
                    assert(r[a] == ft[a]);
                } else {
                    assert(r[b] == ft[b]);
                }
            }
        }
    }
}

/// The ordered list of devices shown to the user, at most one record per address.
pub struct DeviceRegistry {
    devices: Vec<DeviceInfo>,
}

impl View for DeviceRegistry {
    type V = Seq<DeviceModel>;

    closed spec fn view(&self) -> Seq<DeviceModel> {
        self.devices@.map_values(|d: DeviceInfo| d@)
    }
}

impl DeviceRegistry {
    /// The registry's invariant: addresses are unique.
    pub open spec fn wf(&self) -> bool {
        addresses_unique(self@)
    }

    /// An empty registry.
    pub fn new() -> (r: DeviceRegistry)
        ensures
            r.wf(),
            r@ == Seq::<DeviceModel>::empty(),
    {
        let r = DeviceRegistry { devices: Vec::new() };
        assert(r@ =~= Seq::<DeviceModel>::empty());
        r
    }

    /// Number of records.
    pub fn len(&self) -> (n: usize)
        ensures
            n == self@.len(),
    {
        self.devices.len()
    }

    /// Whether the registry holds no record.
    pub fn is_empty(&self) -> (b: bool)
        ensures
            b == (self@.len() == 0),
    {
        self.devices.len() == 0
    }

    /// The record at position `i`.
    pub fn get(&self, i: usize) -> (d: &DeviceInfo)
        requires
            i < self@.len(),
        ensures
            d@ == self@[i as int],
    {
        &self.devices[i]
    }

    /// The position of the record with the given address, if any.
    pub fn position(&self, address: &String) -> (r: Option<usize>)
        ensures
            match r {
                Some(i) => i < self@.len() && self@[i as int].address == address@,
                None => !has_address(self@, address@),
            },
    {
        let n = self.devices.len();
        let mut i: usize = 0;
        while i < n
            invariant
                n == self.devices@.len(),
                i <= n,
                self@.len() == n,
                forall|k: int| 0 <= k < i ==> #[trigger] self@[k].address != address@,
            decreases n - i,
        {
            if self.devices[i].address == *address {
                return Some(i);
            }
            i = i + 1;
        }
        None
    }

    /// Whether a record with the given address is present.
    pub fn contains(&self, address: &String) -> (b: bool)
        ensures
            b == has_address(self@, address@),
    {
        self.position(address).is_some()
    }

    /// A copy of every record, in order.
    pub fn snapshot(&self) -> (r: Vec<DeviceInfo>)
        ensures
            r@.map_values(|d: DeviceInfo| d@) == self@,
    {
        let mut r: Vec<DeviceInfo> = Vec::new();
        let n = self.devices.len();
        let mut i: usize = 0;
        while i < n
            invariant
                n == self.devices@.len(),
                i <= n,
                self@.len() == n,
                r@.len() == i,
                forall|k: int| 0 <= k < i ==> #[trigger] r@[k]@ == self@[k],
            decreases n - i,
        {
            let d = self.devices[i].duplicate();
            r.push(d);
            i = i + 1;
        }
        assert(r@.map_values(|d: DeviceInfo| d@) =~= self@);
        r
    }

    /// Inserts `d` at the end when its address is new, else replaces the record
    /// with that address where it stands.
    pub fn upsert(&mut self, d: DeviceInfo)
        requires
            old(self).wf(),
        ensures
            final(self).wf(),
            final(self)@ == upsert_spec(old(self)@, d@),
    {
        let ghost dv = d@;
        match self.position(&d.address) {
            Some(i) => {
                proof {
                    lemma_index_of_unique(self@, dv.address, i as int);
                }
                self.devices.set(i, d);
                assert(self@ =~= old(self)@.update(i as int, dv));
            },
            None => {
                self.devices.push(d);
                assert(self@ =~= old(self)@.push(dv));
            },
        }
        assert(addresses_unique(self@));
    }

    /// Removes the record with the given address; `NotFound` when there is none,
    /// in which case nothing changes.
    pub fn remove(&mut self, address: &String) -> (r: Result<(), ManagerError>)
        requires
            old(self).wf(),
        ensures
            final(self).wf(),
            r is Ok <==> has_address(old(self)@, address@),
            r is Err ==> r == Err::<(), ManagerError>(ManagerError::NotFound),
            final(self)@ == remove_spec(old(self)@, address@),
    {
        match self.position(address) {
            Some(i) => {
                proof {
                    lemma_index_of_unique(self@, address@, i as int);
                }
                self.devices.remove(i);
                assert(self@ =~= old(self)@.remove(i as int));
                assert(addresses_unique(self@)) by {
                    let s = old(self)@;
                    assert forall|a: int, b: int|
                        0 <= a < self@.len() && 0 <= b < self@.len() && a != b implies
                        #[trigger] self@[a].address != #[trigger] self@[b].address by {
                        let a2 = if a < i { a } else { a + 1 };
                        let b2 = if b < i { b } else { b + 1 };
                        assert(self@[a] == s[a2]);
                        assert(self@[b] == s[b2]);
                    }
                }
                Ok(())
            },
            None => Err(ManagerError::NotFound),
        }
    }

    /// Removes every unpaired record, keeping the order of the rest.
    pub fn purge_unpaired(&mut self)
        requires
            old(self).wf(),
        ensures
            final(self).wf(),
            final(self)@ == purge_spec(old(self)@),
    {
        let ghost s = self@;
        let ghost pred = |d: DeviceModel| d.pairing_state != PairingState::Unpaired;
        let mut kept: Vec<DeviceInfo> = Vec::new();
        let n = self.devices.len();
        let mut i: usize = 0;
        while i < n
            invariant
                n == self.devices@.len(),
                i <= n,
                s == self@,
                s.len() == n,
                addresses_unique(s),
                pred == (|d: DeviceModel| d.pairing_state != PairingState::Unpaired),
                kept@.map_values(|d: DeviceInfo| d@) == s.subrange(0, i as int).filter(pred),
            decreases n - i,
        {
            proof {
                let sub = s.subrange(0, i as int + 1);
                assert(sub.drop_last() =~= s.subrange(0, i as int));
                assert(sub.last() == s[i as int]);
                reveal(Seq::filter);
            }
            if self.devices[i].pairing_state != PairingState::Unpaired {
                let d = self.devices[i].duplicate();
                let ghost before = kept@;
                kept.push(d);
                proof {
                    assert(kept@.map_values(|d: DeviceInfo| d@) =~= before.map_values(
                        |d: DeviceInfo| d@,
                    ).push(s[i as int]));
                }
            }
            i = i + 1;
        }
        assert(s.subrange(0, n as int) =~= s);
        proof {
            lemma_purge_unique(s);
        }
        self.devices = kept;
    }
}

} // verus!
