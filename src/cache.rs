use vstd::prelude::*;
use vstd::string::*;
use crate::device::{DeviceInfo, DeviceModel, DeviceProps, record_of};
use crate::registry::{DeviceRegistry, has_address, index_of, upsert_spec};

verus! {

/// Length of the text form of a device address, `AA:BB:CC:DD:EE:FF`.
pub const ADDRESS_TEXT_LEN: usize = 17;

/// The address a marker file stands for: the first characters of its name.
pub open spec fn marker_address_spec(file_name: Seq<char>) -> Option<Seq<char>> {
    if file_name.len() >= ADDRESS_TEXT_LEN {
        Some(file_name.subrange(0, ADDRESS_TEXT_LEN as int))
    } else {
        None
    }
}

/// The address that a marker file's name stands for; `None` for a name too
/// short to hold one.
pub fn marker_address(file_name: &str) -> (r: Option<String>)
    ensures
        match r {
            Some(a) => marker_address_spec(file_name@) == Some(a@),
            None => marker_address_spec(file_name@) is None,
        },
{
    if file_name.unicode_len() >= ADDRESS_TEXT_LEN {
        Some(file_name.substring_char(0, ADDRESS_TEXT_LEN).to_string())
    } else {
        None
    }
}

/// The name of the marker file for an address.
pub fn marker_file_name(address: &String) -> (r: String)
    ensures
        r@ == address@ + ".txt"@,
{
    let mut r = address.clone();
    r.append(".txt");
    r
}

/// The markers' directory under the platform cache directory, one per adapter.
pub fn cache_subdir(adapter_name: &str) -> (r: String)
    ensures
        r@ == "bluetooi/"@ + adapter_name@,
{
    let mut r = String::from_str("bluetooi/");
    r.append(adapter_name);
    r
}

/// `a` added at the end unless already present.
pub open spec fn set_insert(s: Seq<Seq<char>>, a: Seq<char>) -> Seq<Seq<char>> {
    if s.contains(a) {
        s
    } else {
        s.push(a)
    }
}

/// `a` taken out, the rest kept in order.
pub open spec fn set_remove(s: Seq<Seq<char>>, a: Seq<char>) -> Seq<Seq<char>> {
    if s.contains(a) {
        s.remove(s.index_of(a))
    } else {
        s
    }
}

/// A change to make to the marker directory.
#[derive(Clone, Debug, PartialEq, Eq)]
pub enum CacheOp {
    /// Create the marker for this address.
    Create(String),
    /// Delete the marker for this address.
    Delete(String),
}

/// The addresses known to be paired: what the marker directory holds once
/// reconciled, in order of first record, without repetition.
pub struct PairedCache {
    addresses: Vec<String>,
}

impl View for PairedCache {
    type V = Seq<Seq<char>>;

    closed spec fn view(&self) -> Seq<Seq<char>> {
        self.addresses@.map_values(|s: String| s@)
    }
}

impl PairedCache {
    /// The cache's invariant: no address twice.
    pub open spec fn wf(&self) -> bool {
        self@.no_duplicates()
    }

    /// An empty cache.
    pub fn new() -> (r: PairedCache)
        ensures
            r.wf(),
            r@ == Seq::<Seq<char>>::empty(),
    {
        let r = PairedCache { addresses: Vec::new() };
        assert(r@ =~= Seq::<Seq<char>>::empty());
        r
    }

    /// Number of addresses.
    pub fn len(&self) -> (n: usize)
        ensures
            n == self@.len(),
    {
        self.addresses.len()
    }

    /// The address at position `i`.
    pub fn get(&self, i: usize) -> (a: &String)
        requires
            i < self@.len(),
        ensures
            a@ == self@[i as int],
    {
        &self.addresses[i]
    }

    fn position(&self, address: &String) -> (r: Option<usize>)
        ensures
            match r {
                Some(i) => i < self@.len() && self@[i as int] == address@,
                None => !self@.contains(address@),
            },
    {
        let n = self.addresses.len();
        let mut i: usize = 0;
        while i < n
            invariant
                n == self.addresses@.len(),
                i <= n,
                self@.len() == n,
                forall|k: int| 0 <= k < i ==> #[trigger] self@[k] != address@,
            decreases n - i,
        {
            if self.addresses[i] == *address {
                return Some(i);
            }
            i = i + 1;
        }
        None
    }

    /// Whether the address is known to be paired.
    pub fn contains(&self, address: &String) -> (b: bool)
        ensures
            b == self@.contains(address@),
    {
        self.position(address).is_some()
    }

    /// Records an address; returns whether it was new.
    pub fn insert(&mut self, address: String) -> (added: bool)
        requires
            old(self).wf(),
        ensures
            final(self).wf(),
            added == !old(self)@.contains(address@),
            final(self)@ == set_insert(old(self)@, address@),
    {
        if self.contains(&address) {
            false
        } else {
            let ghost a = address@;
            self.addresses.push(address);
            assert(self@ =~= old(self)@.push(a));
            true
        }
    }

    /// Forgets an address; returns whether it was present.
    pub fn remove(&mut self, address: &String) -> (removed: bool)
        requires
            old(self).wf(),
        ensures
            final(self).wf(),
            removed == old(self)@.contains(address@),
            final(self)@ == set_remove(old(self)@, address@),
    {
        match self.position(address) {
            Some(i) => {
                proof {
                    let s = self@;
                    let k = s.index_of(address@);
                    assert(s.contains(address@));
                    assert(s[k] == address@);
                    assert(k == i);
                }
                self.addresses.remove(i);
                assert(self@ =~= old(self)@.remove(i as int));
                true
            },
            None => false,
        }
    }
}

/// What the adapter says of the device behind a marker.
#[derive(Clone, Copy, Debug, PartialEq, Eq, Structural)]
pub enum LiveStatus {
    /// The adapter does not know the device.
    Unknown,
    /// The device is known but no longer paired.
    NotPaired,
    /// The device is known and paired.
    Paired,
}

/// A marker file found on disk, with what the adapter says of its device.
#[derive(Clone, Debug)]
pub struct MarkerCheck {
    pub file_name: String,
    pub status: LiveStatus,
}

/// Whether a marker is kept: its name holds an address and its device is still paired.
pub open spec fn marker_kept(file_name: Seq<char>, status: LiveStatus) -> bool {
    marker_address_spec(file_name) is Some && status == LiveStatus::Paired
}

/// The known set after one marker is checked.
pub open spec fn reconcile_step(s: Seq<Seq<char>>, file_name: Seq<char>, status: LiveStatus) -> Seq<
    Seq<char>,
> {
    if marker_kept(file_name, status) {
        set_insert(s, marker_address_spec(file_name)->0)
    } else {
        s
    }
}

/// Checks one marker: a marker whose device is still paired adds its address
/// to the known set and returns `true`; any other marker is stale, leaves the
/// set as it is, and returns `false` so that the caller deletes its file.
pub fn reconcile_entry(cache: &mut PairedCache, file_name: &str, status: LiveStatus) -> (kept:
    bool)
    requires
        old(cache).wf(),
    ensures
        final(cache).wf(),
        kept == marker_kept(file_name@, status),
        final(cache)@ == reconcile_step(old(cache)@, file_name@, status),
{
    match marker_address(file_name) {
        Some(a) => {
            if status == LiveStatus::Paired {
                cache.insert(a);
                true
            } else {
                false
            }
        },
        None => false,
    }
}

/// The markers among `m` that are stale, in order.
pub open spec fn stale_markers(m: Seq<MarkerCheck>) -> Seq<Seq<char>>
    decreases m.len(),
{
    if m.len() == 0 {
        Seq::empty()
    } else {
        let rest = stale_markers(m.drop_last());
        if marker_kept(m.last().file_name@, m.last().status) {
            rest
        } else {
            rest.push(m.last().file_name@)
        }
    }
}

/// The known set after every marker of `m` is checked in order.
pub open spec fn reconcile_all(s: Seq<Seq<char>>, m: Seq<MarkerCheck>) -> Seq<Seq<char>>
    decreases m.len(),
{
    if m.len() == 0 {
        s
    } else {
        reconcile_step(reconcile_all(s, m.drop_last()), m.last().file_name@, m.last().status)
    }
}

/// Checks every marker found on disk against the adapter. The known set gains
/// the address of each marker whose device is still paired; the names of the
/// stale markers, whose files are to be deleted, are returned. A stale or
/// malformed marker never stops the others from being checked.
pub fn load_paired_devices(cache: &mut PairedCache, markers: &Vec<MarkerCheck>) -> (stale: Vec<
    String,
>)
    requires
        old(cache).wf(),
    ensures
        final(cache).wf(),
        final(cache)@ == reconcile_all(old(cache)@, markers@),
        stale@.map_values(|s: String| s@) == stale_markers(markers@),
{
    let mut stale: Vec<String> = Vec::new();
    let n = markers.len();
    let mut i: usize = 0;
    while i < n
        invariant
            n == markers@.len(),
            i <= n,
            cache.wf(),
            cache@ == reconcile_all(old(cache)@, markers@.subrange(0, i as int)),
            stale@.map_values(|s: String| s@) == stale_markers(markers@.subrange(0, i as int)),
        decreases n - i,
    {
        proof {
            let sub = markers@.subrange(0, i as int + 1);
            assert(sub.drop_last() =~= markers@.subrange(0, i as int));
            assert(sub.last() == markers@[i as int]);
        }
        let m = &markers[i];
        let kept = reconcile_entry(cache, m.file_name.as_str(), m.status);
        if !kept {
            let ghost before = stale@;
            stale.push(m.file_name.clone());
            assert(stale@.map_values(|s: String| s@) =~= before.map_values(|s: String| s@).push(
                m.file_name@,
            ));
        }
        i = i + 1;
    }
    assert(markers@.subrange(0, n as int) =~= markers@);
    stale
}

/// The registry after the records of `props` whose address is known to be
/// paired are stored in order.
pub open spec fn seed_spec(r: Seq<DeviceModel>, known: Seq<Seq<char>>, props: Seq<DeviceProps>) -> Seq<
    DeviceModel,
>
    decreases props.len(),
{
    if props.len() == 0 {
        r
    } else {
        let prev = seed_spec(r, known, props.drop_last());
        if known.contains(props.last().address@) {
            upsert_spec(prev, record_of(props.last()))
        } else {
            prev
        }
    }
}

/// Fills the registry with the records of the devices known to be paired:
/// each of `props` whose address is in the cache is stored, the others are
/// passed over.
pub fn load_known_records(registry: &mut DeviceRegistry, cache: &PairedCache, props: &Vec<
    DeviceProps,
>)
    requires
        old(registry).wf(),
    ensures
        final(registry).wf(),
        final(registry)@ == seed_spec(old(registry)@, cache@, props@),
{
    let n = props.len();
    let mut i: usize = 0;
    while i < n
        invariant
            n == props@.len(),
            i <= n,
            registry.wf(),
            registry@ == seed_spec(old(registry)@, cache@, props@.subrange(0, i as int)),
        decreases n - i,
    {
        proof {
            let sub = props@.subrange(0, i as int + 1);
            assert(sub.drop_last() =~= props@.subrange(0, i as int));
            assert(sub.last() == props@[i as int]);
        }
        if cache.contains(&props[i].address) {
            registry.upsert(DeviceInfo::from_props(&props[i]));
        }
        i = i + 1;
    }
    assert(props@.subrange(0, n as int) =~= props@);
}

/// A marker whose device is unknown to the adapter or no longer paired is
/// deleted and adds nothing to the known set, so loading the known records
/// afterwards gives its address no row in the registry.
pub proof fn lemma_stale_marker_dropped(
    known: Seq<Seq<char>>,
    file_name: Seq<char>,
    status: LiveStatus,
    reg: Seq<DeviceModel>,
    props: Seq<DeviceProps>,
)
    requires
        status != LiveStatus::Paired,
        marker_address_spec(file_name) is Some,
        !known.contains(marker_address_spec(file_name)->0),
        !has_address(reg, marker_address_spec(file_name)->0),
    ensures
        !marker_kept(file_name, status),
        reconcile_step(known, file_name, status) == known,
        !has_address(
            seed_spec(reg, reconcile_step(known, file_name, status), props),
            marker_address_spec(file_name)->0,
        ),
{
    lemma_seed_skips_unknown(reg, known, props, marker_address_spec(file_name)->0);
}

/// Loading the known records adds no row for an address outside the known set.
pub proof fn lemma_seed_skips_unknown(
    reg: Seq<DeviceModel>,
    known: Seq<Seq<char>>,
    props: Seq<DeviceProps>,
    a: Seq<char>,
)
    requires
        !known.contains(a),
        !has_address(reg, a),
    ensures
        !has_address(seed_spec(reg, known, props), a),
    decreases props.len(),
{
    if props.len() > 0 {
        lemma_seed_skips_unknown(reg, known, props.drop_last(), a);
        let prev = seed_spec(reg, known, props.drop_last());
        let p = props.last();
        if known.contains(p.address@) {
            let d = record_of(p);
            assert(d.address != a);
            let r = upsert_spec(prev, d);
            if has_address(prev, d.address) {
                let k = index_of(prev, d.address);
                assert forall|i: int| 0 <= i < r.len() implies #[trigger] r[i].address != a by {
                    if i != k {
                        assert(r[i] == prev[i]);
                    }
                }
            } else {
                assert forall|i: int| 0 <= i < r.len() implies #[trigger] r[i].address != a by {
                    if i < prev.len() {
                        assert(r[i] == prev[i]);
                    }
                }
            }
        }
    }
}

} // verus!
