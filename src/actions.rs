use vstd::prelude::*;
use crate::cache::{CacheOp, PairedCache, set_insert, set_remove};
use crate::device::{DeviceInfo, DeviceModel, DeviceProps, PairingState, record_of};
use crate::error::ManagerError;
use crate::registry::{
    DeviceRegistry, addresses_unique, has_address, index_of, remove_spec, upsert_spec,
};
use crate::scan::{is_noise, scan_effect};

verus! {

/// A device operation carried out through the adapter.
#[derive(Clone, Copy, Debug, PartialEq, Eq, Structural)]
pub enum DeviceOp {
    Pair,
    Connect,
    Disconnect,
}

/// One step of a compound action, and whether its failure is reported to the
/// user (else it is passed over and the next step still runs).
#[derive(Clone, Copy, Debug, PartialEq, Eq, Structural)]
pub struct PlannedOp {
    pub op: DeviceOp,
    pub report_failure: bool,
}

/// The steps of toggle-connect for a device in `state`.
pub open spec fn toggle_connect_spec(state: PairingState) -> Seq<PlannedOp> {
    match state {
        PairingState::Unpaired => seq![
            PlannedOp { op: DeviceOp::Pair, report_failure: false },
            PlannedOp { op: DeviceOp::Connect, report_failure: true },
        ],
        PairingState::Paired => seq![PlannedOp { op: DeviceOp::Connect, report_failure: true }],
        PairingState::Connected => seq![
            PlannedOp { op: DeviceOp::Disconnect, report_failure: true },
        ],
    }
}

/// The steps of toggle-connect: an unpaired device is paired first, and the
/// connect is attempted whatever the pairing gave; a connected device is
/// disconnected; a paired one is connected.
pub fn dis_connect_plan(state: PairingState) -> (r: Vec<PlannedOp>)
    ensures
        r@ == toggle_connect_spec(state),
{
    let mut r: Vec<PlannedOp> = Vec::new();
    match state {
        PairingState::Unpaired => {
            r.push(PlannedOp { op: DeviceOp::Pair, report_failure: false });
            r.push(PlannedOp { op: DeviceOp::Connect, report_failure: true });
        },
        PairingState::Paired => {
            r.push(PlannedOp { op: DeviceOp::Connect, report_failure: true });
        },
        PairingState::Connected => {
            r.push(PlannedOp { op: DeviceOp::Disconnect, report_failure: true });
        },
    }
    assert(r@ =~= toggle_connect_spec(state));
    r
}

/// Records a successful pairing: the device becomes known (its marker is to be
/// written when it is new) and its record, derived afresh from `p`, is stored.
pub fn record_paired(registry: &mut DeviceRegistry, known: &mut PairedCache, p: &DeviceProps) -> (r:
    Option<CacheOp>)
    requires
        old(registry).wf(),
        old(known).wf(),
    ensures
        final(registry).wf(),
        final(known).wf(),
        final(registry)@ == upsert_spec(old(registry)@, record_of(*p)),
        final(known)@ == set_insert(old(known)@, p.address@),
        r == (if old(known)@.contains(p.address@) {
            None
        } else {
            Some(CacheOp::Create(p.address))
        }),
{
    registry.upsert(DeviceInfo::from_props(p));
    if known.insert(p.address.clone()) {
        Some(CacheOp::Create(p.address.clone()))
    } else {
        None
    }
}

/// Forgets a device: its record leaves the registry, its address leaves the
/// known set, and its marker is to be deleted. Fails with `NotFound`, changing
/// nothing, when the registry has no record with that address.
pub fn forget_device(registry: &mut DeviceRegistry, known: &mut PairedCache, address: &String) -> (r:
    Result<CacheOp, ManagerError>)
    requires
        old(registry).wf(),
        old(known).wf(),
    ensures
        final(registry).wf(),
        final(known).wf(),
        has_address(old(registry)@, address@) ==> r == Ok::<CacheOp, ManagerError>(
            CacheOp::Delete(*address),
        ) && final(registry)@ == remove_spec(old(registry)@, address@) && final(known)@
            == set_remove(old(known)@, address@),
        !has_address(old(registry)@, address@) ==> r == Err::<CacheOp, ManagerError>(
            ManagerError::NotFound,
        ) && final(registry)@ == old(registry)@ && final(known)@ == old(known)@,
{
    match registry.remove(address) {
        Ok(()) => {
            known.remove(address);
            Ok(CacheOp::Delete(address.clone()))
        },
        Err(e) => Err(e),
    }
}

/// Forgetting a device that the registry holds leaves its address neither in
/// the registry nor in the known set.
pub proof fn lemma_forget_removes(reg: Seq<DeviceModel>, known: Seq<Seq<char>>, a: Seq<char>)
    requires
        addresses_unique(reg),
        known.no_duplicates(),
        has_address(reg, a),
    ensures
        !has_address(remove_spec(reg, a), a),
        !set_remove(known, a).contains(a),
{
    let k = index_of(reg, a);
    let r = remove_spec(reg, a);
    assert forall|i: int| 0 <= i < r.len() implies #[trigger] r[i].address != a by {
        if i < k {
            assert(r[i] == reg[i]);
        } else {
            assert(r[i] == reg[i + 1]);
        }
    }
    if known.contains(a) {
        let j = known.index_of(a);
        let s = known.remove(j);
        assert forall|i: int| 0 <= i < s.len() implies #[trigger] s[i] != a by {
            if i < j {
                assert(s[i] == known[i]);
            } else {
                assert(s[i] == known[i + 1]);
            }
        }
    }
}

/// A device that a scan stores as unpaired, that is then paired through the
/// dispatcher and then forgotten, leaves the registry and the known set
/// exactly as they were before it was seen.
pub proof fn lemma_scan_pair_forget_round_trip(
    reg: Seq<DeviceModel>,
    known: Seq<Seq<char>>,
    seen: DeviceProps,
    paired: DeviceProps,
)
    requires
        addresses_unique(reg),
        known.no_duplicates(),
        !has_address(reg, seen.address@),
        !known.contains(seen.address@),
        !is_noise(seen),
        !seen.paired,
        paired.address@ == seen.address@,
    ensures
        ({
            let (reg1, known1) = scan_effect(reg, known, seen);
            let reg2 = upsert_spec(reg1, record_of(paired));
            let known2 = set_insert(known1, paired.address@);
            has_address(reg1, seen.address@) && remove_spec(reg2, seen.address@) == reg
                && set_remove(known2, seen.address@) == known
        }),
{
    let a = seen.address@;
    let n = reg.len() as int;
    let d1 = record_of(seen);
    let d2 = record_of(paired);
    let reg1 = reg.push(d1);
    assert(reg1[n].address == a);
    assert(addresses_unique(reg1)) by {
        assert forall|i: int, j: int|
            0 <= i < reg1.len() && 0 <= j < reg1.len() && i != j implies #[trigger] reg1[i].address
            != #[trigger] reg1[j].address by {
            if i < n && j < n {
                assert(reg1[i] == reg[i] && reg1[j] == reg[j]);
            } else if i < n {
                assert(reg1[i] == reg[i]);
            } else {
                assert(reg1[j] == reg[j]);
            }
        }
    }
    crate::registry::lemma_index_of_unique(reg1, a, n);
    let reg2 = reg1.update(n, d2);
    assert(reg2 =~= reg.push(d2));
    assert(reg2[n].address == a);
    assert(addresses_unique(reg2)) by {
        assert forall|i: int, j: int|
            0 <= i < reg2.len() && 0 <= j < reg2.len() && i != j implies #[trigger] reg2[i].address
            != #[trigger] reg2[j].address by {
            if i < n && j < n {
                assert(reg2[i] == reg[i] && reg2[j] == reg[j]);
            } else if i < n {
                assert(reg2[i] == reg[i]);
            } else {
                assert(reg2[j] == reg[j]);
            }
        }
    }
    crate::registry::lemma_index_of_unique(reg2, a, n);
    assert(reg2.remove(n) =~= reg);
    let known2 = known.push(a);
    assert(known2[known.len() as int] == a);
    assert(known2.contains(a));
    let j = known2.index_of(a);
    assert(j == known.len()) by {
        if j < known.len() {
            assert(known[j] == a);
        }
    }
    assert(known2.remove(j) =~= known);
}

} // verus!
