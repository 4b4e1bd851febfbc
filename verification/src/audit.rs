//! Checking a ledger that did not come out of the operations: one that was
//! read from a store, say. The operations ask for a sound ledger; whether a
//! ledger is sound can be found out here.

use std::collections::BTreeMap;
use vstd::prelude::*;
use crate::history::{current, find_active, records, well_formed};
use crate::inventory::OwnsRawMaterials;
use crate::ledger::{holds, views, Pallet, PalletView};
use crate::listing::{keys_of, lists};
use crate::record::HasProprietaryData;
use crate::types::{contains_id, AccountId, UniqueId};
use crate::unit::RawMaterialUnit;

verus! {

/// Whether every number of `list` is below `bound`.
pub fn all_below(list: &Vec<u64>, bound: u64) -> (yes: bool)
    ensures
        yes == forall|i: int| 0 <= i < list@.len() ==> list@[i] < bound,
{
    let mut i: usize = 0;
    while i < list.len()
        invariant
            i <= list.len(),
            forall|j: int| 0 <= j < i ==> list@[j] < bound,
        decreases list.len() - i,
    {
        if list[i] >= bound {
            return false;
        }
        i += 1;
    }
    true
}

/// Whether no number occurs twice in `list`.
pub fn has_no_duplicates(list: &Vec<u64>) -> (yes: bool)
    ensures
        yes == list@.no_duplicates(),
{
    let mut i: usize = 0;
    while i < list.len()
        invariant
            i <= list.len(),
            forall|a: int, b: int| 0 <= a < i && a < b < list@.len() ==> list@[a] != list@[b],
        decreases list.len() - i,
    {
        let mut j: usize = i + 1;
        while j < list.len()
            invariant
                i < j <= list.len(),
                forall|b: int| i < b < j ==> list@[i as int] != list@[b],
            decreases list.len() - j,
        {
            if list[i] == list[j] {
                return false;
            }
            j += 1;
        }
        i += 1;
    }
    assert forall|a: int, b: int|
        0 <= a < list@.len() && 0 <= b < list@.len() && a != b implies list@[a] != list@[b] by {
        if a < b {
        } else {
            assert(list@[b] != list@[a]);
        }
    }
    true
}

/// Whether every identifier of `list` names a unit of `units`.
pub fn names_units(units: &BTreeMap<UniqueId, RawMaterialUnit>, list: &Vec<UniqueId>) -> (yes:
    bool)
    ensures
        yes == forall|i: int| 0 <= i < list@.len() ==> units@.contains_key(#[trigger] list@[i]),
{
    let mut i: usize = 0;
    while i < list.len()
        invariant
            i <= list.len(),
            forall|j: int| 0 <= j < i ==> units@.contains_key(#[trigger] list@[j]),
        decreases list.len() - i,
    {
        if !units.contains_key(&list[i]) {
            return false;
        }
        i += 1;
    }
    true
}

/// Whether every identifier of `list` names a unit of `units` that is a
/// unit of `material`.
pub fn names_units_of(
    units: &BTreeMap<UniqueId, RawMaterialUnit>,
    list: &Vec<UniqueId>,
    material: UniqueId,
) -> (yes: bool)
    ensures
        yes == forall|i: int|
            0 <= i < list@.len() ==> units@.contains_key(#[trigger] list@[i])
                && units@[list@[i]]@.material_id == material,
{
    let mut i: usize = 0;
    while i < list.len()
        invariant
            i <= list.len(),
            forall|j: int|
                0 <= j < i ==> units@.contains_key(#[trigger] list@[j])
                    && units@[list@[j]]@.material_id == material,
        decreases list.len() - i,
    {
        match units.get(&list[i]) {
            Some(unit) => {
                if unit.get_material_id() != material {
                    return false;
                }
            },
            None => {
                return false;
            },
        }
        i += 1;
    }
    true
}

/// Whether in `history` the record at place i has the index i and the last
/// record, and no other, is active.
pub fn is_well_formed<R: HasProprietaryData>(history: &Vec<R>) -> (yes: bool)
    ensures
        yes == well_formed(records(history@)),
{
    if history.len() as u64 > 0x1_0000_0000u64 {
        return false;
    }
    let mut i: usize = 0;
    while i < history.len()
        invariant
            i <= history.len(),
            history.len() <= 0x1_0000_0000,
            forall|j: int|
                0 <= j < i ==> {
                    &&& (#[trigger] records(history@)[j]).data.index == Some(j as u32)
                    &&& (records(history@)[j].data.end_time is None <==> j == history.len() - 1)
                },
        decreases history.len() - i,
    {
        let placed = history[i].has_index(i as u32);
        let active = history[i].is_active();
        let last = i == history.len() - 1;
        if !placed || active != last {
            assert(!well_formed(records(history@))) by {
                let h = records(history@);
                if well_formed(h) {
                    assert(h[i as int].data.index == Some(i as u32));
                }
            }
            return false;
        }
        i += 1;
    }
    true
}

/// What holds of the unit `id` of a sound ledger by itself.
pub open spec fn unit_sound(ledger: PalletView, id: UniqueId) -> bool {
    &&& ledger.raw_material_units[id].unit_id == id
    &&& ledger.raw_material_units[id].well_formed()
    &&& ledger.raw_material_units[id].seeded()
}

/// What holds of where the unit `id` of a sound ledger is held.
pub open spec fn unit_held(ledger: PalletView, id: UniqueId) -> bool {
    let unit = ledger.raw_material_units[id];
    &&& unit.current_owner() is Some
    &&& unit.owners.len() == 1 || unit.owners.len() == 2
    &&& unit.owners.len() == 1 ==> ledger.suppliers.contains_key(unit.current_owner()->0) && holds(
        ledger.suppliers[unit.current_owner()->0],
        unit.material_id,
        id,
    )
    &&& unit.owners.len() == 2 ==> ledger.manufacturers.contains_key(unit.current_owner()->0)
        && holds(ledger.manufacturers[unit.current_owner()->0], unit.material_id, id)
}

/// What holds of the material `id` of a sound ledger.
pub open spec fn material_sound(ledger: PalletView, id: UniqueId) -> bool {
    &&& ledger.raw_materials[id].0.material_id == id
    &&& ledger.raw_materials[id].0.units.no_duplicates()
    &&& forall|i: int|
        0 <= i < ledger.raw_materials[id].0.units.len() ==> {
            let u = #[trigger] ledger.raw_materials[id].0.units[i];
            ledger.raw_material_units.contains_key(u) && ledger.raw_material_units[u].material_id
                == id
        }
}

/// What holds of the order `id` of a sound ledger.
pub open spec fn order_sound(ledger: PalletView, id: UniqueId) -> bool {
    &&& ledger.orders[id].order_id == id
    &&& ledger.orders[id].status.len() > 0
    &&& ledger.orders[id].raw_material_units.no_duplicates()
    &&& forall|i: int|
        0 <= i < ledger.orders[id].raw_material_units.len()
            ==> ledger.raw_material_units.contains_key(
            #[trigger] ledger.orders[id].raw_material_units[i],
        )
}

/// What holds of the manifest `id` of a sound ledger.
pub open spec fn manifest_sound(ledger: PalletView, id: UniqueId) -> bool {
    &&& ledger.shipping_manifests[id].manifest_id == id
    &&& ledger.shipping_manifests[id].raw_material_units.no_duplicates()
    &&& forall|i: int|
        0 <= i < ledger.shipping_manifests[id].raw_material_units.len()
            ==> ledger.raw_material_units.contains_key(
            #[trigger] ledger.shipping_manifests[id].raw_material_units[i],
        )
}

/// What holds, in a sound ledger, of the units that `account` holds of the
/// material `m`.
pub open spec fn stock_entry_sound(
    ledger: PalletView,
    account: AccountId,
    stock: Map<UniqueId, Seq<UniqueId>>,
    sales: int,
    m: UniqueId,
) -> bool {
    &&& stock[m].no_duplicates()
    &&& forall|i: int|
        0 <= i < stock[m].len() ==> {
            let u = #[trigger] stock[m][i];
            &&& ledger.raw_material_units.contains_key(u)
            &&& ledger.raw_material_units[u].material_id == m
            &&& ledger.raw_material_units[u].current_owner() == Some(account)
            &&& ledger.raw_material_units[u].owners.len() == sales + 1
            &&& ledger.raw_materials.contains_key(m)
            &&& ledger.raw_materials[m].0.units.contains(u)
        }
}

impl Pallet {
    /// Whether every identifier in use is below the next one to be handed
    /// out.
    pub fn ids_are_fresh(&self) -> (yes: bool)
        ensures
            yes == self@.ids_fresh(),
    {
        let materials = keys_of(&self.raw_materials);
        let units = keys_of(&self.raw_material_units);
        let orders = keys_of(&self.orders);
        let manifests = keys_of(&self.shipping_manifests);
        let fresh = all_below(&materials, self.next_id) && all_below(&units, self.next_id)
            && all_below(&orders, self.next_id) && all_below(&manifests, self.next_id);
        proof {
            let view = self@;
            if fresh {
                assert forall|id: UniqueId| #[trigger]
                    view.raw_materials.contains_key(id) implies id < view.next_id by {
                    assert(materials@.contains(id));
                }
                assert forall|id: UniqueId| #[trigger]
                    view.raw_material_units.contains_key(id) implies id < view.next_id by {
                    assert(units@.contains(id));
                }
                assert forall|id: UniqueId| #[trigger] view.orders.contains_key(id) implies id
                    < view.next_id by {
                    assert(orders@.contains(id));
                }
                assert forall|id: UniqueId| #[trigger]
                    view.shipping_manifests.contains_key(id) implies id < view.next_id by {
                    assert(manifests@.contains(id));
                }
            } else {
                if exists|i: int| 0 <= i < materials@.len() && materials@[i] >= view.next_id {
                    let i = choose|i: int|
                        0 <= i < materials@.len() && materials@[i] >= view.next_id;
                    assert(materials@.contains(materials@[i]));
                    assert(view.raw_materials.contains_key(materials@[i]));
                } else if exists|i: int| 0 <= i < units@.len() && units@[i] >= view.next_id {
                    let i = choose|i: int| 0 <= i < units@.len() && units@[i] >= view.next_id;
                    assert(units@.contains(units@[i]));
                    assert(view.raw_material_units.contains_key(units@[i]));
                } else if exists|i: int| 0 <= i < orders@.len() && orders@[i] >= view.next_id {
                    let i = choose|i: int| 0 <= i < orders@.len() && orders@[i] >= view.next_id;
                    assert(orders@.contains(orders@[i]));
                    assert(view.orders.contains_key(orders@[i]));
                } else {
                    let i = choose|i: int|
                        0 <= i < manifests@.len() && manifests@[i] >= view.next_id;
                    assert(manifests@.contains(manifests@[i]));
                    assert(view.shipping_manifests.contains_key(manifests@[i]));
                }
            }
        }
        fresh
    }

    /// Whether every party is stored under its own account.
    pub fn parties_are_sound(&self) -> (yes: bool)
        ensures
            yes == self@.parties_sound(),
    {
        let keys = keys_of(&self.manufacturers);
        let mut i: usize = 0;
        while i < keys.len()
            invariant
                i <= keys.len(),
                lists(keys@, self.manufacturers@.dom()),
                forall|j: int|
                    0 <= j < i ==> self@.manufacturers[#[trigger] keys@[j]].actor.account
                        == keys@[j],
            decreases keys.len() - i,
        {
            let id = keys[i];
            assert(keys@.contains(id));
            let party = self.manufacturers.get(&id).unwrap();
            if party.actor.account != id {
                assert(self@.manufacturers.contains_key(id));
                return false;
            }
            i += 1;
        }
        assert forall|a: AccountId| #[trigger]
            self@.manufacturers.contains_key(a) implies self@.manufacturers[a].actor.account
            == a by {
            assert(keys@.contains(a));
            let j = choose|j: int| 0 <= j < keys@.len() && keys@[j] == a;
            assert(self@.manufacturers[keys@[j]].actor.account == keys@[j]);
        }
        let keys = keys_of(&self.suppliers);
        let mut i: usize = 0;
        while i < keys.len()
            invariant
                i <= keys.len(),
                lists(keys@, self.suppliers@.dom()),
                forall|j: int|
                    0 <= j < i ==> self@.suppliers[#[trigger] keys@[j]].actor.account == keys@[j],
            decreases keys.len() - i,
        {
            let id = keys[i];
            assert(keys@.contains(id));
            let party = self.suppliers.get(&id).unwrap();
            if party.actor.account != id {
                assert(self@.suppliers.contains_key(id));
                return false;
            }
            i += 1;
        }
        assert forall|a: AccountId| #[trigger]
            self@.suppliers.contains_key(a) implies self@.suppliers[a].actor.account == a by {
            assert(keys@.contains(a));
            let j = choose|j: int| 0 <= j < keys@.len() && keys@[j] == a;
            assert(self@.suppliers[keys@[j]].actor.account == keys@[j]);
        }
        let keys = keys_of(&self.shipping_agents);
        let mut i: usize = 0;
        while i < keys.len()
            invariant
                i <= keys.len(),
                lists(keys@, self.shipping_agents@.dom()),
                forall|j: int|
                    0 <= j < i ==> self@.shipping_agents[#[trigger] keys@[j]].actor.account
                        == keys@[j],
            decreases keys.len() - i,
        {
            let id = keys[i];
            assert(keys@.contains(id));
            let party = self.shipping_agents.get(&id).unwrap();
            if party.actor.account != id {
                assert(self@.shipping_agents.contains_key(id));
                return false;
            }
            i += 1;
        }
        assert forall|a: AccountId| #[trigger]
            self@.shipping_agents.contains_key(a) implies self@.shipping_agents[a].actor.account
            == a by {
            assert(keys@.contains(a));
            let j = choose|j: int| 0 <= j < keys@.len() && keys@[j] == a;
            assert(self@.shipping_agents[keys@[j]].actor.account == keys@[j]);
        }
        true
    }

    /// Whether every material is stored under its own identifier and lists
    /// units of the ledger that are its own, each once.
    pub fn materials_are_sound(&self) -> (yes: bool)
        ensures
            yes == self@.materials_sound(),
    {
        let keys = keys_of(&self.raw_materials);
        let mut i: usize = 0;
        while i < keys.len()
            invariant
                i <= keys.len(),
                lists(keys@, self.raw_materials@.dom()),
                forall|j: int| 0 <= j < i ==> material_sound(self@, #[trigger] keys@[j]),
            decreases keys.len() - i,
        {
            let id = keys[i];
            assert(keys@.contains(id));
            let material = self.raw_materials.get(&id).unwrap();
            let sound = material.0.material_id == id && has_no_duplicates(&material.0.units)
                && names_units_of(&self.raw_material_units, &material.0.units, id);
            proof {
                assert(self@.raw_materials.contains_key(id));
                assert(self@.raw_materials[id].0.units == material.0.units@);
                assert(sound == material_sound(self@, id)) by {
                    if sound {
                        assert forall|k: int| 0 <= k < material.0.units@.len() implies {
                            let u = #[trigger] self@.raw_materials[id].0.units[k];
                            self@.raw_material_units.contains_key(u)
                                && self@.raw_material_units[u].material_id == id
                        } by {
                            assert(self.raw_material_units@.contains_key(material.0.units@[k]));
                        }
                    } else if material.0.material_id == id && material.0.units@.no_duplicates() {
                        let k = choose|k: int|
                            0 <= k < material.0.units@.len() && !(
                            self.raw_material_units@.contains_key(#[trigger] material.0.units@[k])
                                && self.raw_material_units@[material.0.units@[k]]@.material_id
                                == id);
                        let u = self@.raw_materials[id].0.units[k];
                        assert(!(self@.raw_material_units.contains_key(u)
                            && self@.raw_material_units[u].material_id == id));
                    }
                }
            }
            if !sound {
                return false;
            }
            i += 1;
        }
        assert forall|id: UniqueId| #[trigger]
            self@.raw_materials.contains_key(id) implies material_sound(self@, id) by {
            assert(keys@.contains(id));
            let j = choose|j: int| 0 <= j < keys@.len() && keys@[j] == id;
            assert(material_sound(self@, keys@[j]));
        }
        true
    }

    /// Whether every unit is stored under its own identifier, is seeded, and
    /// has well-formed histories.
    pub fn units_are_sound(&self) -> (yes: bool)
        ensures
            yes == self@.units_sound(),
    {
        let keys = keys_of(&self.raw_material_units);
        let mut i: usize = 0;
        while i < keys.len()
            invariant
                i <= keys.len(),
                lists(keys@, self.raw_material_units@.dom()),
                forall|j: int| 0 <= j < i ==> unit_sound(self@, #[trigger] keys@[j]),
            decreases keys.len() - i,
        {
            let id = keys[i];
            assert(keys@.contains(id));
            let unit = self.raw_material_units.get(&id).unwrap();
            let sound = unit.unit_id == id && is_well_formed(&unit.owners) && is_well_formed(
                &unit.custodians,
            ) && is_well_formed(&unit.locations) && unit.owners.len() > 0 && unit.custodians.len()
                > 0 && unit.locations.len() > 0;
            proof {
                assert(self@.raw_material_units.contains_key(id));
                assert(sound == unit_sound(self@, id));
            }
            if !sound {
                return false;
            }
            i += 1;
        }
        assert forall|id: UniqueId| #[trigger]
            self@.raw_material_units.contains_key(id) implies unit_sound(self@, id) by {
            assert(keys@.contains(id));
            let j = choose|j: int| 0 <= j < keys@.len() && keys@[j] == id;
            assert(unit_sound(self@, keys@[j]));
        }
        true
    }

    /// Whether the inventory `stock` has the unit `id` among its units of
    /// `material`.
    pub fn stock_holds(stock: &OwnsRawMaterials, material: UniqueId, id: UniqueId) -> (yes: bool)
        ensures
            yes == (stock@.contains_key(material) && stock@[material].contains(id)),
    {
        match stock.get_units(&material) {
            Some(list) => contains_id(list, id),
            None => false,
        }
    }

    /// Whether every unit is in the inventory of its owner: in a supplier's
    /// if it was never sold, in a manufacturer's if it was sold once.
    pub fn units_are_held(&self) -> (yes: bool)
        ensures
            yes == self@.units_held(),
    {
        let keys = keys_of(&self.raw_material_units);
        let mut i: usize = 0;
        while i < keys.len()
            invariant
                i <= keys.len(),
                lists(keys@, self.raw_material_units@.dom()),
                forall|j: int| 0 <= j < i ==> unit_held(self@, #[trigger] keys@[j]),
            decreases keys.len() - i,
        {
            let id = keys[i];
            assert(keys@.contains(id));
            let unit = self.raw_material_units.get(&id).unwrap();
            let held = match find_active(&unit.owners) {
                Some(k) => {
                    let owner = unit.owners[k].owner;
                    assert(current(records(unit.owners@)) == Some(owner));
                    if unit.owners.len() == 1 {
                        match self.suppliers.get(&owner) {
                            Some(supplier) => Self::stock_holds(
                                &supplier.material_manager,
                                unit.material_id,
                                id,
                            ),
                            None => false,
                        }
                    } else if unit.owners.len() == 2 {
                        match self.manufacturers.get(&owner) {
                            Some(manufacturer) => Self::stock_holds(
                                &manufacturer.material_manager,
                                unit.material_id,
                                id,
                            ),
                            None => false,
                        }
                    } else {
                        false
                    }
                },
                None => false,
            };
            proof {
                assert(self@.raw_material_units.contains_key(id));
                assert(held == unit_held(self@, id));
            }
            if !held {
                return false;
            }
            i += 1;
        }
        assert forall|id: UniqueId| #[trigger]
            self@.raw_material_units.contains_key(id) implies unit_held(self@, id) by {
            assert(keys@.contains(id));
            let j = choose|j: int| 0 <= j < keys@.len() && keys@[j] == id;
            assert(unit_held(self@, keys@[j]));
        }
        true
    }

    /// Whether the units of `list` are units of the material `m` that
    /// `account` owns and that have had `owners` owners.
    pub fn stock_entry_is_sound(
        &self,
        account: AccountId,
        m: UniqueId,
        list: &Vec<UniqueId>,
        owners: usize,
    ) -> (yes: bool)
        ensures
            yes == forall|i: int|
                0 <= i < list@.len() ==> {
                    let u = #[trigger] list@[i];
                    &&& self@.raw_material_units.contains_key(u)
                    &&& self@.raw_material_units[u].material_id == m
                    &&& self@.raw_material_units[u].current_owner() == Some(account)
                    &&& self@.raw_material_units[u].owners.len() == owners
                    &&& self@.raw_materials.contains_key(m)
                    &&& self@.raw_materials[m].0.units.contains(u)
                },
    {
        let mut i: usize = 0;
        while i < list.len()
            invariant
                i <= list.len(),
                forall|j: int|
                    0 <= j < i ==> {
                        let u = #[trigger] list@[j];
                        &&& self@.raw_material_units.contains_key(u)
                        &&& self@.raw_material_units[u].material_id == m
                        &&& self@.raw_material_units[u].current_owner() == Some(account)
                        &&& self@.raw_material_units[u].owners.len() == owners
                        &&& self@.raw_materials.contains_key(m)
                        &&& self@.raw_materials[m].0.units.contains(u)
                    },
            decreases list.len() - i,
        {
            let u = list[i];
            let sound = match self.raw_material_units.get(&u) {
                Some(unit) => {
                    unit.material_id == m && unit.is_owner(account) && unit.owners.len() == owners
                        && match self.raw_materials.get(&m) {
                        Some(material) => contains_id(&material.0.units, u),
                        None => false,
                    }
                },
                None => false,
            };
            if !sound {
                assert(list@[i as int] == u);
                return false;
            }
            i += 1;
        }
        true
    }

    /// Whether the inventory `stock` of `account` follows the ledger, where
    /// the units in it have had `owners` owners.
    pub fn stock_is_sound(&self, account: AccountId, stock: &OwnsRawMaterials, owners: usize) -> (yes:
        bool)
        requires
            owners >= 1,
        ensures
            yes == self@.stock_sound(account, stock@, owners - 1),
    {
        let keys = keys_of(&stock.raw_materials);
        let mut i: usize = 0;
        while i < keys.len()
            invariant
                i <= keys.len(),
                owners >= 1,
                lists(keys@, stock.raw_materials@.dom()),
                forall|j: int|
                    0 <= j < i ==> stock_entry_sound(
                        self@,
                        account,
                        stock@,
                        owners - 1,
                        #[trigger] keys@[j],
                    ),
            decreases keys.len() - i,
        {
            let m = keys[i];
            assert(keys@.contains(m));
            let list = stock.raw_materials.get(&m).unwrap();
            let sound = has_no_duplicates(list) && self.stock_entry_is_sound(
                account,
                m,
                list,
                owners,
            );
            proof {
                assert(stock@.contains_key(m));
                assert(stock@[m] == list@);
                assert(sound == stock_entry_sound(self@, account, stock@, owners - 1, m));
                if !sound {
                    if !list@.no_duplicates() {
                    } else {
                        let k = choose|k: int|
                            0 <= k < list@.len() && !({
                                let u = #[trigger] list@[k];
                                &&& self@.raw_material_units.contains_key(u)
                                &&& self@.raw_material_units[u].material_id == m
                                &&& self@.raw_material_units[u].current_owner() == Some(account)
                                &&& self@.raw_material_units[u].owners.len() == owners
                                &&& self@.raw_materials.contains_key(m)
                                &&& self@.raw_materials[m].0.units.contains(u)
                            });
                        let u = stock@[m][k];
                    }
                }
            }
            if !sound {
                return false;
            }
            i += 1;
        }
        proof {
            assert forall|m: UniqueId| #[trigger] stock@.contains_key(m) implies stock_entry_sound(
                self@,
                account,
                stock@,
                owners - 1,
                m,
            ) by {
                assert(keys@.contains(m));
                let j = choose|j: int| 0 <= j < keys@.len() && keys@[j] == m;
                assert(stock_entry_sound(self@, account, stock@, owners - 1, keys@[j]));
            }
        }
        true
    }

    /// Whether the inventories follow the ledger.
    pub fn inventories_are_sound(&self) -> (yes: bool)
        ensures
            yes == self@.inventories_sound(),
    {
        let keys = keys_of(&self.suppliers);
        let mut i: usize = 0;
        while i < keys.len()
            invariant
                i <= keys.len(),
                lists(keys@, self.suppliers@.dom()),
                forall|j: int|
                    0 <= j < i ==> self@.stock_sound(
                        #[trigger] keys@[j],
                        self@.suppliers[keys@[j]].material_manager,
                        0,
                    ),
            decreases keys.len() - i,
        {
            let id = keys[i];
            assert(keys@.contains(id));
            let supplier = self.suppliers.get(&id).unwrap();
            assert(self@.suppliers.contains_key(id));
            if !self.stock_is_sound(id, &supplier.material_manager, 1) {
                return false;
            }
            i += 1;
        }
        assert forall|s: AccountId| #[trigger]
            self@.suppliers.contains_key(s) implies self@.stock_sound(
            s,
            self@.suppliers[s].material_manager,
            0,
        ) by {
            assert(keys@.contains(s));
            let j = choose|j: int| 0 <= j < keys@.len() && keys@[j] == s;
            assert(self@.stock_sound(keys@[j], self@.suppliers[keys@[j]].material_manager, 0));
        }
        let keys = keys_of(&self.manufacturers);
        let mut i: usize = 0;
        while i < keys.len()
            invariant
                i <= keys.len(),
                lists(keys@, self.manufacturers@.dom()),
                forall|j: int|
                    0 <= j < i ==> self@.stock_sound(
                        #[trigger] keys@[j],
                        self@.manufacturers[keys@[j]].material_manager,
                        1,
                    ),
            decreases keys.len() - i,
        {
            let id = keys[i];
            assert(keys@.contains(id));
            let manufacturer = self.manufacturers.get(&id).unwrap();
            assert(self@.manufacturers.contains_key(id));
            if !self.stock_is_sound(id, &manufacturer.material_manager, 2) {
                return false;
            }
            i += 1;
        }
        assert forall|a: AccountId| #[trigger]
            self@.manufacturers.contains_key(a) implies self@.stock_sound(
            a,
            self@.manufacturers[a].material_manager,
            1,
        ) by {
            assert(keys@.contains(a));
            let j = choose|j: int| 0 <= j < keys@.len() && keys@[j] == a;
            assert(self@.stock_sound(keys@[j], self@.manufacturers[keys@[j]].material_manager, 1));
        }
        true
    }

    /// Whether every order is stored under its own identifier, has a status,
    /// and names units of the ledger, each once.
    pub fn orders_are_sound(&self) -> (yes: bool)
        ensures
            yes == self@.orders_sound(),
    {
        let keys = keys_of(&self.orders);
        let mut i: usize = 0;
        while i < keys.len()
            invariant
                i <= keys.len(),
                lists(keys@, self.orders@.dom()),
                forall|j: int| 0 <= j < i ==> order_sound(self@, #[trigger] keys@[j]),
            decreases keys.len() - i,
        {
            let id = keys[i];
            assert(keys@.contains(id));
            let order = self.orders.get(&id).unwrap();
            let sound = order.order_id == id && order.status.len() > 0 && has_no_duplicates(
                &order.raw_material_units,
            ) && names_units(&self.raw_material_units, &order.raw_material_units);
            proof {
                assert(self@.orders.contains_key(id));
                assert(self@.orders[id].raw_material_units == order.raw_material_units@);
                assert(sound == order_sound(self@, id)) by {
                    if sound {
                        assert forall|k: int|
                            0 <= k < order.raw_material_units@.len()
                                implies self@.raw_material_units.contains_key(
                            #[trigger] self@.orders[id].raw_material_units[k],
                        ) by {
                            assert(self.raw_material_units@.contains_key(
                                order.raw_material_units@[k],
                            ));
                        }
                    } else if order.order_id == id && order.status.len() > 0
                        && order.raw_material_units@.no_duplicates() {
                        let k = choose|k: int|
                            0 <= k < order.raw_material_units@.len()
                                && !self.raw_material_units@.contains_key(
                                #[trigger] order.raw_material_units@[k],
                            );
                        assert(!self@.raw_material_units.contains_key(
                            self@.orders[id].raw_material_units[k],
                        ));
                    }
                }
            }
            if !sound {
                return false;
            }
            i += 1;
        }
        assert forall|id: UniqueId| #[trigger] self@.orders.contains_key(id) implies order_sound(
            self@,
            id,
        ) by {
            assert(keys@.contains(id));
            let j = choose|j: int| 0 <= j < keys@.len() && keys@[j] == id;
            assert(order_sound(self@, keys@[j]));
        }
        true
    }

    /// Whether every manifest is stored under its own identifier and names
    /// units of the ledger, each once.
    pub fn manifests_are_sound(&self) -> (yes: bool)
        ensures
            yes == self@.manifests_sound(),
    {
        let keys = keys_of(&self.shipping_manifests);
        let mut i: usize = 0;
        while i < keys.len()
            invariant
                i <= keys.len(),
                lists(keys@, self.shipping_manifests@.dom()),
                forall|j: int| 0 <= j < i ==> manifest_sound(self@, #[trigger] keys@[j]),
            decreases keys.len() - i,
        {
            let id = keys[i];
            assert(keys@.contains(id));
            let manifest = self.shipping_manifests.get(&id).unwrap();
            let sound = manifest.manifest_id == id && has_no_duplicates(
                &manifest.raw_material_units,
            ) && names_units(&self.raw_material_units, &manifest.raw_material_units);
            proof {
                assert(self@.shipping_manifests.contains_key(id));
                assert(self@.shipping_manifests[id].raw_material_units
                    == manifest.raw_material_units@);
                assert(sound == manifest_sound(self@, id)) by {
                    if sound {
                        assert forall|k: int|
                            0 <= k < manifest.raw_material_units@.len()
                                implies self@.raw_material_units.contains_key(
                            #[trigger] self@.shipping_manifests[id].raw_material_units[k],
                        ) by {
                            assert(self.raw_material_units@.contains_key(
                                manifest.raw_material_units@[k],
                            ));
                        }
                    } else if manifest.manifest_id == id
                        && manifest.raw_material_units@.no_duplicates() {
                        let k = choose|k: int|
                            0 <= k < manifest.raw_material_units@.len()
                                && !self.raw_material_units@.contains_key(
                                #[trigger] manifest.raw_material_units@[k],
                            );
                        assert(!self@.raw_material_units.contains_key(
                            self@.shipping_manifests[id].raw_material_units[k],
                        ));
                    }
                }
            }
            if !sound {
                return false;
            }
            i += 1;
        }
        assert forall|id: UniqueId| #[trigger]
            self@.shipping_manifests.contains_key(id) implies manifest_sound(self@, id) by {
            assert(keys@.contains(id));
            let j = choose|j: int| 0 <= j < keys@.len() && keys@[j] == id;
            assert(manifest_sound(self@, keys@[j]));
        }
        true
    }

    /// Whether orders and manifests go together: every order is on the path
    /// from `Confirmed` to `Completed` and names its manifest from the
    /// moment it is shipped, and every manifest belongs to the order that
    /// names it.
    pub fn shipments_are_sound(&self) -> (yes: bool)
        ensures
            yes == self@.shipments_sound(),
    {
        let keys = keys_of(&self.orders);
        let mut i: usize = 0;
        while i < keys.len()
            invariant
                i <= keys.len(),
                lists(keys@, self.orders@.dom()),
                forall|j: int| 0 <= j < i ==> self@.order_on_path(#[trigger] keys@[j]),
            decreases keys.len() - i,
        {
            let id = keys[i];
            assert(keys@.contains(id));
            let order = self.orders.get(&id).unwrap();
            let bound = match order.shipping_manifest {
                Some(manifest_id) => order.status.len() != 1 && match self.shipping_manifests.get(
                    &manifest_id,
                ) {
                    Some(manifest) => manifest.order_id == id,
                    None => false,
                },
                None => order.status.len() == 1,
            };
            let sound = order.is_on_path() && bound;
            proof {
                assert(self@.orders.contains_key(id));
                assert(sound == self@.order_on_path(id));
            }
            if !sound {
                return false;
            }
            i += 1;
        }
        assert forall|id: UniqueId| #[trigger] self@.orders.contains_key(id) implies self@.order_on_path(
            id,
        ) by {
            assert(keys@.contains(id));
            let j = choose|j: int| 0 <= j < keys@.len() && keys@[j] == id;
            assert(self@.order_on_path(keys@[j]));
        }
        let keys = keys_of(&self.shipping_manifests);
        let mut i: usize = 0;
        while i < keys.len()
            invariant
                i <= keys.len(),
                lists(keys@, self.shipping_manifests@.dom()),
                forall|j: int| 0 <= j < i ==> self@.manifest_bound(#[trigger] keys@[j]),
            decreases keys.len() - i,
        {
            let id = keys[i];
            assert(keys@.contains(id));
            let manifest = self.shipping_manifests.get(&id).unwrap();
            let sound = match self.orders.get(&manifest.order_id) {
                Some(order) => match order.shipping_manifest {
                    Some(named) => named == id,
                    None => false,
                },
                None => false,
            };
            proof {
                assert(self@.shipping_manifests.contains_key(id));
                assert(sound == self@.manifest_bound(id));
            }
            if !sound {
                return false;
            }
            i += 1;
        }
        assert forall|id: UniqueId| #[trigger]
            self@.shipping_manifests.contains_key(id) implies self@.manifest_bound(id) by {
            assert(keys@.contains(id));
            let j = choose|j: int| 0 <= j < keys@.len() && keys@[j] == id;
            assert(self@.manifest_bound(keys@[j]));
        }
        true
    }

    /// Whether `identifiers` more identifiers exist and every history of
    /// every unit can take one more record.
    pub fn has_room(&self, identifiers: u64) -> (yes: bool)
        ensures
            yes == self@.has_room(identifiers as int),
    {
        if identifiers > u64::MAX - self.next_id {
            return false;
        }
        let keys = keys_of(&self.raw_material_units);
        let mut i: usize = 0;
        while i < keys.len()
            invariant
                i <= keys.len(),
                lists(keys@, self.raw_material_units@.dom()),
                forall|j: int|
                    0 <= j < i ==> {
                        let unit = self@.raw_material_units[#[trigger] keys@[j]];
                        &&& unit.owners.len() <= u32::MAX
                        &&& unit.custodians.len() <= u32::MAX
                        &&& unit.locations.len() <= u32::MAX
                    },
            decreases keys.len() - i,
        {
            let id = keys[i];
            assert(keys@.contains(id));
            let unit = self.raw_material_units.get(&id).unwrap();
            let limit: u64 = 0xffff_ffff;
            if unit.owners.len() as u64 > limit || unit.custodians.len() as u64 > limit
                || unit.locations.len() as u64 > limit {
                assert(self@.raw_material_units.contains_key(id));
                return false;
            }
            i += 1;
        }
        assert forall|id: UniqueId| #[trigger] self@.raw_material_units.contains_key(id) implies {
            &&& self@.raw_material_units[id].owners.len() <= u32::MAX
            &&& self@.raw_material_units[id].custodians.len() <= u32::MAX
            &&& self@.raw_material_units[id].locations.len() <= u32::MAX
        } by {
            assert(keys@.contains(id));
            let j = choose|j: int| 0 <= j < keys@.len() && keys@[j] == id;
            let unit = self@.raw_material_units[keys@[j]];
            assert(unit.owners.len() <= u32::MAX);
        }
        true
    }

    /// Whether the ledger is sound: whether there holds of it what holds of
    /// a ledger between any two operations.
    pub fn is_sound(&self) -> (yes: bool)
        ensures
            yes == self@.inv(),
    {
        self.ids_are_fresh() && self.parties_are_sound() && self.materials_are_sound()
            && self.units_are_sound() && self.units_are_held() && self.inventories_are_sound()
            && self.orders_are_sound() && self.manifests_are_sound() && self.shipments_are_sound()
    }
}

} // verus!
