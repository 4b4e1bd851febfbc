//! The ledger: the stores of actors, materials, units, orders and
//! manifests, the source of fresh identifiers, and the clock. What holds of
//! the ledger between any two operations is stated here.

use std::collections::BTreeMap;
use vstd::prelude::*;
use crate::actor::{Manufacturer, MaterialHolderView, ShippingAgent, ShippingAgentView, Supplier};
use crate::material::{RawMaterial, RawMaterialShipping, RawMaterialShippingView, RawMaterialView};
use crate::order::{Order, OrderView, ShippingManifest, ShippingManifestView};
use crate::record::{ProprietaryDataInput, ProprietaryDataInputView};
use crate::types::{AccountId, UniqueId};
use crate::unit::{RawMaterialUnit, RawMaterialUnitView};

verus! {

/// What a store holds: the view of each value, under the value's key.
pub open spec fn views<T: View>(store: Map<u64, T>) -> Map<u64, T::V> {
    store.map_values(|value: T| value@)
}

/// The ledger.
#[derive(Debug, PartialEq, Eq)]
pub struct Pallet {
    pub manufacturers: BTreeMap<AccountId, Manufacturer>,
    pub suppliers: BTreeMap<AccountId, Supplier>,
    pub shipping_agents: BTreeMap<AccountId, ShippingAgent>,
    pub raw_materials: BTreeMap<UniqueId, (RawMaterial, RawMaterialShipping)>,
    pub raw_material_units: BTreeMap<UniqueId, RawMaterialUnit>,
    pub orders: BTreeMap<UniqueId, Order>,
    pub shipping_manifests: BTreeMap<UniqueId, ShippingManifest>,
    /// The next identifier to hand out. Every identifier in use is below it.
    pub next_id: UniqueId,
    /// The time that operations record.
    pub block_number: u32,
}

/// What the ledger holds.
pub struct PalletView {
    pub manufacturers: Map<AccountId, MaterialHolderView>,
    pub suppliers: Map<AccountId, MaterialHolderView>,
    pub shipping_agents: Map<AccountId, ShippingAgentView>,
    pub raw_materials: Map<UniqueId, (RawMaterialView, RawMaterialShippingView)>,
    pub raw_material_units: Map<UniqueId, RawMaterialUnitView>,
    pub orders: Map<UniqueId, OrderView>,
    pub shipping_manifests: Map<UniqueId, ShippingManifestView>,
    pub next_id: UniqueId,
    pub block_number: u32,
}

impl View for Pallet {
    type V = PalletView;

    open spec fn view(&self) -> PalletView {
        PalletView {
            manufacturers: views(self.manufacturers@),
            suppliers: views(self.suppliers@),
            shipping_agents: views(self.shipping_agents@),
            raw_materials: views(self.raw_materials@),
            raw_material_units: views(self.raw_material_units@),
            orders: views(self.orders@),
            shipping_manifests: views(self.shipping_manifests@),
            next_id: self.next_id,
            block_number: self.block_number,
        }
    }
}

impl Clone for Pallet {
    fn clone(&self) -> (copy: Self)
        ensures
            copy@ == self@,
    {
        Pallet {
            manufacturers: self.manufacturers.clone(),
            suppliers: self.suppliers.clone(),
            shipping_agents: self.shipping_agents.clone(),
            raw_materials: self.raw_materials.clone(),
            raw_material_units: self.raw_material_units.clone(),
            orders: self.orders.clone(),
            shipping_manifests: self.shipping_manifests.clone(),
            next_id: self.next_id,
            block_number: self.block_number,
        }
    }
}

/// The ledger before anything was done with it.
pub open spec fn empty_ledger() -> PalletView {
    PalletView {
        manufacturers: Map::empty(),
        suppliers: Map::empty(),
        shipping_agents: Map::empty(),
        raw_materials: Map::empty(),
        raw_material_units: Map::empty(),
        orders: Map::empty(),
        shipping_manifests: Map::empty(),
        next_id: 0,
        block_number: 0,
    }
}

/// Whether `holder` has `unit` among its units of `material`.
pub open spec fn holds(holder: MaterialHolderView, material: UniqueId, unit: UniqueId) -> bool {
    holder.material_manager.contains_key(material) && holder.material_manager[material].contains(
        unit,
    )
}

impl RawMaterialUnitView {
    /// The history that `input` would extend can take one more record.
    pub open spec fn room_for(self, input: ProprietaryDataInputView) -> bool {
        match input {
            ProprietaryDataInputView::Owner(Some(_)) => self.owners.len() <= u32::MAX,
            ProprietaryDataInputView::Custodian(Some(_)) => self.custodians.len() <= u32::MAX,
            ProprietaryDataInputView::Location(Some(_)) => self.locations.len() <= u32::MAX,
            _ => true,
        }
    }
}

impl PalletView {
    /// Every identifier in use is below the next one to be handed out.
    pub open spec fn ids_fresh(self) -> bool {
        &&& forall|id: UniqueId| #[trigger] self.raw_materials.contains_key(id) ==> id < self.next_id
        &&& forall|id: UniqueId| #[trigger]
            self.raw_material_units.contains_key(id) ==> id < self.next_id
        &&& forall|id: UniqueId| #[trigger] self.orders.contains_key(id) ==> id < self.next_id
        &&& forall|id: UniqueId| #[trigger]
            self.shipping_manifests.contains_key(id) ==> id < self.next_id
    }

    /// Every unit is stored under its own identifier, has an owner, a
    /// custodian and a location, and in each of its histories the record at
    /// place i has the index i and the last record, and no other, is active.
    pub open spec fn units_sound(self) -> bool {
        forall|id: UniqueId| #[trigger]
            self.raw_material_units.contains_key(id) ==> {
                &&& self.raw_material_units[id].unit_id == id
                &&& self.raw_material_units[id].well_formed()
                &&& self.raw_material_units[id].seeded()
            }
    }

    /// What holds of the inventory `stock` of the actor `account`: every
    /// unit in it is a unit of the ledger, minted for the material under
    /// which it is held, owned now by `account`, and has changed hands
    /// `sales` times; no unit is held twice.
    pub open spec fn stock_sound(
        self,
        account: AccountId,
        stock: Map<UniqueId, Seq<UniqueId>>,
        sales: int,
    ) -> bool {
        &&& forall|m: UniqueId| #[trigger] stock.contains_key(m) ==> stock[m].no_duplicates()
        &&& forall|m: UniqueId, i: int|
            stock.contains_key(m) && 0 <= i < stock[m].len() ==> {
                let u = #[trigger] stock[m][i];
                &&& self.raw_material_units.contains_key(u)
                &&& self.raw_material_units[u].material_id == m
                &&& self.raw_material_units[u].current_owner() == Some(account)
                &&& self.raw_material_units[u].owners.len() == sales + 1
                &&& self.raw_materials.contains_key(m)
                &&& self.raw_materials[m].0.units.contains(u)
            }
    }

    /// The inventories follow the ledger: a supplier holds units that it
    /// owns and that were never sold, a manufacturer units that it owns and
    /// that were sold once.
    pub open spec fn inventories_sound(self) -> bool {
        &&& forall|s: AccountId| #[trigger]
            self.suppliers.contains_key(s) ==> self.stock_sound(
                s,
                self.suppliers[s].material_manager,
                0,
            )
        &&& forall|a: AccountId| #[trigger]
            self.manufacturers.contains_key(a) ==> self.stock_sound(
                a,
                self.manufacturers[a].material_manager,
                1,
            )
    }

    /// Every order is stored under its own identifier, has a status, and
    /// names units of the ledger, each once.
    pub open spec fn orders_sound(self) -> bool {
        forall|id: UniqueId| #[trigger]
            self.orders.contains_key(id) ==> {
                &&& self.orders[id].order_id == id
                &&& self.orders[id].status.len() > 0
                &&& self.orders[id].raw_material_units.no_duplicates()
                &&& forall|i: int|
                    0 <= i < self.orders[id].raw_material_units.len()
                        ==> self.raw_material_units.contains_key(
                        #[trigger] self.orders[id].raw_material_units[i],
                    )
            }
    }

    /// Every manifest is stored under its own identifier and names units of
    /// the ledger, each once.
    pub open spec fn manifests_sound(self) -> bool {
        forall|id: UniqueId| #[trigger]
            self.shipping_manifests.contains_key(id) ==> {
                &&& self.shipping_manifests[id].manifest_id == id
                &&& self.shipping_manifests[id].raw_material_units.no_duplicates()
                &&& forall|i: int|
                    0 <= i < self.shipping_manifests[id].raw_material_units.len()
                        ==> self.raw_material_units.contains_key(
                        #[trigger] self.shipping_manifests[id].raw_material_units[i],
                    )
            }
    }

    /// Every party is stored under its own account.
    pub open spec fn parties_sound(self) -> bool {
        &&& forall|a: AccountId| #[trigger]
            self.manufacturers.contains_key(a) ==> self.manufacturers[a].actor.account == a
        &&& forall|a: AccountId| #[trigger]
            self.suppliers.contains_key(a) ==> self.suppliers[a].actor.account == a
        &&& forall|a: AccountId| #[trigger]
            self.shipping_agents.contains_key(a) ==> self.shipping_agents[a].actor.account == a
    }

    /// Every material is stored under its own identifier, and the units
    /// minted for it are units of the ledger, each listed once.
    pub open spec fn materials_sound(self) -> bool {
        forall|id: UniqueId| #[trigger]
            self.raw_materials.contains_key(id) ==> {
                &&& self.raw_materials[id].0.material_id == id
                &&& self.raw_materials[id].0.units.no_duplicates()
                &&& forall|i: int|
                    0 <= i < self.raw_materials[id].0.units.len() ==> {
                        let u = #[trigger] self.raw_materials[id].0.units[i];
                        self.raw_material_units.contains_key(u)
                            && self.raw_material_units[u].material_id == id
                    }
            }
    }

    /// Every unit is held by its owner: a unit that was never sold by the
    /// supplier that minted it, a unit that was sold by the manufacturer
    /// that bought it.
    pub open spec fn units_held(self) -> bool {
        forall|id: UniqueId| #[trigger]
            self.raw_material_units.contains_key(id) ==> {
                let unit = self.raw_material_units[id];
                &&& unit.current_owner() is Some
                &&& unit.owners.len() == 1 || unit.owners.len() == 2
                &&& unit.owners.len() == 1 ==> self.suppliers.contains_key(unit.current_owner()->0)
                    && holds(self.suppliers[unit.current_owner()->0], unit.material_id, id)
                &&& unit.owners.len() == 2 ==> self.manufacturers.contains_key(
                    unit.current_owner()->0,
                ) && holds(self.manufacturers[unit.current_owner()->0], unit.material_id, id)
            }
    }

    /// What holds of the order `id` and its shipment: the status history is
    /// a beginning of `Confirmed`, `InProgress`, `Completed`; the order
    /// names a manifest from the moment it is shipped, and that manifest is
    /// a manifest of the ledger for this order.
    pub open spec fn order_on_path(self, id: UniqueId) -> bool {
        let order = self.orders[id];
        &&& order.on_path()
        &&& order.shipping_manifest is None <==> order.status.len() == 1
        &&& order.shipping_manifest is Some ==> self.shipping_manifests.contains_key(
            order.shipping_manifest->0,
        ) && self.shipping_manifests[order.shipping_manifest->0].order_id == id
    }

    /// What holds of the manifest `id` and its order: the order is an order
    /// of the ledger, and it names this manifest.
    pub open spec fn manifest_bound(self, id: UniqueId) -> bool {
        let order_id = self.shipping_manifests[id].order_id;
        self.orders.contains_key(order_id) && self.orders[order_id].shipping_manifest == Some(id)
    }

    /// Orders and manifests go together: an order that was shipped names its
    /// manifest, and a manifest belongs to the order that names it. So an
    /// order has one manifest at most, and is shipped and delivered once.
    pub open spec fn shipments_sound(self) -> bool {
        &&& forall|id: UniqueId| #[trigger] self.orders.contains_key(id) ==> self.order_on_path(id)
        &&& forall|id: UniqueId| #[trigger]
            self.shipping_manifests.contains_key(id) ==> self.manifest_bound(id)
    }

    /// What holds of the ledger between any two operations.
    pub open spec fn inv(self) -> bool {
        &&& self.ids_fresh()
        &&& self.parties_sound()
        &&& self.materials_sound()
        &&& self.units_sound()
        &&& self.units_held()
        &&& self.inventories_sound()
        &&& self.orders_sound()
        &&& self.manifests_sound()
        &&& self.shipments_sound()
    }

    /// `identifiers` more identifiers exist, and every history of every unit
    /// can take one more record. This is more room than any one operation
    /// asks for.
    pub open spec fn has_room(self, identifiers: int) -> bool {
        &&& self.next_id + identifiers <= u64::MAX
        &&& forall|id: UniqueId| #[trigger]
            self.raw_material_units.contains_key(id) ==> {
                &&& self.raw_material_units[id].owners.len() <= u32::MAX
                &&& self.raw_material_units[id].custodians.len() <= u32::MAX
                &&& self.raw_material_units[id].locations.len() <= u32::MAX
            }
    }

    /// The owner history of each unit that `ids` names can take one more
    /// record.
    pub open spec fn owners_room(self, ids: Seq<UniqueId>) -> bool {
        forall|i: int|
            0 <= i < ids.len() && self.raw_material_units.contains_key(#[trigger] ids[i])
                ==> self.raw_material_units[ids[i]].owners.len() <= u32::MAX
    }

    /// The custodian history of each unit that `ids` names can take one more
    /// record.
    pub open spec fn custodians_room(self, ids: Seq<UniqueId>) -> bool {
        forall|i: int|
            0 <= i < ids.len() && self.raw_material_units.contains_key(#[trigger] ids[i])
                ==> self.raw_material_units[ids[i]].custodians.len() <= u32::MAX
    }

    /// The location history of each unit that `ids` names can take one more
    /// record.
    pub open spec fn locations_room(self, ids: Seq<UniqueId>) -> bool {
        forall|i: int|
            0 <= i < ids.len() && self.raw_material_units.contains_key(#[trigger] ids[i])
                ==> self.raw_material_units[ids[i]].locations.len() <= u32::MAX
    }
}

impl Pallet {
    /// An empty ledger at time 0.
    pub fn new() -> (ledger: Self)
        ensures
            ledger@ == empty_ledger(),
            ledger@.inv(),
    {
        let ledger = Pallet {
            manufacturers: BTreeMap::new(),
            suppliers: BTreeMap::new(),
            shipping_agents: BTreeMap::new(),
            raw_materials: BTreeMap::new(),
            raw_material_units: BTreeMap::new(),
            orders: BTreeMap::new(),
            shipping_manifests: BTreeMap::new(),
            next_id: 0,
            block_number: 0,
        };
        assert(ledger@.manufacturers =~= Map::empty());
        assert(ledger@.suppliers =~= Map::empty());
        assert(ledger@.shipping_agents =~= Map::empty());
        assert(ledger@.raw_materials =~= Map::empty());
        assert(ledger@.raw_material_units =~= Map::empty());
        assert(ledger@.orders =~= Map::empty());
        assert(ledger@.shipping_manifests =~= Map::empty());
        ledger
    }

    /// Hands out an identifier that is not in use and never was.
    pub fn generate_unique_id(&mut self) -> (id: UniqueId)
        requires
            old(self)@.next_id < u64::MAX,
        ensures
            id == old(self)@.next_id,
            final(self)@ == (PalletView { next_id: (id + 1) as u64, ..old(self)@ }),
            old(self)@.inv() ==> final(self)@.inv(),
    {
        let id: UniqueId = self.next_id;
        self.next_id = id + 1;
        id
    }

    /// The time that operations record.
    pub fn get_current_block_number(&self) -> (now: u32)
        ensures
            now == self@.block_number,
    {
        self.block_number
    }

    /// Sets the time that the operations after this one record.
    pub fn set_block_number(&mut self, now: u32)
        ensures
            final(self)@ == (PalletView { block_number: now, ..old(self)@ }),
            old(self)@.inv() ==> final(self)@.inv(),
    {
        self.block_number = now;
    }

    /// The supplier registered under `account`.
    pub fn supplier(&self, account: &AccountId) -> (found: Option<&Supplier>)
        ensures
            match found {
                Some(supplier) => self@.suppliers.contains_key(*account) && supplier@
                    == self@.suppliers[*account],
                None => !self@.suppliers.contains_key(*account),
            },
    {
        self.suppliers.get(account)
    }

    /// The shipping agent registered under `account`.
    pub fn shipping_agent(&self, account: &AccountId) -> (found: Option<&ShippingAgent>)
        ensures
            match found {
                Some(agent) => self@.shipping_agents.contains_key(*account) && agent@
                    == self@.shipping_agents[*account],
                None => !self@.shipping_agents.contains_key(*account),
            },
    {
        self.shipping_agents.get(account)
    }

    /// The material `id` with its shipping roster.
    pub fn raw_material(&self, id: &UniqueId) -> (found: Option<
        &(RawMaterial, RawMaterialShipping),
    >)
        ensures
            match found {
                Some(material) => self@.raw_materials.contains_key(*id) && material@
                    == self@.raw_materials[*id],
                None => !self@.raw_materials.contains_key(*id),
            },
    {
        self.raw_materials.get(id)
    }

    /// The unit `id`.
    pub fn raw_material_unit(&self, id: &UniqueId) -> (found: Option<&RawMaterialUnit>)
        ensures
            match found {
                Some(unit) => self@.raw_material_units.contains_key(*id) && unit@
                    == self@.raw_material_units[*id],
                None => !self@.raw_material_units.contains_key(*id),
            },
    {
        self.raw_material_units.get(id)
    }

    /// The order `id`.
    pub fn order(&self, id: &UniqueId) -> (found: Option<&Order>)
        ensures
            match found {
                Some(order) => self@.orders.contains_key(*id) && order@ == self@.orders[*id],
                None => !self@.orders.contains_key(*id),
            },
    {
        self.orders.get(id)
    }

    /// The manifest `id`.
    pub fn shipping_manifest(&self, id: &UniqueId) -> (found: Option<&ShippingManifest>)
        ensures
            match found {
                Some(manifest) => self@.shipping_manifests.contains_key(*id) && manifest@
                    == self@.shipping_manifests[*id],
                None => !self@.shipping_manifests.contains_key(*id),
            },
    {
        self.shipping_manifests.get(id)
    }
}

/// Appends the record that `input` carries to its history of the unit `id`
/// at time `now`.
pub fn append_to_unit(
    units: &mut BTreeMap<UniqueId, RawMaterialUnit>,
    id: UniqueId,
    input: ProprietaryDataInput,
    now: u32,
)
    requires
        old(units)@.contains_key(id),
        old(units)@[id]@.can_update(input@),
    ensures
        views(final(units)@) == views(old(units)@).insert(
            id,
            views(old(units)@)[id].updated(input@, now),
        ),
{
    match units.remove(&id) {
        Some(unit) => {
            let mut unit = unit;
            unit.update_proprietary_data(input, now);
            units.insert(id, unit);
        },
        None => {},
    }
    assert(views(units@) =~= views(old(units)@).insert(
        id,
        views(old(units)@)[id].updated(input@, now),
    ));
}

} // verus!
