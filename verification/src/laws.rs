//! What holds of the ledger whatever is done with it.

use vstd::prelude::*;
use crate::access::{AccessLevel, ProprietaryData};
use crate::history::is_active;
use crate::event::Error;
use crate::ledger::{empty_ledger, PalletView};
use crate::order::OrderStatus;
use crate::queries::{lemma_access_level_set_inv, reported};
use crate::record::{
    project, ProprietaryDataInputView, ProprietaryDataResultView, RecordView,
};
use crate::registry::{new_agent, new_holder};
use crate::transitions::{
    lemma_location_updated_inv, lemma_material_registered_inv, lemma_purchased_inv,
    lemma_shipment_completed_inv, lemma_shipment_created_inv,
};
use crate::types::{AccountId, CoordinatesView, UniqueId};
use crate::unit::RawMaterialUnitView;

verus! {

/// An operation that changes the ledger, with its arguments.
pub enum Operation {
    RegisterManufacturer {
        origin: AccountId,
        company_name: Seq<u8>,
        ceritification_authority: Seq<u8>,
        ceritification_number: Seq<u8>,
    },
    RegisterSupplier {
        origin: AccountId,
        company_name: Seq<u8>,
        ceritification_authority: Seq<u8>,
        ceritification_number: Seq<u8>,
    },
    RegisterShippingAgent {
        origin: AccountId,
        company_name: Seq<u8>,
        ceritification_authority: Seq<u8>,
        ceritification_number: Seq<u8>,
        pickup_locations: Seq<CoordinatesView>,
        delivery_locations: Seq<CoordinatesView>,
    },
    RegisterRawMaterial {
        origin: AccountId,
        name: Seq<u8>,
        price: u32,
        quantity: u32,
        location: CoordinatesView,
        shipping_agents: Seq<AccountId>,
    },
    OrderRawMaterial {
        origin: AccountId,
        material_id: UniqueId,
        supplier_id: AccountId,
        quantity: u32,
        shipping_agent_id: AccountId,
        shipping_destination: CoordinatesView,
    },
    CreateShipment { origin: AccountId, order_id: UniqueId },
    UpdateShippingLocation { origin: AccountId, manifest_id: UniqueId, location: CoordinatesView },
    CompleteShipment {
        origin: AccountId,
        manifest_id: UniqueId,
        location: CoordinatesView,
        delivery_token: UniqueId,
    },
    SetAccessLevel {
        origin: AccountId,
        material_unit_id: UniqueId,
        access_level: AccessLevel,
        proprietary_data: Seq<u8>,
        index: u32,
    },
    SetBlockNumber { now: u32 },
}

impl PalletView {
    /// The ledger is within the limits that the operation asks for: the
    /// identifiers it hands out exist, and the histories it extends can take
    /// one more record.
    pub open spec fn admits(self, op: Operation) -> bool {
        match op {
            Operation::RegisterRawMaterial { quantity, .. } => self.next_id + quantity + 1
                <= u64::MAX,
            Operation::OrderRawMaterial {
                origin,
                material_id,
                supplier_id,
                quantity,
                shipping_agent_id,
                shipping_destination,
            } => {
                &&& self.next_id + 2 <= u64::MAX
                &&& self.purchase_error(
                    origin,
                    material_id,
                    supplier_id,
                    quantity,
                    shipping_agent_id,
                    shipping_destination,
                ) is None ==> self.owners_room(self.units_sold(supplier_id, material_id, quantity))
            },
            Operation::CreateShipment { origin, order_id } => {
                self.shipment_error(origin, order_id) is None ==> {
                    &&& self.next_id < u64::MAX
                    &&& self.custodians_room(self.orders[order_id].raw_material_units)
                }
            },
            Operation::UpdateShippingLocation { origin, manifest_id, location } => {
                self.location_error(origin, manifest_id) is None ==> self.locations_room(
                    self.shipping_manifests[manifest_id].raw_material_units,
                )
            },
            Operation::CompleteShipment { origin, manifest_id, location, delivery_token } => {
                self.completion_error(origin, manifest_id, location, delivery_token) is None ==> {
                    &&& self.locations_room(
                        self.shipping_manifests[manifest_id].raw_material_units,
                    )
                    &&& self.custodians_room(
                        self.shipping_manifests[manifest_id].raw_material_units,
                    )
                }
            },
            _ => true,
        }
    }

    /// The ledger after the operation: changed as the operation says where
    /// it goes through, and as it was where it is refused.
    pub open spec fn after(self, op: Operation) -> PalletView {
        match op {
            Operation::RegisterManufacturer {
                origin,
                company_name,
                ceritification_authority,
                ceritification_number,
            } => if self.manufacturers.contains_key(origin) {
                self
            } else {
                PalletView {
                    manufacturers: self.manufacturers.insert(
                        origin,
                        new_holder(
                            origin,
                            company_name,
                            ceritification_authority,
                            ceritification_number,
                        ),
                    ),
                    ..self
                }
            },
            Operation::RegisterSupplier {
                origin,
                company_name,
                ceritification_authority,
                ceritification_number,
            } => if self.suppliers.contains_key(origin) {
                self
            } else {
                PalletView {
                    suppliers: self.suppliers.insert(
                        origin,
                        new_holder(
                            origin,
                            company_name,
                            ceritification_authority,
                            ceritification_number,
                        ),
                    ),
                    ..self
                }
            },
            Operation::RegisterShippingAgent {
                origin,
                company_name,
                ceritification_authority,
                ceritification_number,
                pickup_locations,
                delivery_locations,
            } => if self.shipping_agents.contains_key(origin) {
                self
            } else {
                PalletView {
                    shipping_agents: self.shipping_agents.insert(
                        origin,
                        new_agent(
                            origin,
                            company_name,
                            ceritification_authority,
                            ceritification_number,
                            pickup_locations,
                            delivery_locations,
                        ),
                    ),
                    ..self
                }
            },
            Operation::RegisterRawMaterial {
                origin,
                name,
                price,
                quantity,
                location,
                shipping_agents,
            } => if self.registration_error(origin, location, shipping_agents) is None {
                self.material_registered(origin, name, price, quantity, location, shipping_agents)
            } else {
                self
            },
            Operation::OrderRawMaterial {
                origin,
                material_id,
                supplier_id,
                quantity,
                shipping_agent_id,
                shipping_destination,
            } => if self.purchase_error(
                origin,
                material_id,
                supplier_id,
                quantity,
                shipping_agent_id,
                shipping_destination,
            ) is None {
                self.purchased(
                    origin,
                    material_id,
                    supplier_id,
                    quantity,
                    shipping_agent_id,
                    shipping_destination,
                )
            } else {
                self
            },
            Operation::CreateShipment { origin, order_id } => if self.shipment_error(
                origin,
                order_id,
            ) is None {
                self.shipment_created(origin, order_id)
            } else {
                self
            },
            Operation::UpdateShippingLocation {
                origin,
                manifest_id,
                location,
            } => if self.location_error(origin, manifest_id) is None {
                self.location_updated(manifest_id, location)
            } else {
                self
            },
            Operation::CompleteShipment {
                origin,
                manifest_id,
                location,
                delivery_token,
            } => if self.completion_error(origin, manifest_id, location, delivery_token)
                is None {
                self.shipment_completed(manifest_id, location)
            } else {
                self
            },
            Operation::SetAccessLevel {
                origin,
                material_unit_id,
                access_level,
                proprietary_data,
                index,
            } => if self.access_level_error(material_unit_id, proprietary_data) is None {
                self.access_level_set(
                    origin,
                    material_unit_id,
                    access_level,
                    proprietary_data,
                    index,
                )
            } else {
                self
            },
            Operation::SetBlockNumber { now } => PalletView { block_number: now, ..self },
        }
    }
}

/// The number of identifiers that an operation hands out at most.
pub open spec fn identifiers_needed(op: Operation) -> int {
    match op {
        Operation::RegisterRawMaterial { quantity, .. } => quantity + 1,
        Operation::OrderRawMaterial { .. } => 2,
        Operation::CreateShipment { .. } => 1,
        _ => 0,
    }
}

/// A ledger that has room for the identifiers that an operation needs, and
/// in every history of every unit, is within the limits that the operation
/// asks for.
pub proof fn law_room_suffices(ledger: PalletView, op: Operation)
    requires
        ledger.has_room(identifiers_needed(op)),
    ensures
        ledger.admits(op),
{
}

/// The ledger after the operations `ops`, one after the other, on an empty
/// ledger.
pub open spec fn run(ops: Seq<Operation>) -> PalletView
    decreases ops.len(),
{
    if ops.len() == 0 {
        empty_ledger()
    } else {
        run(ops.drop_last()).after(ops.last())
    }
}

/// Each of the operations `ops` finds the ledger within the limits that it
/// asks for.
pub open spec fn admitted(ops: Seq<Operation>) -> bool
    decreases ops.len(),
{
    ops.len() == 0 || (admitted(ops.drop_last()) && run(ops.drop_last()).admits(ops.last()))
}

/// An operation keeps what holds of the ledger between operations.
pub proof fn law_operation_keeps_invariant(ledger: PalletView, op: Operation)
    requires
        ledger.inv(),
        ledger.admits(op),
    ensures
        ledger.after(op).inv(),
{
    let post = ledger.after(op);
    match op {
        Operation::RegisterManufacturer { origin, .. } => {
            lemma_actors_kept(ledger, post);
        },
        Operation::RegisterSupplier { origin, .. } => {
            lemma_actors_kept(ledger, post);
        },
        Operation::RegisterShippingAgent { origin, .. } => {
            lemma_actors_kept(ledger, post);
        },
        Operation::RegisterRawMaterial {
            origin,
            name,
            price,
            quantity,
            location,
            shipping_agents,
        } => {
            if ledger.registration_error(origin, location, shipping_agents) is None {
                lemma_material_registered_inv(
                    ledger,
                    origin,
                    name,
                    price,
                    quantity,
                    location,
                    shipping_agents,
                );
            }
        },
        Operation::OrderRawMaterial {
            origin,
            material_id,
            supplier_id,
            quantity,
            shipping_agent_id,
            shipping_destination,
        } => {
            if ledger.purchase_error(
                origin,
                material_id,
                supplier_id,
                quantity,
                shipping_agent_id,
                shipping_destination,
            ) is None {
                lemma_purchased_inv(
                    ledger,
                    origin,
                    material_id,
                    supplier_id,
                    quantity,
                    shipping_agent_id,
                    shipping_destination,
                );
            }
        },
        Operation::CreateShipment { origin, order_id } => {
            if ledger.shipment_error(origin, order_id) is None {
                lemma_shipment_created_inv(ledger, origin, order_id);
            }
        },
        Operation::UpdateShippingLocation { origin, manifest_id, location } => {
            if ledger.location_error(origin, manifest_id) is None {
                lemma_location_updated_inv(ledger, origin, manifest_id, location);
            }
        },
        Operation::CompleteShipment { origin, manifest_id, location, delivery_token } => {
            if ledger.completion_error(origin, manifest_id, location, delivery_token) is None {
                lemma_shipment_completed_inv(ledger, origin, manifest_id, location, delivery_token);
            }
        },
        Operation::SetAccessLevel {
            origin,
            material_unit_id,
            access_level,
            proprietary_data,
            index,
        } => {
            if ledger.access_level_error(material_unit_id, proprietary_data) is None {
                lemma_access_level_set_inv(
                    ledger,
                    origin,
                    material_unit_id,
                    access_level,
                    proprietary_data,
                    index,
                );
            }
        },
        Operation::SetBlockNumber { now } => {
            lemma_actors_kept(ledger, post);
        },
    }
}

/// A new party that holds nothing, or a new time, keeps what holds of the
/// ledger.
pub proof fn lemma_actors_kept(pre: PalletView, post: PalletView)
    requires
        pre.inv(),
        post.raw_material_units == pre.raw_material_units,
        post.raw_materials == pre.raw_materials,
        post.orders == pre.orders,
        post.shipping_manifests == pre.shipping_manifests,
        post.next_id == pre.next_id,
        forall|s: AccountId| #[trigger]
            pre.suppliers.contains_key(s) ==> post.suppliers.contains_key(s) && post.suppliers[s]
                == pre.suppliers[s],
        forall|s: AccountId| #[trigger]
            post.suppliers.contains_key(s) && !pre.suppliers.contains_key(s)
                ==> post.suppliers[s].material_manager == Map::<UniqueId, Seq<UniqueId>>::empty()
                && post.suppliers[s].actor.account == s,
        forall|a: AccountId| #[trigger]
            pre.manufacturers.contains_key(a) ==> post.manufacturers.contains_key(a)
                && post.manufacturers[a] == pre.manufacturers[a],
        forall|a: AccountId| #[trigger]
            post.manufacturers.contains_key(a) && !pre.manufacturers.contains_key(a)
                ==> post.manufacturers[a].material_manager == Map::<
                UniqueId,
                Seq<UniqueId>,
            >::empty() && post.manufacturers[a].actor.account == a,
        forall|a: AccountId| #[trigger]
            post.shipping_agents.contains_key(a) ==> post.shipping_agents[a].actor.account == a,
    ensures
        post.inv(),
{
    assert forall|s: AccountId| #[trigger] post.suppliers.contains_key(s) implies post.stock_sound(
        s,
        post.suppliers[s].material_manager,
        0,
    ) by {
        if pre.suppliers.contains_key(s) {
            assert(pre.stock_sound(s, pre.suppliers[s].material_manager, 0));
        }
    }
    assert forall|a: AccountId| #[trigger]
        post.manufacturers.contains_key(a) implies post.stock_sound(
        a,
        post.manufacturers[a].material_manager,
        1,
    ) by {
        if pre.manufacturers.contains_key(a) {
            assert(pre.stock_sound(a, pre.manufacturers[a].material_manager, 1));
        }
    }
    assert forall|a: AccountId| #[trigger]
        post.suppliers.contains_key(a) implies post.suppliers[a].actor.account == a by {
        if pre.suppliers.contains_key(a) {
        }
    }
    assert forall|a: AccountId| #[trigger]
        post.manufacturers.contains_key(a) implies post.manufacturers[a].actor.account == a by {
        if pre.manufacturers.contains_key(a) {
        }
    }
}

/// After any sequence of operations, each within its limits, the ledger is
/// sound: identifiers are fresh, units well-formed, and inventories, orders
/// and manifests follow the units.
pub proof fn law_invariant_after_any_operations(ops: Seq<Operation>)
    requires
        admitted(ops),
    ensures
        run(ops).inv(),
    decreases ops.len(),
{
    if ops.len() > 0 {
        law_invariant_after_any_operations(ops.drop_last());
        law_operation_keeps_invariant(run(ops.drop_last()), ops.last());
    }
}

/// The path of an order: in a sound ledger the status history of an order
/// is a beginning of `Confirmed`, `InProgress`, `Completed`, and the order
/// names a manifest exactly when its current status is `InProgress` or
/// `Completed`.
pub proof fn law_order_path(ledger: PalletView, order_id: UniqueId)
    requires
        ledger.inv(),
        ledger.orders.contains_key(order_id),
    ensures
        ledger.orders[order_id].on_path(),
        ledger.orders[order_id].shipping_manifest is Some <==> (
        ledger.orders[order_id].current_status() == Some(OrderStatus::InProgress)
            || ledger.orders[order_id].current_status() == Some(OrderStatus::Completed)),
        ledger.orders[order_id].shipping_manifest is None
            <==> ledger.orders[order_id].awaits_shipment(),
{
    assert(ledger.order_on_path(order_id));
}

/// One manifest for an order: two manifests of a sound ledger that serve
/// the same order are the same manifest, and the order names it.
pub proof fn law_one_manifest_per_order(ledger: PalletView, first: UniqueId, second: UniqueId)
    requires
        ledger.inv(),
        ledger.shipping_manifests.contains_key(first),
        ledger.shipping_manifests.contains_key(second),
        ledger.shipping_manifests[first].order_id == ledger.shipping_manifests[second].order_id,
    ensures
        first == second,
        ledger.orders.contains_key(ledger.shipping_manifests[first].order_id),
        ledger.orders[ledger.shipping_manifests[first].order_id].shipping_manifest == Some(first),
{
    assert(ledger.manifest_bound(first));
    assert(ledger.manifest_bound(second));
}

/// An order is shipped once: for an order that names a manifest, or whose
/// current status is not `Confirmed`, the shipment is refused, whoever asks
/// for it, and the ledger stays as it is.
pub proof fn law_shipped_once(ledger: PalletView, sender: AccountId, order_id: UniqueId)
    requires
        ledger.orders.contains_key(order_id),
        ledger.orders[order_id].shipping_manifest is Some
            || ledger.orders[order_id].current_status() != Some(OrderStatus::Confirmed),
    ensures
        ledger.shipment_error(sender, order_id) == Some(Error::UnathorisedRequest),
        ledger.after(Operation::CreateShipment { origin: sender, order_id }) == ledger,
{
}

/// An order is delivered once: for a shipment whose order is not under way,
/// the delivery is refused, whoever asks for it and whatever the token, and
/// the ledger stays as it is.
pub proof fn law_delivered_once(
    ledger: PalletView,
    sender: AccountId,
    manifest_id: UniqueId,
    location: CoordinatesView,
    delivery_token: UniqueId,
)
    requires
        ledger.shipping_manifests.contains_key(manifest_id),
        ledger.orders.contains_key(ledger.shipping_manifests[manifest_id].order_id),
        !ledger.orders[ledger.shipping_manifests[manifest_id].order_id].is_under_way(),
    ensures
        ledger.completion_error(sender, manifest_id, location, delivery_token) is Some,
        ledger.after(
            Operation::CompleteShipment { origin: sender, manifest_id, location, delivery_token },
        ) == ledger,
{
}

/// Single active record: in each history of a unit of a sound ledger, at
/// most one record has no end time.
pub proof fn law_single_active(ledger: PalletView, unit_id: UniqueId, i: int, j: int)
    requires
        ledger.inv(),
        ledger.raw_material_units.contains_key(unit_id),
    ensures
        ({
            let unit = ledger.raw_material_units[unit_id];
            &&& 0 <= i < unit.owners.len() && 0 <= j < unit.owners.len() && is_active(
                unit.owners[i],
            ) && is_active(unit.owners[j]) ==> i == j
            &&& 0 <= i < unit.custodians.len() && 0 <= j < unit.custodians.len() && is_active(
                unit.custodians[i],
            ) && is_active(unit.custodians[j]) ==> i == j
            &&& 0 <= i < unit.locations.len() && 0 <= j < unit.locations.len() && is_active(
                unit.locations[i],
            ) && is_active(unit.locations[j]) ==> i == j
        }),
{
}

/// Index monotonicity: in each history of a unit of a sound ledger, the
/// record at place i has the index i, counted from 0.
pub proof fn law_index_is_place(ledger: PalletView, unit_id: UniqueId, i: int)
    requires
        ledger.inv(),
        ledger.raw_material_units.contains_key(unit_id),
    ensures
        ({
            let unit = ledger.raw_material_units[unit_id];
            &&& 0 <= i < unit.owners.len() ==> unit.owners[i].data.index == Some(i as u32) && i
                <= u32::MAX
            &&& 0 <= i < unit.custodians.len() ==> unit.custodians[i].data.index == Some(i as u32)
                && i <= u32::MAX
            &&& 0 <= i < unit.locations.len() ==> unit.locations[i].data.index == Some(i as u32)
                && i <= u32::MAX
        }),
{
}

/// A place in an inventory: the actor, as supplier or as manufacturer, the
/// material, and the position in the list of units held of it.
pub struct Holding {
    pub supplier: bool,
    pub account: AccountId,
    pub material: UniqueId,
    pub place: int,
}

impl PalletView {
    /// The inventory that `holding` speaks of.
    pub open spec fn stock_of(self, holding: Holding) -> Map<UniqueId, Seq<UniqueId>> {
        if holding.supplier {
            self.suppliers[holding.account].material_manager
        } else {
            self.manufacturers[holding.account].material_manager
        }
    }

    /// `holding` is a place in an inventory of the ledger.
    pub open spec fn has_holding(self, holding: Holding) -> bool {
        &&& if holding.supplier {
            self.suppliers.contains_key(holding.account)
        } else {
            self.manufacturers.contains_key(holding.account)
        }
        &&& self.stock_of(holding).contains_key(holding.material)
        &&& 0 <= holding.place < self.stock_of(holding)[holding.material].len()
    }

    /// The unit at the place `holding`.
    pub open spec fn unit_at(self, holding: Holding) -> UniqueId {
        self.stock_of(holding)[holding.material][holding.place]
    }
}

/// No unit is in two inventories, nor twice in one: two places of a sound
/// ledger that hold the same unit are the same place. The unit is held by
/// its owner, under its material, and is one of the units minted for it.
pub proof fn law_unit_held_once(ledger: PalletView, first: Holding, second: Holding)
    requires
        ledger.inv(),
        ledger.has_holding(first),
        ledger.has_holding(second),
        ledger.unit_at(first) == ledger.unit_at(second),
    ensures
        first == second,
        ledger.raw_material_units.contains_key(ledger.unit_at(first)),
        ledger.raw_material_units[ledger.unit_at(first)].current_owner() == Some(first.account),
        ledger.raw_material_units[ledger.unit_at(first)].material_id == first.material,
        ledger.raw_materials.contains_key(first.material),
        ledger.raw_materials[first.material].0.units.contains(ledger.unit_at(first)),
{
    let u = ledger.unit_at(first);
    if first.supplier {
        assert(ledger.stock_sound(first.account, ledger.stock_of(first), 0));
    } else {
        assert(ledger.stock_sound(first.account, ledger.stock_of(first), 1));
    }
    if second.supplier {
        assert(ledger.stock_sound(second.account, ledger.stock_of(second), 0));
    } else {
        assert(ledger.stock_sound(second.account, ledger.stock_of(second), 1));
    }
    let list_first = ledger.stock_of(first)[first.material];
    let list_second = ledger.stock_of(second)[second.material];
    assert(list_first[first.place] == u);
    assert(list_second[second.place] == u);
    assert(ledger.raw_material_units[u].owners.len() == if first.supplier {
        1int
    } else {
        2int
    });
    assert(first.supplier == second.supplier);
    assert(first.account == second.account);
    assert(first.material == second.material);
    assert(list_first.no_duplicates());
    assert(first.place == second.place);
}

/// Every unit of a sound ledger is in an inventory: in that of its owner,
/// under its material. With `law_unit_held_once`, it is in exactly one
/// place.
pub proof fn law_unit_is_held(ledger: PalletView, unit_id: UniqueId) -> (place: Holding)
    requires
        ledger.inv(),
        ledger.raw_material_units.contains_key(unit_id),
    ensures
        ledger.has_holding(place),
        ledger.unit_at(place) == unit_id,
        ledger.raw_material_units[unit_id].current_owner() == Some(place.account),
        ledger.raw_material_units[unit_id].material_id == place.material,
{
    let unit = ledger.raw_material_units[unit_id];
    let owner = unit.current_owner()->0;
    let list = if unit.owners.len() == 1 {
        ledger.suppliers[owner].material_manager[unit.material_id]
    } else {
        ledger.manufacturers[owner].material_manager[unit.material_id]
    };
    let at = choose|i: int| 0 <= i < list.len() && list[i] == unit_id;
    Holding {
        supplier: unit.owners.len() == 1,
        account: owner,
        material: unit.material_id,
        place: at,
    }
}

/// Every unit minted for a material of a sound ledger is in an inventory,
/// under that material: no unit is lost.
pub proof fn law_minted_unit_is_held(ledger: PalletView, material: UniqueId, i: int) -> (place:
    Holding)
    requires
        ledger.inv(),
        ledger.raw_materials.contains_key(material),
        0 <= i < ledger.raw_materials[material].0.units.len(),
    ensures
        ledger.has_holding(place),
        place.material == material,
        ledger.unit_at(place) == ledger.raw_materials[material].0.units[i],
{
    let unit_id = ledger.raw_materials[material].0.units[i];
    assert(ledger.raw_material_units.contains_key(unit_id));
    law_unit_is_held(ledger, unit_id)
}

/// An order takes no unit out of the inventories: every unit that an order
/// of a sound ledger names, whether the order is under way or completed, is
/// in the inventory of its owner. So the units in the inventories are all
/// the units there are.
pub proof fn law_order_units_are_held(ledger: PalletView, order_id: UniqueId, i: int) -> (place:
    Holding)
    requires
        ledger.inv(),
        ledger.orders.contains_key(order_id),
        0 <= i < ledger.orders[order_id].raw_material_units.len(),
    ensures
        ledger.has_holding(place),
        ledger.unit_at(place) == ledger.orders[order_id].raw_material_units[i],
{
    let unit_id = ledger.orders[order_id].raw_material_units[i];
    assert(ledger.raw_material_units.contains_key(unit_id));
    law_unit_is_held(ledger, unit_id)
}

/// Conservation of inventory: however many places in the inventories of a
/// sound ledger hold units of one material, across all actors, they are not
/// more than the units minted for that material.
pub proof fn law_conservation(ledger: PalletView, material: UniqueId, places: Seq<Holding>)
    requires
        ledger.inv(),
        places.no_duplicates(),
        forall|i: int|
            0 <= i < places.len() ==> ledger.has_holding(#[trigger] places[i]) && places[i].material
                == material,
    ensures
        places.len() > 0 ==> ledger.raw_materials.contains_key(material),
        ledger.raw_materials.contains_key(material) ==> places.len()
            <= ledger.raw_materials[material].0.units.len(),
{
    if places.len() > 0 {
        law_unit_held_once(ledger, places[0], places[0]);
        let minted = ledger.raw_materials[material].0.units;
        let held = places.map_values(|h: Holding| ledger.unit_at(h));
        assert forall|i: int, j: int| 0 <= i < held.len() && 0 <= j < held.len() && i != j implies held[i]
            != held[j] by {
            if held[i] == held[j] {
                law_unit_held_once(ledger, places[i], places[j]);
            }
        }
        assert(held.no_duplicates());
        assert forall|u: UniqueId| held.to_set().contains(u) implies minted.to_set().contains(u) by {
            let i = choose|i: int| 0 <= i < held.len() && held[i] == u;
            law_unit_held_once(ledger, places[i], places[i]);
        }
        held.unique_seq_to_set();
        minted.lemma_cardinality_of_set();
        vstd::set_lib::lemma_len_subset(held.to_set(), minted.to_set());
    }
}

/// Visibility: a record that only the owner may see is never disclosed to a
/// requester with the standing of a custodian or of anyone, and a record
/// that everyone may see is disclosed to every requester.
pub proof fn law_visibility(
    disclosed: ProprietaryDataResultView,
    data: ProprietaryData,
    requester: AccessLevel,
)
    ensures
        data.visibility == AccessLevel::Owner && requester != AccessLevel::Owner ==> project(
            disclosed,
            data,
            requester,
        ).0 is Restricted,
        data.visibility == AccessLevel::AllUsers ==> project(disclosed, data, requester) == (
            disclosed,
            data.index,
            Some(data.start_time),
            data.end_time,
        ),
{
}

/// Visibility in what is reported of a unit: the row of a record that only
/// the owner may see holds no payload for a requester with the standing of
/// a custodian or of anyone, and the row of a record that everyone may see
/// holds the payload for every requester.
pub proof fn law_visibility_reported<P>(h: Seq<RecordView<P>>, requester: AccessLevel, i: int)
    requires
        0 <= i < h.len(),
    ensures
        reported(h, requester).len() == h.len(),
        h[i].data.visibility == AccessLevel::Owner && requester != AccessLevel::Owner ==> reported(
            h,
            requester,
        )[i].0 is None,
        h[i].data.visibility == AccessLevel::AllUsers ==> reported(h, requester)[i].0 == Some(
            h[i].payload,
        ),
{
}

/// Authorization gate: whoever is not the current owner of a unit changes
/// nothing of it by asking for a visibility, whatever the history and the
/// index, and is told so.
pub proof fn law_authorization_gate(
    unit: RawMaterialUnitView,
    input: ProprietaryDataInputView,
    visibility: AccessLevel,
    actor_id: AccountId,
    index: u32,
)
    requires
        unit.current_owner() != Some(actor_id),
    ensures
        !unit.access_level_found(input, actor_id, index),
        unit.with_access_level(input, visibility, actor_id, index) == unit,
{
}

} // verus!
