//! The workflow: registration of a material, purchase, shipment, location
//! updates and delivery. Each operation checks everything first and changes
//! the ledger only when it goes through.

use std::collections::BTreeMap;
use vstd::prelude::*;
use crate::event::{Error, Event, EventView};
use crate::ledger::{append_to_unit, views, Pallet, PalletView};
use crate::actor::{MaterialHolderView, ShippingAgent};
use crate::inventory::lemma_without_last;
use crate::material::{RawMaterial, RawMaterialShipping, RawMaterialView};
use crate::order::{Order, OrderStatus, ShippingManifest};
use crate::record::{Custodian, Location, Owner, ProprietaryDataInput};
use crate::transitions::{
    eligible, lemma_location_updated_inv, lemma_material_registered_inv, lemma_purchased_inv,
    lemma_seeding, lemma_shipment_completed_inv, lemma_shipment_created_inv,
    lemma_unit_can_update, lemma_units_sold, minted, seeded_unit, stock_gained, stock_lost,
    units_minted, units_ready, units_updated,
};
use crate::types::{clone_coordinates, AccountId, Coordinates, UniqueId};
use crate::unit::RawMaterialUnit;

verus! {

/// Appends the record that `input` carries, at time `now`, to its history of
/// each unit that `ids` names.
pub fn update_units(
    units: &mut BTreeMap<UniqueId, RawMaterialUnit>,
    ids: &Vec<UniqueId>,
    input: &ProprietaryDataInput,
    now: u32,
)
    requires
        ids@.no_duplicates(),
        units_ready(views(old(units)@), ids@, input@),
    ensures
        views(final(units)@) == units_updated(views(old(units)@), ids@, input@, now),
{
    let ghost before = views(units@);
    let mut i: usize = 0;
    assert(views(units@) =~= units_updated(before, ids@.take(0), input@, now));
    while i < ids.len()
        invariant
            i <= ids.len(),
            ids@.no_duplicates(),
            units_ready(before, ids@, input@),
            views(units@) == units_updated(before, ids@.take(i as int), input@, now),
        decreases ids.len() - i,
    {
        let id = ids[i];
        proof {
            assert(before.contains_key(ids@[i as int]));
            assert(!ids@.take(i as int).contains(id));
            assert(views(units@)[id] == before[id]);
            assert(views(units@).contains_key(id));
            assert(units@.contains_key(id));
            lemma_unit_can_update(before[id], input@);
        }
        append_to_unit(units, id, input.clone(), now);
        proof {
            let done = ids@.take(i as int);
            let next = ids@.take(i + 1);
            assert forall|k: UniqueId| next.contains(k) <==> (done.contains(k) || k == id) by {
                if next.contains(k) {
                    let j = choose|j: int| 0 <= j < next.len() && next[j] == k;
                    if j < i {
                        assert(done[j] == k);
                    }
                }
                if done.contains(k) {
                    let j = choose|j: int| 0 <= j < done.len() && done[j] == k;
                    assert(next[j] == k);
                }
                assert(next[i as int] == id);
            }
            assert(views(units@) =~= units_updated(before, next, input@, now));
        }
        i += 1;
    }
    assert(ids@.take(i as int) =~= ids@);
}

/// Those of `candidates` that are registered in `agents` and pick up at
/// `location`, in the order in which they are named.
pub fn eligible_shipping_agents(
    agents: &BTreeMap<AccountId, ShippingAgent>,
    location: &Coordinates,
    candidates: &Vec<AccountId>,
) -> (chosen: Vec<AccountId>)
    ensures
        chosen@ == eligible(views(agents@), location@, candidates@),
{
    let mut chosen: Vec<AccountId> = Vec::new();
    let mut i: usize = 0;
    assert(candidates@.take(0) =~= Seq::empty());
    reveal(Seq::filter);
    while i < candidates.len()
        invariant
            i <= candidates.len(),
            chosen@ == eligible(views(agents@), location@, candidates@.take(i as int)),
        decreases candidates.len() - i,
    {
        proof {
            let next = candidates@.take(i + 1);
            assert(next.drop_last() =~= candidates@.take(i as int));
            assert(next.last() == candidates@[i as int]);
            reveal(Seq::filter);
        }
        let agent = candidates[i];
        match agents.get(&agent) {
            Some(agent_data) => {
                if agent_data.can_pickup_from(location) {
                    chosen.push(agent);
                }
            },
            None => {},
        }
        i += 1;
    }
    assert(candidates@.take(i as int) =~= candidates@);
    chosen
}

impl Pallet {
    /// A supplier registers a raw material and mints `quantity` units of it
    /// at `location`. Of the shipping agents named, those that pick up at
    /// `location` form the material's roster. Gives the material's
    /// identifier.
    pub fn register_raw_material(
        &mut self,
        origin: AccountId,
        name: Vec<u8>,
        price: u32,
        quantity: u32,
        location: Coordinates,
        shipping_agents: Vec<AccountId>,
    ) -> (res: Result<UniqueId, Error>)
        requires
            old(self)@.next_id + quantity + 1 <= u64::MAX,
        ensures
            match res {
                Ok(material_id) => {
                    &&& old(self)@.registration_error(origin, location@, shipping_agents@)
                        is None
                    &&& material_id == old(self)@.next_id
                    &&& final(self)@ == old(self)@.material_registered(
                        origin,
                        name@,
                        price,
                        quantity,
                        location@,
                        shipping_agents@,
                    )
                },
                Err(error) => {
                    &&& old(self)@.registration_error(origin, location@, shipping_agents@)
                        == Some(error)
                    &&& final(self)@ == old(self)@
                },
            },
            old(self)@.inv() ==> final(self)@.inv(),
    {
        let now = self.get_current_block_number();
        if !self.suppliers.contains_key(&origin) {
            return Err(Error::UnathorisedRequest);
        }
        let roster = eligible_shipping_agents(&self.shipping_agents, &location, &shipping_agents);
        if roster.len() == 0 {
            return Err(Error::InvalidShippingAgents);
        }
        let ghost pre = self@;
        proof {
            if pre.inv() {
                lemma_material_registered_inv(
                    pre,
                    origin,
                    name@,
                    price,
                    quantity,
                    location@,
                    shipping_agents@,
                );
            }
        }
        let material_id = self.generate_unique_id();
        let mut raw_material = RawMaterial::new(material_id, name, price);
        let ghost first = (material_id + 1) as u64;
        let mut i: u32 = 0;
        proof {
            assert(self@.raw_material_units =~= units_minted(
                pre.raw_material_units,
                first,
                0,
                material_id,
                origin,
                location@,
                now,
            ));
            assert(raw_material@.units =~= minted(first, 0));
        }
        while i < quantity
            invariant
                i <= quantity,
                material_id == pre.next_id,
                first == material_id + 1,
                now == pre.block_number,
                material_id + 1 + quantity <= u64::MAX,
                self@ == (PalletView {
                    raw_material_units: units_minted(
                        pre.raw_material_units,
                        first,
                        i as int,
                        material_id,
                        origin,
                        location@,
                        now,
                    ),
                    next_id: (first + i) as u64,
                    ..pre
                }),
                raw_material@ == (RawMaterialView {
                    material_id,
                    name: name@,
                    price,
                    units: minted(first, i as int),
                }),
            decreases quantity - i,
        {
            let ghost units_before = self@.raw_material_units;
            let unit_id = self.generate_unique_id();
            let mut raw_material_unit = RawMaterialUnit::new(unit_id, material_id);
            proof {
                lemma_seeding(unit_id, material_id, origin, location@, now);
            }
            raw_material_unit.update_proprietary_data(
                ProprietaryDataInput::Owner(Some(Owner::new(origin, now))),
                now,
            );
            raw_material_unit.update_proprietary_data(
                ProprietaryDataInput::Custodian(Some(Custodian::new(origin, now))),
                now,
            );
            raw_material_unit.update_proprietary_data(
                ProprietaryDataInput::Location(
                    Some(Location::new(location.0.clone(), location.1.clone(), now)),
                ),
                now,
            );
            let mut one: Vec<UniqueId> = Vec::new();
            one.push(unit_id);
            raw_material.add_units(one);
            self.raw_material_units.insert(unit_id, raw_material_unit);
            proof {
                assert(one@ =~= seq![unit_id]);
                assert(raw_material@.units =~= minted(first, i + 1));
                assert(raw_material_unit@ == seeded_unit(
                    unit_id,
                    material_id,
                    origin,
                    location@,
                    now,
                ));
                assert(self@.raw_material_units =~= units_before.insert(
                    unit_id,
                    raw_material_unit@,
                ));
                assert(self@.raw_material_units =~= units_minted(
                    pre.raw_material_units,
                    first,
                    i + 1,
                    material_id,
                    origin,
                    location@,
                    now,
                ));
            }
            i += 1;
        }
        let mut supplier = self.suppliers.remove(&origin).unwrap();
        supplier.material_manager.add_units_to_raw_material(material_id, raw_material.get_units());
        self.suppliers.insert(origin, supplier);
        let raw_material_shipping = RawMaterialShipping::new(location, roster);
        self.raw_materials.insert(material_id, (raw_material, raw_material_shipping));
        proof {
            let post = pre.material_registered(
                origin,
                name@,
                price,
                quantity,
                location@,
                shipping_agents@,
            );
            assert(views(self.suppliers@) =~= pre.suppliers.remove(origin).insert(
                origin,
                supplier@,
            ));
            assert(supplier@ == post.suppliers[origin]);
            assert(self@.suppliers =~= post.suppliers);
            assert(self@.raw_materials =~= post.raw_materials);
        }
        Ok(material_id)
    }

    /// A manufacturer buys `quantity` units of a material from a supplier,
    /// to be shipped by `shipping_agent_id` to `shipping_destination`. The
    /// units change their owner at once and stay in the supplier's custody.
    pub fn order_raw_material(
        &mut self,
        origin: AccountId,
        material_id: UniqueId,
        supplier_id: AccountId,
        quantity: u32,
        shipping_agent_id: AccountId,
        shipping_destination: Coordinates,
    ) -> (res: Result<Event, Error>)
        requires
            old(self)@.inv(),
            old(self)@.next_id + 2 <= u64::MAX,
            old(self)@.purchase_error(
                origin,
                material_id,
                supplier_id,
                quantity,
                shipping_agent_id,
                shipping_destination@,
            ) is None ==> old(self)@.owners_room(
                old(self)@.units_sold(supplier_id, material_id, quantity),
            ),
        ensures
            match res {
                Ok(event) => {
                    &&& old(self)@.purchase_error(
                        origin,
                        material_id,
                        supplier_id,
                        quantity,
                        shipping_agent_id,
                        shipping_destination@,
                    ) is None
                    &&& final(self)@ == old(self)@.purchased(
                        origin,
                        material_id,
                        supplier_id,
                        quantity,
                        shipping_agent_id,
                        shipping_destination@,
                    )
                    &&& event@ == (EventView::OrderCreated {
                        order_id: old(self)@.next_id,
                        supplier: supplier_id,
                        manufacturer: origin,
                        material_id,
                        raw_material_units: old(self)@.units_sold(
                            supplier_id,
                            material_id,
                            quantity,
                        ),
                        shipping_agent: shipping_agent_id,
                        status: OrderStatus::Confirmed,
                    })
                },
                Err(error) => {
                    &&& old(self)@.purchase_error(
                        origin,
                        material_id,
                        supplier_id,
                        quantity,
                        shipping_agent_id,
                        shipping_destination@,
                    ) == Some(error)
                    &&& final(self)@ == old(self)@
                },
            },
            final(self)@.inv(),
    {
        let now = self.get_current_block_number();
        if !self.manufacturers.contains_key(&origin) {
            return Err(Error::UnathorisedRequest);
        }
        match self.suppliers.get(&supplier_id) {
            Some(supplier) => {
                if !supplier.material_manager.has_material_in_inventory(&material_id, quantity) {
                    return Err(Error::InsufficientUnits);
                }
            },
            None => {
                return Err(Error::ResourceDoesNotExist);
            },
        }
        match self.raw_materials.get(&material_id) {
            Some(material) => {
                if !material.1.has_shipping_agent(&shipping_agent_id) {
                    return Err(Error::UnsupportedShippingAgent);
                }
                match self.shipping_agents.get(&shipping_agent_id) {
                    Some(shipping_agent) => {
                        let pickup_location = material.1.get_pickup_location();
                        if !shipping_agent.can_ship(&pickup_location, &shipping_destination) {
                            return Err(Error::UnsupportedShippingAgent);
                        }
                    },
                    None => {
                        return Err(Error::ResourceDoesNotExist);
                    },
                }
            },
            None => {
                return Err(Error::ResourceDoesNotExist);
            },
        }
        let ghost pre = self@;
        let ghost held = pre.suppliers[supplier_id].material_manager[material_id];
        let ghost sold = pre.units_sold(supplier_id, material_id, quantity);
        proof {
            lemma_purchased_inv(
                pre,
                origin,
                material_id,
                supplier_id,
                quantity,
                shipping_agent_id,
                shipping_destination@,
            );
            lemma_units_sold(pre, supplier_id, material_id, quantity);
            assert(pre.stock_sound(supplier_id, pre.suppliers[supplier_id].material_manager, 0));
        }
        let mut supplier = self.suppliers.remove(&supplier_id).unwrap();
        let mut manufacturer = self.manufacturers.remove(&origin).unwrap();
        let mut units: Vec<UniqueId> = Vec::new();
        let mut i: u32 = 0;
        proof {
            assert(sold.take(0) =~= Seq::empty());
        }
        while i < quantity
            invariant
                i <= quantity,
                pre.suppliers.contains_key(supplier_id),
                pre.manufacturers.contains_key(origin),
                quantity > 0 ==> quantity <= held.len()
                    && pre.suppliers[supplier_id].material_manager.contains_key(material_id)
                    && held.no_duplicates(),
                sold == pre.units_sold(supplier_id, material_id, quantity),
                held == pre.suppliers[supplier_id].material_manager[material_id],
                supplier@ == (MaterialHolderView {
                    material_manager: stock_lost(
                        pre.suppliers[supplier_id].material_manager,
                        material_id,
                        i as int,
                    ),
                    ..pre.suppliers[supplier_id]
                }),
                manufacturer@ == (MaterialHolderView {
                    material_manager: stock_gained(
                        pre.manufacturers[origin].material_manager,
                        material_id,
                        sold.take(i as int),
                    ),
                    ..pre.manufacturers[origin]
                }),
                units@ == sold.take(i as int),
            decreases quantity - i,
        {
            let ghost rest = held.take(held.len() - i);
            let ghost bought = sold.take(i as int);
            proof {
                assert(held.take(held.len() - 0) =~= held);
                assert(supplier@.material_manager[material_id] == rest);
            }
            let unit_id = supplier.material_manager.get_unit_from_material(&material_id).unwrap();
            assert(unit_id == sold[i as int]);
            units.push(unit_id);
            supplier.material_manager.remove_unit_from_material(&material_id, &unit_id);
            let mut one: Vec<UniqueId> = Vec::new();
            one.push(unit_id);
            manufacturer.material_manager.add_units_to_raw_material(material_id, one);
            proof {
                lemma_without_last(rest);
                assert(rest.drop_last() =~= held.take(held.len() - (i + 1)));
                assert(rest.contains(rest.last()));
                assert(supplier@.material_manager =~= stock_lost(
                    pre.suppliers[supplier_id].material_manager,
                    material_id,
                    i + 1,
                ));
                assert(units@ =~= sold.take(i + 1));
                assert(one@ =~= seq![unit_id]);
                assert(bought + seq![unit_id] =~= sold.take(i + 1));
                let before = pre.manufacturers[origin].material_manager;
                if before.contains_key(material_id) {
                    assert((before[material_id] + bought) + seq![unit_id] =~= before[material_id]
                        + sold.take(i + 1));
                }
                assert(manufacturer@.material_manager =~= stock_gained(
                    before,
                    material_id,
                    sold.take(i + 1),
                ));
            }
            i += 1;
        }
        proof {
            assert(sold.take(quantity as int) =~= sold);
            assert(views(self.manufacturers@) =~= pre.manufacturers.remove(origin));
            assert(views(self.suppliers@) =~= pre.suppliers.remove(supplier_id));
            assert(manufacturer@.material_manager == stock_gained(
                pre.manufacturers[origin].material_manager,
                material_id,
                sold,
            ));
        }
        let owner = ProprietaryDataInput::Owner(Some(Owner::new(origin, now)));
        update_units(&mut self.raw_material_units, &units, &owner, now);
        let order_id = self.generate_unique_id();
        let delivery_token = self.generate_unique_id();
        let order = Order::new(
            order_id,
            supplier_id,
            origin,
            shipping_agent_id,
            material_id,
            units.clone(),
            shipping_destination,
            delivery_token,
            OrderStatus::Confirmed,
        );
        self.manufacturers.insert(origin, manufacturer);
        self.suppliers.insert(supplier_id, supplier);
        self.orders.insert(order_id, order);
        proof {
            let post = pre.purchased(
                origin,
                material_id,
                supplier_id,
                quantity,
                shipping_agent_id,
                shipping_destination@,
            );
            assert(views(self.manufacturers@) =~= pre.manufacturers.remove(origin).insert(
                origin,
                manufacturer@,
            ));
            assert(manufacturer@ == post.manufacturers[origin]);
            assert(self@.manufacturers =~= post.manufacturers);
            assert(views(self.suppliers@) =~= pre.suppliers.remove(supplier_id).insert(
                supplier_id,
                supplier@,
            ));
            assert(supplier@ == post.suppliers[supplier_id]);
            assert(self@.suppliers =~= post.suppliers);
            assert(self@.orders =~= post.orders);
            assert(self@.raw_material_units =~= post.raw_material_units);
        }
        Ok(
            Event::OrderCreated {
                order_id,
                supplier: supplier_id,
                manufacturer: origin,
                material_id,
                raw_material_units: units,
                shipping_agent: shipping_agent_id,
                status: OrderStatus::Confirmed,
            },
        )
    }

    /// The order's shipping agent takes the units of the order over for
    /// shipment. An order is shipped once, from `Confirmed`: for an order
    /// that has been shipped already the request is refused and nothing
    /// changes.
    pub fn create_shipment(&mut self, origin: AccountId, order_id: UniqueId) -> (res: Result<
        Event,
        Error,
    >)
        requires
            old(self)@.inv(),
            old(self)@.shipment_error(origin, order_id) is None ==> {
                &&& old(self)@.next_id < u64::MAX
                &&& old(self)@.custodians_room(old(self)@.orders[order_id].raw_material_units)
            },
        ensures
            match res {
                Ok(event) => {
                    &&& old(self)@.shipment_error(origin, order_id) is None
                    &&& final(self)@ == old(self)@.shipment_created(origin, order_id)
                    &&& event@ == (EventView::OrderShipped {
                        order_id,
                        manifest_id: old(self)@.next_id,
                        shipping_agent: origin,
                        status: OrderStatus::InProgress,
                    })
                },
                Err(error) => {
                    &&& old(self)@.shipment_error(origin, order_id) == Some(error)
                    &&& final(self)@ == old(self)@
                },
            },
            final(self)@.inv(),
    {
        let now = self.get_current_block_number();
        let (material_id, stored_id, units, delivery_location) = match self.orders.get(&order_id) {
            Some(order) => {
                if !order.is_shipping_agent(&origin) {
                    return Err(Error::UnathorisedRequest);
                }
                if !order.awaits_shipment() {
                    return Err(Error::UnathorisedRequest);
                }
                (
                    order.get_material_id(),
                    order.get_id(),
                    order.get_raw_material_units(),
                    order.get_delivery_location(),
                )
            },
            None => {
                return Err(Error::ResourceDoesNotExist);
            },
        };
        if !self.shipping_agents.contains_key(&origin) {
            return Err(Error::ResourceDoesNotExist);
        }
        let pickup_location = match self.raw_materials.get(&material_id) {
            Some(material) => material.1.get_pickup_location(),
            None => {
                return Err(Error::ResourceDoesNotExist);
            },
        };
        proof {
            lemma_shipment_created_inv(self@, origin, order_id);
        }
        let custodian = ProprietaryDataInput::Custodian(Some(Custodian::new(origin, now)));
        update_units(&mut self.raw_material_units, &units, &custodian, now);
        let manifest_id = self.generate_unique_id();
        let shipping_manifest = ShippingManifest::new(
            manifest_id,
            stored_id,
            origin,
            pickup_location,
            delivery_location,
            units,
            OrderStatus::InProgress,
        );
        let mut shipping_agent = self.shipping_agents.remove(&origin).unwrap();
        shipping_agent.add_manifest(manifest_id);
        self.shipping_agents.insert(origin, shipping_agent);
        let mut order = self.orders.remove(&order_id).unwrap();
        order.set_shipping_manifest(manifest_id);
        order.add_status(OrderStatus::InProgress);
        let shipping_agent_id = order.get_shipping_agent();
        self.orders.insert(order_id, order);
        self.shipping_manifests.insert(manifest_id, shipping_manifest);
        proof {
            let post = old(self)@.shipment_created(origin, order_id);
            assert(self@.shipping_agents =~= post.shipping_agents);
            assert(self@.orders =~= post.orders);
            assert(self@.shipping_manifests =~= post.shipping_manifests);
            assert(self@.raw_material_units =~= post.raw_material_units);
            assert(self@.manufacturers =~= post.manufacturers);
            assert(self@.suppliers =~= post.suppliers);
            assert(self@.raw_materials =~= post.raw_materials);
        }
        Ok(
            Event::OrderShipped {
                order_id,
                manifest_id,
                shipping_agent: shipping_agent_id,
                status: OrderStatus::InProgress,
            },
        )
    }

    /// The shipping agent reports where the shipment is now.
    pub fn update_shipping_location(
        &mut self,
        origin: AccountId,
        manifest_id: UniqueId,
        location: Coordinates,
    ) -> (res: Result<Event, Error>)
        requires
            old(self)@.inv(),
            old(self)@.location_error(origin, manifest_id) is None ==> old(self)@.locations_room(
                old(self)@.shipping_manifests[manifest_id].raw_material_units,
            ),
        ensures
            match res {
                Ok(event) => {
                    &&& old(self)@.location_error(origin, manifest_id) is None
                    &&& final(self)@ == old(self)@.location_updated(manifest_id, location@)
                    &&& event@ == (EventView::ShippingLocationUpdated {
                        manifest_id,
                        location: location@,
                        shipping_agent: origin,
                    })
                },
                Err(error) => {
                    &&& old(self)@.location_error(origin, manifest_id) == Some(error)
                    &&& final(self)@ == old(self)@
                },
            },
            final(self)@.inv(),
    {
        let now = self.get_current_block_number();
        let units = match self.shipping_manifests.get(&manifest_id) {
            Some(shipping_manifest) => {
                if !shipping_manifest.is_shipping_agent(&origin) {
                    return Err(Error::UnathorisedRequest);
                }
                shipping_manifest.get_raw_material_units()
            },
            None => {
                return Err(Error::ResourceDoesNotExist);
            },
        };
        proof {
            lemma_location_updated_inv(self@, origin, manifest_id, location@);
        }
        let mut shipping_manifest = self.shipping_manifests.remove(&manifest_id).unwrap();
        shipping_manifest.add_route_history(clone_coordinates(&location), &origin);
        self.shipping_manifests.insert(manifest_id, shipping_manifest);
        let moved = ProprietaryDataInput::Location(
            Some(Location::new(location.0.clone(), location.1.clone(), now)),
        );
        update_units(&mut self.raw_material_units, &units, &moved, now);
        proof {
            let post = old(self)@.location_updated(manifest_id, location@);
            assert(self@.shipping_manifests =~= post.shipping_manifests);
            assert(self@.raw_material_units =~= post.raw_material_units);
        }
        Ok(Event::ShippingLocationUpdated { manifest_id, location, shipping_agent: origin })
    }

    /// The shipping agent hands the shipment over at the delivery location.
    /// The delivery token, which the manufacturer got with the order, stands
    /// for the proof of receipt. An order is delivered once, from
    /// `InProgress`: for an order that has been delivered already the request
    /// is refused and nothing changes.
    pub fn complete_shipment(
        &mut self,
        origin: AccountId,
        manifest_id: UniqueId,
        location: Coordinates,
        delivery_token: UniqueId,
    ) -> (res: Result<Event, Error>)
        requires
            old(self)@.inv(),
            old(self)@.completion_error(origin, manifest_id, location@, delivery_token)
                is None ==> {
                &&& old(self)@.locations_room(
                    old(self)@.shipping_manifests[manifest_id].raw_material_units,
                )
                &&& old(self)@.custodians_room(
                    old(self)@.shipping_manifests[manifest_id].raw_material_units,
                )
            },
        ensures
            match res {
                Ok(event) => {
                    &&& old(self)@.completion_error(origin, manifest_id, location@, delivery_token)
                        is None
                    &&& final(self)@ == old(self)@.shipment_completed(manifest_id, location@)
                    &&& event@ == (EventView::OrderCompleted {
                        order_id: old(self)@.shipping_manifests[manifest_id].order_id,
                        manifest_id,
                        status: OrderStatus::Completed,
                    })
                },
                Err(error) => {
                    &&& old(self)@.completion_error(origin, manifest_id, location@, delivery_token)
                        == Some(error)
                    &&& final(self)@ == old(self)@
                },
            },
            final(self)@.inv(),
    {
        let now = self.get_current_block_number();
        let (order_id, units) = match self.shipping_manifests.get(&manifest_id) {
            Some(shipping_manifest) => {
                if !shipping_manifest.is_shipping_agent(&origin) {
                    return Err(Error::UnathorisedRequest);
                }
                if !shipping_manifest.is_delivery_location(&location) {
                    return Err(Error::UnathorisedRequest);
                }
                (shipping_manifest.get_order_id(), shipping_manifest.get_raw_material_units())
            },
            None => {
                return Err(Error::ResourceDoesNotExist);
            },
        };
        let manufacturer = match self.orders.get(&order_id) {
            Some(order) => {
                if !order.is_delivery_token(&delivery_token) {
                    return Err(Error::UnathorisedRequest);
                }
                if !order.is_under_way() {
                    return Err(Error::UnathorisedRequest);
                }
                order.get_manufacturer()
            },
            None => {
                return Err(Error::ResourceDoesNotExist);
            },
        };
        proof {
            lemma_shipment_completed_inv(self@, origin, manifest_id, location@, delivery_token);
        }
        let mut shipping_manifest = self.shipping_manifests.remove(&manifest_id).unwrap();
        shipping_manifest.add_route_history(clone_coordinates(&location), &origin);
        self.shipping_manifests.insert(manifest_id, shipping_manifest);
        let moved = ProprietaryDataInput::Location(
            Some(Location::new(location.0.clone(), location.1.clone(), now)),
        );
        let handed = ProprietaryDataInput::Custodian(Some(Custodian::new(manufacturer, now)));
        update_units(&mut self.raw_material_units, &units, &moved, now);
        update_units(&mut self.raw_material_units, &units, &handed, now);
        let mut order = self.orders.remove(&order_id).unwrap();
        order.add_status(OrderStatus::Completed);
        self.orders.insert(order_id, order);
        proof {
            let post = old(self)@.shipment_completed(manifest_id, location@);
            assert(self@.shipping_manifests =~= post.shipping_manifests);
            assert(self@.raw_material_units =~= post.raw_material_units);
            assert(self@.orders =~= post.orders);
        }
        Ok(Event::OrderCompleted { order_id, manifest_id, status: OrderStatus::Completed })
    }
}

} // verus!
