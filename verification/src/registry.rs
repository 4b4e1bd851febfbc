//! Registration of the parties, and the queries about them.

use vstd::prelude::*;
use crate::actor::{
    ActorView, HasActor, Manufacturer, MaterialHolderView, ShippingAgent, ShippingAgentView,
    Supplier,
};
use crate::event::{Error, Event, EventView};
use crate::ledger::{Pallet, PalletView};
use crate::listing::{keys_of, lists};
use crate::types::{coordinates_seq, message, text, AccountId, Coordinates, CoordinatesView};

verus! {

/// What a party that has just been registered holds.
pub open spec fn new_holder(
    account: AccountId,
    company_name: Seq<u8>,
    ceritification_authority: Seq<u8>,
    ceritification_number: Seq<u8>,
) -> MaterialHolderView {
    MaterialHolderView {
        actor: ActorView { account, company_name, ceritification_authority, ceritification_number },
        material_manager: Map::empty(),
        order_manager: Seq::empty(),
    }
}

/// What a shipping agent that has just been registered holds.
pub open spec fn new_agent(
    account: AccountId,
    company_name: Seq<u8>,
    ceritification_authority: Seq<u8>,
    ceritification_number: Seq<u8>,
    pickup_locations: Seq<CoordinatesView>,
    delivery_locations: Seq<CoordinatesView>,
) -> ShippingAgentView {
    ShippingAgentView {
        actor: ActorView { account, company_name, ceritification_authority, ceritification_number },
        manifests: Seq::empty(),
        pickup_locations,
        delivery_locations,
    }
}

/// What is reported of a supplier or a manufacturer to `requester`: the
/// company to everyone, the inventory and the orders to the party itself.
pub open spec fn holder_details(holder: MaterialHolderView, requester: AccountId) -> EventView {
    EventView::HasMaterialsActorDetailsRetreived {
        account_id: holder.actor.account,
        company_name: holder.actor.company_name,
        ceritification_authority: holder.actor.ceritification_authority,
        ceritification_number: holder.actor.ceritification_number,
        raw_materials: if holder.actor.account == requester {
            Some(holder.material_manager)
        } else {
            None
        },
        orders: if holder.actor.account == requester {
            Some(holder.order_manager)
        } else {
            None
        },
    }
}

/// What is reported of a shipping agent to `requester`: the company and the
/// places served to everyone, the manifests to the agent itself.
pub open spec fn agent_details(agent: ShippingAgentView, requester: AccountId) -> EventView {
    EventView::ShippingAgentDetailsRetrieved {
        account_id: agent.actor.account,
        company_name: agent.actor.company_name,
        ceritification_authority: agent.actor.ceritification_authority,
        ceritification_number: agent.actor.ceritification_number,
        pickup_locations: agent.pickup_locations,
        delivery_locations: agent.delivery_locations,
        manifests: if agent.actor.account == requester {
            Some(agent.manifests)
        } else {
            None
        },
    }
}

impl Pallet {
    /// Registers the caller as a manufacturer. An account is registered as a
    /// manufacturer at most once.
    pub fn register_manufacturer(
        &mut self,
        origin: AccountId,
        company_name: Vec<u8>,
        ceritification_authority: Vec<u8>,
        ceritification_number: Vec<u8>,
    ) -> (res: Result<Event, Error>)
        ensures
            match res {
                Ok(event) => {
                    &&& !old(self)@.manufacturers.contains_key(origin)
                    &&& final(self)@ == (PalletView {
                        manufacturers: old(self)@.manufacturers.insert(
                            origin,
                            new_holder(
                                origin,
                                company_name@,
                                ceritification_authority@,
                                ceritification_number@,
                            ),
                        ),
                        ..old(self)@
                    })
                    &&& event@ == (EventView::ActorRegistered {
                        account: origin,
                        actor_type: text("Manufacturer"),
                    })
                },
                Err(error) => {
                    &&& old(self)@.manufacturers.contains_key(origin)
                    &&& error == Error::ActorAlreadyExists
                    &&& final(self)@ == old(self)@
                },
            },
            old(self)@.inv() ==> final(self)@.inv(),
    {
        if self.manufacturers.contains_key(&origin) {
            return Err(Error::ActorAlreadyExists);
        }
        let manufacturer = Manufacturer::new(
            origin,
            company_name,
            ceritification_authority,
            ceritification_number,
        );
        self.manufacturers.insert(origin, manufacturer);
        assert(self@.manufacturers =~= old(self)@.manufacturers.insert(
            origin,
            new_holder(origin, company_name@, ceritification_authority@, ceritification_number@),
        ));
        Ok(Event::ActorRegistered { account: origin, actor_type: message("Manufacturer") })
    }

    /// Registers the caller as a supplier. An account is registered as a
    /// supplier at most once.
    pub fn register_supplier(
        &mut self,
        origin: AccountId,
        company_name: Vec<u8>,
        ceritification_authority: Vec<u8>,
        ceritification_number: Vec<u8>,
    ) -> (res: Result<Event, Error>)
        ensures
            match res {
                Ok(event) => {
                    &&& !old(self)@.suppliers.contains_key(origin)
                    &&& final(self)@ == (PalletView {
                        suppliers: old(self)@.suppliers.insert(
                            origin,
                            new_holder(
                                origin,
                                company_name@,
                                ceritification_authority@,
                                ceritification_number@,
                            ),
                        ),
                        ..old(self)@
                    })
                    &&& event@ == (EventView::ActorRegistered {
                        account: origin,
                        actor_type: text("Supplier"),
                    })
                },
                Err(error) => {
                    &&& old(self)@.suppliers.contains_key(origin)
                    &&& error == Error::ActorAlreadyExists
                    &&& final(self)@ == old(self)@
                },
            },
            old(self)@.inv() ==> final(self)@.inv(),
    {
        if self.suppliers.contains_key(&origin) {
            return Err(Error::ActorAlreadyExists);
        }
        let supplier = Supplier::new(
            origin,
            company_name,
            ceritification_authority,
            ceritification_number,
        );
        self.suppliers.insert(origin, supplier);
        assert(self@.suppliers =~= old(self)@.suppliers.insert(
            origin,
            new_holder(origin, company_name@, ceritification_authority@, ceritification_number@),
        ));
        Ok(Event::ActorRegistered { account: origin, actor_type: message("Supplier") })
    }

    /// Registers the caller as a shipping agent that picks up at
    /// `pickup_locations` and delivers to `delivery_locations`. An account
    /// is registered as a shipping agent at most once.
    pub fn register_shipping_agent(
        &mut self,
        origin: AccountId,
        company_name: Vec<u8>,
        ceritification_authority: Vec<u8>,
        ceritification_number: Vec<u8>,
        pickup_locations: Vec<Coordinates>,
        delivery_locations: Vec<Coordinates>,
    ) -> (res: Result<Event, Error>)
        ensures
            match res {
                Ok(event) => {
                    &&& !old(self)@.shipping_agents.contains_key(origin)
                    &&& final(self)@ == (PalletView {
                        shipping_agents: old(self)@.shipping_agents.insert(
                            origin,
                            new_agent(
                                origin,
                                company_name@,
                                ceritification_authority@,
                                ceritification_number@,
                                coordinates_seq(pickup_locations@),
                                coordinates_seq(delivery_locations@),
                            ),
                        ),
                        ..old(self)@
                    })
                    &&& event@ == (EventView::ActorRegistered {
                        account: origin,
                        actor_type: text("Shipping Agent"),
                    })
                },
                Err(error) => {
                    &&& old(self)@.shipping_agents.contains_key(origin)
                    &&& error == Error::ActorAlreadyExists
                    &&& final(self)@ == old(self)@
                },
            },
            old(self)@.inv() ==> final(self)@.inv(),
    {
        if self.shipping_agents.contains_key(&origin) {
            return Err(Error::ActorAlreadyExists);
        }
        let mut shipping_agent = ShippingAgent::new(
            origin,
            company_name,
            ceritification_authority,
            ceritification_number,
        );
        shipping_agent.add_pickup_locations(pickup_locations);
        shipping_agent.add_delivery_locations(delivery_locations);
        assert(shipping_agent@.pickup_locations =~= coordinates_seq(pickup_locations@));
        assert(shipping_agent@.delivery_locations =~= coordinates_seq(delivery_locations@));
        self.shipping_agents.insert(origin, shipping_agent);
        assert(self@.shipping_agents =~= old(self)@.shipping_agents.insert(
            origin,
            new_agent(
                origin,
                company_name@,
                ceritification_authority@,
                ceritification_number@,
                coordinates_seq(pickup_locations@),
                coordinates_seq(delivery_locations@),
            ),
        ));
        Ok(Event::ActorRegistered { account: origin, actor_type: message("Shipping Agent") })
    }

    /// The accounts of all manufacturers, the smallest first.
    pub fn get_manufacturers(&self, origin: AccountId) -> (res: Result<Event, Error>)
        ensures
            res matches Ok(event) && event@ matches EventView::ActorsRetreived { actors } && lists(
                actors,
                self@.manufacturers.dom(),
            ),
    {
        let actors = keys_of(&self.manufacturers);
        assert(self@.manufacturers.dom() =~= self.manufacturers@.dom());
        Ok(Event::ActorsRetreived { actors })
    }

    /// What the ledger holds of the manufacturer `manufacturer_id`, as far
    /// as the caller may see it.
    pub fn get_manufacturer(&self, origin: AccountId, manufacturer_id: AccountId) -> (res: Result<
        Event,
        Error,
    >)
        ensures
            match res {
                Ok(event) => self@.manufacturers.contains_key(manufacturer_id) && event@
                    == holder_details(self@.manufacturers[manufacturer_id], origin),
                Err(error) => !self@.manufacturers.contains_key(manufacturer_id) && error
                    == Error::ResourceDoesNotExist,
            },
    {
        let manufacturer = match self.manufacturers.get(&manufacturer_id) {
            Some(manufacturer) => manufacturer,
            None => {
                return Err(Error::ResourceDoesNotExist);
            },
        };
        let mut raw_materials = None;
        let mut orders = None;
        if manufacturer.owns_account(origin) {
            raw_materials = Some(manufacturer.material_manager.get_raw_materials());
            orders = Some(manufacturer.order_manager.get_orders());
        }
        Ok(
            Event::HasMaterialsActorDetailsRetreived {
                account_id: manufacturer.get_account(),
                company_name: manufacturer.get_company_name(),
                ceritification_authority: manufacturer.get_ceritification_authority(),
                ceritification_number: manufacturer.get_ceritification_number(),
                raw_materials,
                orders,
            },
        )
    }

    /// The accounts of all suppliers, the smallest first.
    pub fn get_suppliers(&self, origin: AccountId) -> (res: Result<Event, Error>)
        ensures
            res matches Ok(event) && event@ matches EventView::ActorsRetreived { actors } && lists(
                actors,
                self@.suppliers.dom(),
            ),
    {
        let actors = keys_of(&self.suppliers);
        assert(self@.suppliers.dom() =~= self.suppliers@.dom());
        Ok(Event::ActorsRetreived { actors })
    }

    /// What the ledger holds of the supplier `supplier_id`, as far as the
    /// caller may see it.
    pub fn get_supplier(&self, origin: AccountId, supplier_id: AccountId) -> (res: Result<
        Event,
        Error,
    >)
        ensures
            match res {
                Ok(event) => self@.suppliers.contains_key(supplier_id) && event@ == holder_details(
                    self@.suppliers[supplier_id],
                    origin,
                ),
                Err(error) => !self@.suppliers.contains_key(supplier_id) && error
                    == Error::ResourceDoesNotExist,
            },
    {
        let supplier = match self.suppliers.get(&supplier_id) {
            Some(supplier) => supplier,
            None => {
                return Err(Error::ResourceDoesNotExist);
            },
        };
        let mut raw_materials = None;
        let mut orders = None;
        if supplier.owns_account(origin) {
            raw_materials = Some(supplier.material_manager.get_raw_materials());
            orders = Some(supplier.order_manager.get_orders());
        }
        Ok(
            Event::HasMaterialsActorDetailsRetreived {
                account_id: supplier.get_account(),
                company_name: supplier.get_company_name(),
                ceritification_authority: supplier.get_ceritification_authority(),
                ceritification_number: supplier.get_ceritification_number(),
                raw_materials,
                orders,
            },
        )
    }

    /// What the ledger holds of the shipping agent `shipping_agent_id`, as
    /// far as the caller may see it.
    pub fn get_shipping_agent(&self, origin: AccountId, shipping_agent_id: AccountId) -> (res:
        Result<Event, Error>)
        ensures
            match res {
                Ok(event) => self@.shipping_agents.contains_key(shipping_agent_id) && event@
                    == agent_details(self@.shipping_agents[shipping_agent_id], origin),
                Err(error) => !self@.shipping_agents.contains_key(shipping_agent_id) && error
                    == Error::ResourceDoesNotExist,
            },
    {
        let shipping_agent = match self.shipping_agents.get(&shipping_agent_id) {
            Some(shipping_agent) => shipping_agent,
            None => {
                return Err(Error::ResourceDoesNotExist);
            },
        };
        let mut manifests = None;
        if shipping_agent.owns_account(origin) {
            manifests = Some(shipping_agent.get_manifests());
        }
        Ok(
            Event::ShippingAgentDetailsRetrieved {
                account_id: shipping_agent.get_account(),
                company_name: shipping_agent.get_company_name(),
                ceritification_authority: shipping_agent.get_ceritification_authority(),
                ceritification_number: shipping_agent.get_ceritification_number(),
                manifests,
                pickup_locations: shipping_agent.get_pickup_locations(),
                delivery_locations: shipping_agent.get_delivery_locations(),
            },
        )
    }

    /// The accounts of all shipping agents, the smallest first.
    pub fn get_shipping_agents(&self, origin: AccountId) -> (res: Result<Event, Error>)
        ensures
            res matches Ok(event) && event@ matches EventView::ActorsRetreived { actors } && lists(
                actors,
                self@.shipping_agents.dom(),
            ),
    {
        let actors = keys_of(&self.shipping_agents);
        assert(self@.shipping_agents.dom() =~= self.shipping_agents@.dom());
        Ok(Event::ActorsRetreived { actors })
    }

    /// The identifiers of all raw materials, the smallest first.
    pub fn get_raw_materials(&self, origin: AccountId) -> (res: Result<Event, Error>)
        ensures
            res matches Ok(event) && event@ matches EventView::ResourcesRetreived {
                name,
                resources,
            } && name == text("Raw Materials") && lists(resources, self@.raw_materials.dom()),
    {
        let resources = keys_of(&self.raw_materials);
        assert(self@.raw_materials.dom() =~= self.raw_materials@.dom());
        Ok(Event::ResourcesRetreived { name: message("Raw Materials"), resources })
    }

    /// The identifiers of all orders, the smallest first.
    pub fn get_orders(&self, origin: AccountId) -> (res: Result<Event, Error>)
        ensures
            res matches Ok(event) && event@ matches EventView::ResourcesRetreived {
                name,
                resources,
            } && name == text("Orders") && lists(resources, self@.orders.dom()),
    {
        let resources = keys_of(&self.orders);
        assert(self@.orders.dom() =~= self.orders@.dom());
        Ok(Event::ResourcesRetreived { name: message("Orders"), resources })
    }

    /// Reports nothing: the manifests are not listed.
    pub fn get_shipping_manifests(&self, origin: AccountId) -> (res: Result<(), Error>)
        ensures
            res is Ok,
    {
        Ok(())
    }
}

} // verus!
