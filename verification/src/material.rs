//! The catalogue: a raw material with the units minted of it, and the
//! shipping agents that may move it from where it is picked up.

use vstd::prelude::*;
use crate::types::{
    clone_coordinates, contains_id, AccountId, Coordinates, CoordinatesView, UniqueId,
};

verus! {

/// A catalogue entry.
#[derive(Debug, PartialEq, Eq)]
pub struct RawMaterial {
    pub material_id: UniqueId,
    pub name: Vec<u8>,
    pub price: u32,
    pub units: Vec<UniqueId>,
}

/// What a `RawMaterial` holds.
pub struct RawMaterialView {
    pub material_id: UniqueId,
    pub name: Seq<u8>,
    pub price: u32,
    pub units: Seq<UniqueId>,
}

impl View for RawMaterial {
    type V = RawMaterialView;

    open spec fn view(&self) -> RawMaterialView {
        RawMaterialView {
            material_id: self.material_id,
            name: self.name@,
            price: self.price,
            units: self.units@,
        }
    }
}

impl Clone for RawMaterial {
    fn clone(&self) -> (copy: Self)
        ensures
            copy@ == self@,
    {
        RawMaterial {
            material_id: self.material_id,
            name: self.name.clone(),
            price: self.price,
            units: self.units.clone(),
        }
    }
}

impl RawMaterial {
    /// A material of which no unit has been minted yet.
    pub fn new(material_id: UniqueId, name: Vec<u8>, price: u32) -> (material: Self)
        ensures
            material@ == (RawMaterialView {
                material_id,
                name: name@,
                price,
                units: Seq::empty(),
            }),
    {
        Self { material_id, name, price, units: Vec::new() }
    }

    pub fn get_material_id(&self) -> (id: UniqueId)
        ensures
            id == self@.material_id,
    {
        self.material_id
    }

    pub fn get_name(&self) -> (name: Vec<u8>)
        ensures
            name@ == self@.name,
    {
        self.name.clone()
    }

    pub fn get_price(&self) -> (price: u32)
        ensures
            price == self@.price,
    {
        self.price
    }

    pub fn get_units(&self) -> (units: Vec<UniqueId>)
        ensures
            units@ == self@.units,
    {
        self.units.clone()
    }

    pub fn add_units(&mut self, new_units: Vec<UniqueId>)
        ensures
            final(self)@ == (RawMaterialView {
                units: old(self)@.units + new_units@,
                ..old(self)@
            }),
    {
        let mut new_units = new_units;
        self.units.append(&mut new_units);
    }

    /// Takes the unit that was added last off the list.
    pub fn remove_unit(&mut self) -> (unit: Option<UniqueId>)
        ensures
            unit == if old(self)@.units.len() > 0 {
                Some(old(self)@.units.last())
            } else {
                None
            },
            final(self)@ == (RawMaterialView {
                units: if old(self)@.units.len() > 0 {
                    old(self)@.units.drop_last()
                } else {
                    old(self)@.units
                },
                ..old(self)@
            }),
    {
        self.units.pop()
    }
}

/// Where a material is picked up, and who may ship it from there.
#[derive(Debug, PartialEq, Eq)]
pub struct RawMaterialShipping {
    pub pickup_location: Coordinates,
    pub shipping_agents: Vec<AccountId>,
}

/// What a `RawMaterialShipping` holds.
pub struct RawMaterialShippingView {
    pub pickup_location: CoordinatesView,
    pub shipping_agents: Seq<AccountId>,
}

impl View for RawMaterialShipping {
    type V = RawMaterialShippingView;

    open spec fn view(&self) -> RawMaterialShippingView {
        RawMaterialShippingView {
            pickup_location: self.pickup_location@,
            shipping_agents: self.shipping_agents@,
        }
    }
}

impl Clone for RawMaterialShipping {
    fn clone(&self) -> (copy: Self)
        ensures
            copy@ == self@,
    {
        RawMaterialShipping {
            pickup_location: clone_coordinates(&self.pickup_location),
            shipping_agents: self.shipping_agents.clone(),
        }
    }
}

impl RawMaterialShipping {
    pub fn new(pickup_location: Coordinates, shipping_agents: Vec<AccountId>) -> (roster: Self)
        ensures
            roster@ == (RawMaterialShippingView {
                pickup_location: pickup_location@,
                shipping_agents: shipping_agents@,
            }),
    {
        Self { pickup_location, shipping_agents }
    }

    pub fn add_shipping_agent(&mut self, shipping_agent: AccountId)
        ensures
            final(self)@ == (RawMaterialShippingView {
                shipping_agents: old(self)@.shipping_agents.push(shipping_agent),
                ..old(self)@
            }),
    {
        self.shipping_agents.push(shipping_agent);
    }

    pub fn get_shipping_agents(&self) -> (agents: Vec<AccountId>)
        ensures
            agents@ == self@.shipping_agents,
    {
        self.shipping_agents.clone()
    }

    pub fn has_shipping_agent(&self, shipping_agent: &AccountId) -> (found: bool)
        ensures
            found == self@.shipping_agents.contains(*shipping_agent),
    {
        contains_id(&self.shipping_agents, *shipping_agent)
    }

    pub fn get_pickup_location(&self) -> (place: Coordinates)
        ensures
            place@ == self@.pickup_location,
    {
        clone_coordinates(&self.pickup_location)
    }
}

} // verus!
