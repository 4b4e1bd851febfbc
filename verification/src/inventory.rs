//! What an actor holds: the units in its possession, material by material,
//! and the orders it takes part in.

use std::collections::BTreeMap;
use vstd::prelude::*;
use crate::types::{contains_id, UniqueId};

verus! {

/// `list` without every occurrence of `id`.
pub open spec fn without(list: Seq<UniqueId>, id: UniqueId) -> Seq<UniqueId> {
    list.filter(|u: UniqueId| u != id)
}

/// The number of units of `material` in `stock`: none where nothing of the
/// material was ever held.
pub open spec fn available(stock: Map<UniqueId, Seq<UniqueId>>, material: UniqueId) -> nat {
    if stock.contains_key(material) {
        stock[material].len()
    } else {
        0
    }
}

/// What a map from materials to unit lists holds.
pub open spec fn stock(map: Map<UniqueId, Vec<UniqueId>>) -> Map<UniqueId, Seq<UniqueId>> {
    map.map_values(|units: Vec<UniqueId>| units@)
}

/// To remove a unit from a list in which it does not occur changes nothing.
pub proof fn lemma_without_absent(list: Seq<UniqueId>, id: UniqueId)
    requires
        !list.contains(id),
    ensures
        without(list, id) == list,
    decreases list.len(),
{
    reveal(Seq::filter);
    if list.len() > 0 {
        let front = list.drop_last();
        assert forall|i: int| 0 <= i < front.len() implies front[i] != id by {
            assert(list[i] == front[i]);
            assert(list.contains(list[i]));
        }
        lemma_without_absent(front, id);
        assert(list.contains(list.last()));
        assert(front.push(list.last()) =~= list);
    }
}

/// Where a unit occurs once in a list, and at its end, to remove it is to
/// drop the last unit.
pub proof fn lemma_without_last(list: Seq<UniqueId>)
    requires
        list.len() > 0,
        list.no_duplicates(),
    ensures
        without(list, list.last()) == list.drop_last(),
{
    let front = list.drop_last();
    assert forall|i: int| 0 <= i < front.len() implies front[i] != list.last() by {
        assert(list[i] != list[list.len() - 1]);
    }
    lemma_without_absent(front, list.last());
    reveal(Seq::filter);
}

/// A copy of `list` without every occurrence of `id`.
pub fn remove_id(list: &Vec<UniqueId>, id: UniqueId) -> (kept: Vec<UniqueId>)
    ensures
        kept@ == without(list@, id),
{
    let mut kept: Vec<UniqueId> = Vec::new();
    let mut i: usize = 0;
    assert(list@.take(0) =~= Seq::empty());
    reveal(Seq::filter);
    while i < list.len()
        invariant
            i <= list.len(),
            kept@ == without(list@.take(i as int), id),
        decreases list.len() - i,
    {
        proof {
            let next = list@.take(i + 1);
            assert(next.drop_last() =~= list@.take(i as int));
            assert(next.last() == list@[i as int]);
            reveal(Seq::filter);
        }
        if list[i] != id {
            kept.push(list[i]);
        }
        i += 1;
    }
    assert(list@.take(i as int) =~= list@);
    kept
}

/// The units that an actor holds, material by material, in the order in
/// which they came.
#[derive(Debug, PartialEq, Eq)]
pub struct OwnsRawMaterials {
    pub raw_materials: BTreeMap<UniqueId, Vec<UniqueId>>,
}

impl View for OwnsRawMaterials {
    type V = Map<UniqueId, Seq<UniqueId>>;

    open spec fn view(&self) -> Map<UniqueId, Seq<UniqueId>> {
        stock(self.raw_materials@)
    }
}

impl Clone for OwnsRawMaterials {
    fn clone(&self) -> (copy: Self)
        ensures
            copy@ == self@,
    {
        OwnsRawMaterials { raw_materials: self.raw_materials.clone() }
    }
}

impl OwnsRawMaterials {
    pub fn new() -> (inventory: Self)
        ensures
            inventory@ == Map::<UniqueId, Seq<UniqueId>>::empty(),
    {
        let inventory = Self { raw_materials: BTreeMap::new() };
        assert(inventory@ =~= Map::<UniqueId, Seq<UniqueId>>::empty());
        inventory
    }

    pub fn get_raw_materials(&self) -> (copy: BTreeMap<UniqueId, Vec<UniqueId>>)
        ensures
            stock(copy@) == self@,
    {
        self.raw_materials.clone()
    }

    /// Appends `new_units` to the units held of `raw_material_id`. Nothing
    /// is checked or removed: a unit that is added twice is held twice.
    pub fn add_units_to_raw_material(
        &mut self,
        raw_material_id: UniqueId,
        new_units: Vec<UniqueId>,
    )
        ensures
            final(self)@ == old(self)@.insert(
                raw_material_id,
                if old(self)@.contains_key(raw_material_id) {
                    old(self)@[raw_material_id] + new_units@
                } else {
                    new_units@
                },
            ),
    {
        let mut new_units = new_units;
        let ghost added = new_units@;
        match self.raw_materials.remove(&raw_material_id) {
            Some(mut existing_units) => {
                existing_units.append(&mut new_units);
                self.raw_materials.insert(raw_material_id, existing_units);
            },
            None => {
                self.raw_materials.insert(raw_material_id, new_units);
            },
        }
        assert(self@ =~= old(self)@.insert(
            raw_material_id,
            if old(self)@.contains_key(raw_material_id) {
                old(self)@[raw_material_id] + added
            } else {
                added
            },
        ));
    }

    pub fn get_units(&self, raw_material_id: &UniqueId) -> (units: Option<&Vec<UniqueId>>)
        ensures
            match units {
                Some(list) => self@.contains_key(*raw_material_id) && list@
                    == self@[*raw_material_id],
                None => !self@.contains_key(*raw_material_id),
            },
    {
        self.raw_materials.get(raw_material_id)
    }

    /// Whether at least `quantity` units of the material are held.
    pub fn has_material_in_inventory(&self, raw_material_id: &UniqueId, quantity: u32) -> (enough:
        bool)
        ensures
            enough == (available(self@, *raw_material_id) >= quantity),
    {
        match self.raw_materials.get(raw_material_id) {
            Some(units) => units.len() >= quantity as usize,
            None => quantity == 0,
        }
    }

    /// The unit that would leave next: the one that came last.
    pub fn get_unit_from_material(&self, raw_material_id: &UniqueId) -> (unit: Option<UniqueId>)
        ensures
            unit == if self@.contains_key(*raw_material_id) && self@[*raw_material_id].len() > 0 {
                Some(self@[*raw_material_id].last())
            } else {
                None
            },
    {
        match self.raw_materials.get(raw_material_id) {
            Some(units) => {
                if units.len() > 0 {
                    Some(units[units.len() - 1])
                } else {
                    None
                }
            },
            None => None,
        }
    }

    /// Takes the unit that came last out of the units held of the material.
    pub fn take_unit_from_material(&mut self, raw_material_id: &UniqueId) -> (unit: Option<
        UniqueId,
    >)
        ensures
            unit == if available(old(self)@, *raw_material_id) > 0 {
                Some(old(self)@[*raw_material_id].last())
            } else {
                None
            },
            final(self)@ == if available(old(self)@, *raw_material_id) > 0 {
                old(self)@.insert(*raw_material_id, old(self)@[*raw_material_id].drop_last())
            } else {
                old(self)@
            },
    {
        match self.raw_materials.remove(raw_material_id) {
            Some(units) => {
                let mut units = units;
                let unit = units.pop();
                self.raw_materials.insert(*raw_material_id, units);
                assert(self@ =~= if available(old(self)@, *raw_material_id) > 0 {
                    old(self)@.insert(*raw_material_id, old(self)@[*raw_material_id].drop_last())
                } else {
                    old(self)@
                });
                unit
            },
            None => {
                assert(self@ =~= old(self)@);
                None
            },
        }
    }

    /// Removes the unit from the units held of the material, and says
    /// whether it was there.
    pub fn remove_unit_from_material(
        &mut self,
        raw_material_id: &UniqueId,
        raw_material_unit_id: &UniqueId,
    ) -> (removed: bool)
        ensures
            removed == (old(self)@.contains_key(*raw_material_id) && old(
                self,
            )@[*raw_material_id].contains(*raw_material_unit_id)),
            final(self)@ == if removed {
                old(self)@.insert(
                    *raw_material_id,
                    without(old(self)@[*raw_material_id], *raw_material_unit_id),
                )
            } else {
                old(self)@
            },
    {
        let kept = match self.raw_materials.get(raw_material_id) {
            Some(units) => {
                if contains_id(units, *raw_material_unit_id) {
                    Some(remove_id(units, *raw_material_unit_id))
                } else {
                    None
                }
            },
            None => None,
        };
        match kept {
            Some(units) => {
                self.raw_materials.insert(*raw_material_id, units);
                assert(self@ =~= old(self)@.insert(
                    *raw_material_id,
                    without(old(self)@[*raw_material_id], *raw_material_unit_id),
                ));
                true
            },
            None => false,
        }
    }
}

/// The orders that an actor takes part in, oldest first.
#[derive(Debug, PartialEq, Eq)]
pub struct HasOrders {
    pub orders: Vec<UniqueId>,
}

impl View for HasOrders {
    type V = Seq<UniqueId>;

    open spec fn view(&self) -> Seq<UniqueId> {
        self.orders@
    }
}

impl Clone for HasOrders {
    fn clone(&self) -> (copy: Self)
        ensures
            copy@ == self@,
    {
        HasOrders { orders: self.orders.clone() }
    }
}

impl HasOrders {
    pub fn new() -> (orders: Self)
        ensures
            orders@ == Seq::<UniqueId>::empty(),
    {
        Self { orders: Vec::new() }
    }

    pub fn get_orders(&self) -> (copy: Vec<UniqueId>)
        ensures
            copy@ == self@,
    {
        self.orders.clone()
    }

    pub fn add_order(&mut self, order_id: UniqueId)
        ensures
            final(self)@ == old(self)@.push(order_id),
    {
        self.orders.push(order_id);
    }

    pub fn has_order(&self, order_id: &UniqueId) -> (found: bool)
        ensures
            found == self@.contains(*order_id),
    {
        contains_id(&self.orders, *order_id)
    }
}

} // verus!
