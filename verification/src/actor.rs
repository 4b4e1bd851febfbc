//! The parties of the supply chain: suppliers, manufacturers and shipping
//! agents, each an account with a company behind it.

use vstd::prelude::*;
use crate::inventory::{HasOrders, OwnsRawMaterials};
use crate::types::{
    clone_coordinates, clone_coordinates_list, contains_coordinates, coordinates_seq,
    same_coordinates, AccountId, Coordinates, CoordinatesView, UniqueId,
};

verus! {

/// An account and the company that it stands for.
#[derive(Debug, PartialEq, Eq)]
pub struct Actor {
    pub account: AccountId,
    pub company_name: Vec<u8>,
    pub ceritification_authority: Vec<u8>,
    pub ceritification_number: Vec<u8>,
}

/// What an `Actor` holds.
pub struct ActorView {
    pub account: AccountId,
    pub company_name: Seq<u8>,
    pub ceritification_authority: Seq<u8>,
    pub ceritification_number: Seq<u8>,
}

impl View for Actor {
    type V = ActorView;

    open spec fn view(&self) -> ActorView {
        ActorView {
            account: self.account,
            company_name: self.company_name@,
            ceritification_authority: self.ceritification_authority@,
            ceritification_number: self.ceritification_number@,
        }
    }
}

impl Clone for Actor {
    fn clone(&self) -> (copy: Self)
        ensures
            copy@ == self@,
    {
        Actor {
            account: self.account,
            company_name: self.company_name.clone(),
            ceritification_authority: self.ceritification_authority.clone(),
            ceritification_number: self.ceritification_number.clone(),
        }
    }
}

impl Actor {
    pub fn new(
        account: AccountId,
        company_name: Vec<u8>,
        ceritification_authority: Vec<u8>,
        ceritification_number: Vec<u8>,
    ) -> (actor: Self)
        ensures
            actor@ == (ActorView {
                account,
                company_name: company_name@,
                ceritification_authority: ceritification_authority@,
                ceritification_number: ceritification_number@,
            }),
    {
        Self { account, company_name, ceritification_authority, ceritification_number }
    }

    pub fn get_account(&self) -> (account: AccountId)
        ensures
            account == self@.account,
    {
        self.account
    }

    pub fn owns_account(&self, account: AccountId) -> (owns: bool)
        ensures
            owns == (self@.account == account),
    {
        self.account == account
    }

    pub fn get_company_name(&self) -> (name: Vec<u8>)
        ensures
            name@ == self@.company_name,
    {
        self.company_name.clone()
    }

    pub fn get_ceritification_authority(&self) -> (authority: Vec<u8>)
        ensures
            authority@ == self@.ceritification_authority,
    {
        self.ceritification_authority.clone()
    }

    pub fn get_ceritification_number(&self) -> (number: Vec<u8>)
        ensures
            number@ == self@.ceritification_number,
    {
        self.ceritification_number.clone()
    }
}

/// What every party can say of the actor behind it.
pub trait HasActor {
    /// The actor behind this party.
    spec fn actor(&self) -> ActorView;

    fn get_account(&self) -> (account: AccountId)
        ensures
            account == self.actor().account,
    {
        self.get_actor().get_account()
    }

    fn owns_account(&self, account: AccountId) -> (owns: bool)
        ensures
            owns == (self.actor().account == account),
    {
        self.get_actor().owns_account(account)
    }

    fn get_company_name(&self) -> (name: Vec<u8>)
        ensures
            name@ == self.actor().company_name,
    {
        self.get_actor().get_company_name()
    }

    fn get_ceritification_authority(&self) -> (authority: Vec<u8>)
        ensures
            authority@ == self.actor().ceritification_authority,
    {
        self.get_actor().get_ceritification_authority()
    }

    fn get_ceritification_number(&self) -> (number: Vec<u8>)
        ensures
            number@ == self.actor().ceritification_number,
    {
        self.get_actor().get_ceritification_number()
    }

    fn get_actor(&self) -> (actor: Actor)
        ensures
            actor@ == self.actor(),
    ;
}

/// What a supplier or a manufacturer holds: the actor, the units in its
/// possession and its orders.
pub struct MaterialHolderView {
    pub actor: ActorView,
    pub material_manager: Map<UniqueId, Seq<UniqueId>>,
    pub order_manager: Seq<UniqueId>,
}

/// A party that registers raw materials and sells their units.
#[derive(Debug, PartialEq, Eq)]
pub struct Supplier {
    pub actor: Actor,
    pub material_manager: OwnsRawMaterials,
    pub order_manager: HasOrders,
}

impl View for Supplier {
    type V = MaterialHolderView;

    open spec fn view(&self) -> MaterialHolderView {
        MaterialHolderView {
            actor: self.actor@,
            material_manager: self.material_manager@,
            order_manager: self.order_manager@,
        }
    }
}

impl Clone for Supplier {
    fn clone(&self) -> (copy: Self)
        ensures
            copy@ == self@,
    {
        Supplier {
            actor: self.actor.clone(),
            material_manager: self.material_manager.clone(),
            order_manager: self.order_manager.clone(),
        }
    }
}

impl HasActor for Supplier {
    open spec fn actor(&self) -> ActorView {
        self.actor@
    }

    fn get_actor(&self) -> (actor: Actor) {
        self.actor.clone()
    }
}

impl Supplier {
    /// A supplier that holds nothing yet.
    pub fn new(
        account_id: AccountId,
        company_name: Vec<u8>,
        ceritification_authority: Vec<u8>,
        ceritification_number: Vec<u8>,
    ) -> (supplier: Self)
        ensures
            supplier@ == (MaterialHolderView {
                actor: ActorView {
                    account: account_id,
                    company_name: company_name@,
                    ceritification_authority: ceritification_authority@,
                    ceritification_number: ceritification_number@,
                },
                material_manager: Map::empty(),
                order_manager: Seq::empty(),
            }),
    {
        Self {
            actor: Actor::new(
                account_id,
                company_name,
                ceritification_authority,
                ceritification_number,
            ),
            material_manager: OwnsRawMaterials::new(),
            order_manager: HasOrders::new(),
        }
    }
}

/// A party that buys units of raw materials.
#[derive(Debug, PartialEq, Eq)]
pub struct Manufacturer {
    pub actor: Actor,
    pub material_manager: OwnsRawMaterials,
    pub order_manager: HasOrders,
}

impl View for Manufacturer {
    type V = MaterialHolderView;

    open spec fn view(&self) -> MaterialHolderView {
        MaterialHolderView {
            actor: self.actor@,
            material_manager: self.material_manager@,
            order_manager: self.order_manager@,
        }
    }
}

impl Clone for Manufacturer {
    fn clone(&self) -> (copy: Self)
        ensures
            copy@ == self@,
    {
        Manufacturer {
            actor: self.actor.clone(),
            material_manager: self.material_manager.clone(),
            order_manager: self.order_manager.clone(),
        }
    }
}

impl HasActor for Manufacturer {
    open spec fn actor(&self) -> ActorView {
        self.actor@
    }

    fn get_actor(&self) -> (actor: Actor) {
        self.actor.clone()
    }
}

impl Manufacturer {
    /// A manufacturer that holds nothing yet.
    pub fn new(
        account_id: AccountId,
        company_name: Vec<u8>,
        ceritification_authority: Vec<u8>,
        ceritification_number: Vec<u8>,
    ) -> (manufacturer: Self)
        ensures
            manufacturer@ == (MaterialHolderView {
                actor: ActorView {
                    account: account_id,
                    company_name: company_name@,
                    ceritification_authority: ceritification_authority@,
                    ceritification_number: ceritification_number@,
                },
                material_manager: Map::empty(),
                order_manager: Seq::empty(),
            }),
    {
        Self {
            actor: Actor::new(
                account_id,
                company_name,
                ceritification_authority,
                ceritification_number,
            ),
            material_manager: OwnsRawMaterials::new(),
            order_manager: HasOrders::new(),
        }
    }
}

/// `list` without every occurrence of `place`.
pub open spec fn without_place(list: Seq<CoordinatesView>, place: CoordinatesView) -> Seq<
    CoordinatesView,
> {
    list.filter(|c: CoordinatesView| c != place)
}

/// A copy of `list` without every occurrence of `place`.
pub fn remove_place(list: &Vec<Coordinates>, place: &Coordinates) -> (kept: Vec<Coordinates>)
    ensures
        coordinates_seq(kept@) == without_place(coordinates_seq(list@), place@),
{
    let mut kept: Vec<Coordinates> = Vec::new();
    let mut i: usize = 0;
    assert(coordinates_seq(list@).take(0) =~= Seq::empty());
    assert(coordinates_seq(kept@) =~= Seq::empty());
    reveal(Seq::filter);
    while i < list.len()
        invariant
            i <= list.len(),
            coordinates_seq(kept@) == without_place(
                coordinates_seq(list@).take(i as int),
                place@,
            ),
        decreases list.len() - i,
    {
        let ghost before = coordinates_seq(kept@);
        proof {
            let next = coordinates_seq(list@).take(i + 1);
            assert(next.drop_last() =~= coordinates_seq(list@).take(i as int));
            assert(next.last() == list@[i as int]@);
            reveal(Seq::filter);
        }
        if !same_coordinates(&list[i], place) {
            kept.push(clone_coordinates(&list[i]));
            assert(coordinates_seq(kept@) =~= before.push(list@[i as int]@));
        }
        i += 1;
    }
    assert(coordinates_seq(list@).take(i as int) =~= coordinates_seq(list@));
    kept
}

/// A party that moves units from a pickup place to a delivery place.
#[derive(Debug, PartialEq, Eq)]
pub struct ShippingAgent {
    pub actor: Actor,
    pub manifests: Vec<UniqueId>,
    pub pickup_locations: Vec<Coordinates>,
    pub delivery_locations: Vec<Coordinates>,
}

/// What a `ShippingAgent` holds.
pub struct ShippingAgentView {
    pub actor: ActorView,
    pub manifests: Seq<UniqueId>,
    pub pickup_locations: Seq<CoordinatesView>,
    pub delivery_locations: Seq<CoordinatesView>,
}

impl View for ShippingAgent {
    type V = ShippingAgentView;

    open spec fn view(&self) -> ShippingAgentView {
        ShippingAgentView {
            actor: self.actor@,
            manifests: self.manifests@,
            pickup_locations: coordinates_seq(self.pickup_locations@),
            delivery_locations: coordinates_seq(self.delivery_locations@),
        }
    }
}

impl ShippingAgentView {
    /// The agent serves both ends of the route.
    pub open spec fn can_ship(self, pickup: CoordinatesView, delivery: CoordinatesView) -> bool {
        self.pickup_locations.contains(pickup) && self.delivery_locations.contains(delivery)
    }
}

impl Clone for ShippingAgent {
    fn clone(&self) -> (copy: Self)
        ensures
            copy@ == self@,
    {
        ShippingAgent {
            actor: self.actor.clone(),
            manifests: self.manifests.clone(),
            pickup_locations: clone_coordinates_list(&self.pickup_locations),
            delivery_locations: clone_coordinates_list(&self.delivery_locations),
        }
    }
}

impl HasActor for ShippingAgent {
    open spec fn actor(&self) -> ActorView {
        self.actor@
    }

    fn get_actor(&self) -> (actor: Actor) {
        self.actor.clone()
    }
}

impl ShippingAgent {
    /// A shipping agent that serves no place yet.
    pub fn new(
        account_id: AccountId,
        company_name: Vec<u8>,
        ceritification_authority: Vec<u8>,
        ceritification_number: Vec<u8>,
    ) -> (agent: Self)
        ensures
            agent@ == (ShippingAgentView {
                actor: ActorView {
                    account: account_id,
                    company_name: company_name@,
                    ceritification_authority: ceritification_authority@,
                    ceritification_number: ceritification_number@,
                },
                manifests: Seq::empty(),
                pickup_locations: Seq::empty(),
                delivery_locations: Seq::empty(),
            }),
    {
        let agent = Self {
            actor: Actor::new(
                account_id,
                company_name,
                ceritification_authority,
                ceritification_number,
            ),
            manifests: Vec::new(),
            pickup_locations: Vec::new(),
            delivery_locations: Vec::new(),
        };
        assert(agent@.pickup_locations =~= Seq::empty());
        assert(agent@.delivery_locations =~= Seq::empty());
        agent
    }

    pub fn get_pickup_locations(&self) -> (places: Vec<Coordinates>)
        ensures
            coordinates_seq(places@) == self@.pickup_locations,
    {
        clone_coordinates_list(&self.pickup_locations)
    }

    pub fn get_delivery_locations(&self) -> (places: Vec<Coordinates>)
        ensures
            coordinates_seq(places@) == self@.delivery_locations,
    {
        clone_coordinates_list(&self.delivery_locations)
    }

    pub fn add_manifest(&mut self, manifest_id: UniqueId)
        ensures
            final(self)@ == (ShippingAgentView {
                manifests: old(self)@.manifests.push(manifest_id),
                ..old(self)@
            }),
    {
        self.manifests.push(manifest_id);
    }

    pub fn add_pickup_locations(&mut self, pickup_locations: Vec<Coordinates>)
        ensures
            final(self)@ == (ShippingAgentView {
                pickup_locations: old(self)@.pickup_locations + coordinates_seq(
                    pickup_locations@,
                ),
                ..old(self)@
            }),
    {
        let mut pickup_locations = pickup_locations;
        let ghost added = pickup_locations@;
        self.pickup_locations.append(&mut pickup_locations);
        assert(self@.pickup_locations =~= old(self)@.pickup_locations + coordinates_seq(added));
    }

    pub fn add_delivery_locations(&mut self, delivery_locations: Vec<Coordinates>)
        ensures
            final(self)@ == (ShippingAgentView {
                delivery_locations: old(self)@.delivery_locations + coordinates_seq(
                    delivery_locations@,
                ),
                ..old(self)@
            }),
    {
        let mut delivery_locations = delivery_locations;
        let ghost added = delivery_locations@;
        self.delivery_locations.append(&mut delivery_locations);
        assert(self@.delivery_locations =~= old(self)@.delivery_locations + coordinates_seq(
            added,
        ));
    }

    pub fn get_manifests(&self) -> (manifests: Vec<UniqueId>)
        ensures
            manifests@ == self@.manifests,
    {
        self.manifests.clone()
    }

    /// The agent no longer picks up at `pickup_location`.
    pub fn remove_pickup_location(&mut self, pickup_location: Coordinates)
        ensures
            final(self)@ == (ShippingAgentView {
                pickup_locations: without_place(old(self)@.pickup_locations, pickup_location@),
                ..old(self)@
            }),
    {
        self.pickup_locations = remove_place(&self.pickup_locations, &pickup_location);
    }

    /// The agent no longer delivers to `delivery_location`.
    pub fn remove_delivery_location(&mut self, delivery_location: Coordinates)
        ensures
            final(self)@ == (ShippingAgentView {
                delivery_locations: without_place(
                    old(self)@.delivery_locations,
                    delivery_location@,
                ),
                ..old(self)@
            }),
    {
        self.delivery_locations = remove_place(&self.delivery_locations, &delivery_location);
    }

    pub fn can_pickup_from(&self, pickup_location: &Coordinates) -> (can: bool)
        ensures
            can == self@.pickup_locations.contains(pickup_location@),
    {
        contains_coordinates(&self.pickup_locations, pickup_location)
    }

    pub fn can_deliver_to(&self, delivery_location: &Coordinates) -> (can: bool)
        ensures
            can == self@.delivery_locations.contains(delivery_location@),
    {
        contains_coordinates(&self.delivery_locations, delivery_location)
    }

    pub fn can_ship(&self, pickup_location: &Coordinates, delivery_location: &Coordinates) -> (can:
        bool)
        ensures
            can == self@.can_ship(pickup_location@, delivery_location@),
    {
        self.can_pickup_from(pickup_location) && self.can_deliver_to(delivery_location)
    }
}

} // verus!
