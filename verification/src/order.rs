//! Orders and the manifests under which they are shipped.

use vstd::prelude::*;
use crate::types::{
    clone_coordinates, clone_coordinates_list, coordinates_seq, same_coordinates, AccountId,
    Coordinates, CoordinatesView, UniqueId,
};

verus! {

/// The states of an order. An order starts as `Confirmed`, is `InProgress`
/// while it is shipped and `Completed` once it is delivered.
#[derive(Clone, Copy, Debug, PartialEq, Eq, Structural)]
pub enum OrderStatus {
    Failed,
    Pending,
    InProgress,
    Completed,
    Cancelled,
    Confirmed,
}

/// A purchase of units of one material, from a supplier, by a manufacturer.
#[derive(Debug, PartialEq, Eq)]
pub struct Order {
    pub order_id: UniqueId,
    pub supplier: AccountId,
    pub manufacturer: AccountId,
    pub material_id: UniqueId,
    pub raw_material_units: Vec<UniqueId>,
    pub shipping_agent: AccountId,
    pub shipping_manifest: Option<UniqueId>,
    pub delivery_location: Coordinates,
    pub delivery_token: UniqueId,
    pub status: Vec<OrderStatus>,
}

/// What an `Order` holds.
pub struct OrderView {
    pub order_id: UniqueId,
    pub supplier: AccountId,
    pub manufacturer: AccountId,
    pub material_id: UniqueId,
    pub raw_material_units: Seq<UniqueId>,
    pub shipping_agent: AccountId,
    pub shipping_manifest: Option<UniqueId>,
    pub delivery_location: CoordinatesView,
    pub delivery_token: UniqueId,
    pub status: Seq<OrderStatus>,
}

impl View for Order {
    type V = OrderView;

    open spec fn view(&self) -> OrderView {
        OrderView {
            order_id: self.order_id,
            supplier: self.supplier,
            manufacturer: self.manufacturer,
            material_id: self.material_id,
            raw_material_units: self.raw_material_units@,
            shipping_agent: self.shipping_agent,
            shipping_manifest: self.shipping_manifest,
            delivery_location: self.delivery_location@,
            delivery_token: self.delivery_token,
            status: self.status@,
        }
    }
}

impl OrderView {
    /// The order's current status: the last entry of its status history.
    pub open spec fn current_status(self) -> Option<OrderStatus> {
        if self.status.len() > 0 {
            Some(self.status.last())
        } else {
            None
        }
    }

    /// The status history is a beginning of the path of an order: first
    /// `Confirmed`, then `InProgress`, then `Completed`.
    pub open spec fn on_path(self) -> bool {
        &&& 1 <= self.status.len() <= 3
        &&& self.status[0] == OrderStatus::Confirmed
        &&& self.status.len() >= 2 ==> self.status[1] == OrderStatus::InProgress
        &&& self.status.len() >= 3 ==> self.status[2] == OrderStatus::Completed
    }

    /// The order is confirmed and has not been shipped: its current status
    /// is `Confirmed`, and it names no manifest.
    pub open spec fn awaits_shipment(self) -> bool {
        self.current_status() == Some(OrderStatus::Confirmed) && self.shipping_manifest is None
    }

    /// The order is being shipped: its current status is `InProgress`.
    pub open spec fn is_under_way(self) -> bool {
        self.current_status() == Some(OrderStatus::InProgress)
    }
}

impl Clone for Order {
    fn clone(&self) -> (copy: Self)
        ensures
            copy@ == self@,
    {
        Order {
            order_id: self.order_id,
            supplier: self.supplier,
            manufacturer: self.manufacturer,
            material_id: self.material_id,
            raw_material_units: self.raw_material_units.clone(),
            shipping_agent: self.shipping_agent,
            shipping_manifest: self.shipping_manifest,
            delivery_location: clone_coordinates(&self.delivery_location),
            delivery_token: self.delivery_token,
            status: self.status.clone(),
        }
    }
}

impl Order {
    /// A new order, not yet shipped, whose status history starts with
    /// `status`.
    pub fn new(
        order_id: UniqueId,
        supplier: AccountId,
        manufacturer: AccountId,
        shipping_agent: AccountId,
        material_id: UniqueId,
        raw_material_units: Vec<UniqueId>,
        delivery_location: Coordinates,
        delivery_token: UniqueId,
        status: OrderStatus,
    ) -> (order: Self)
        ensures
            order@ == (OrderView {
                order_id,
                supplier,
                manufacturer,
                material_id,
                raw_material_units: raw_material_units@,
                shipping_agent,
                shipping_manifest: None,
                delivery_location: delivery_location@,
                delivery_token,
                status: seq![status],
            }),
    {
        let mut history: Vec<OrderStatus> = Vec::new();
        history.push(status);
        assert(history@ =~= seq![status]);
        Self {
            order_id,
            supplier,
            manufacturer,
            material_id,
            raw_material_units,
            shipping_agent,
            shipping_manifest: None,
            delivery_location,
            delivery_token,
            status: history,
        }
    }

    pub fn get_id(&self) -> (id: UniqueId)
        ensures
            id == self@.order_id,
    {
        self.order_id
    }

    pub fn get_supplier(&self) -> (supplier: AccountId)
        ensures
            supplier == self@.supplier,
    {
        self.supplier
    }

    pub fn get_material_id(&self) -> (id: UniqueId)
        ensures
            id == self@.material_id,
    {
        self.material_id
    }

    pub fn get_delivery_location(&self) -> (place: Coordinates)
        ensures
            place@ == self@.delivery_location,
    {
        clone_coordinates(&self.delivery_location)
    }

    pub fn is_supplier(&self, supplier_id: &AccountId) -> (yes: bool)
        ensures
            yes == (self@.supplier == *supplier_id),
    {
        self.supplier == *supplier_id
    }

    pub fn is_manufacturer(&self, manufacturer_id: &AccountId) -> (yes: bool)
        ensures
            yes == (self@.manufacturer == *manufacturer_id),
    {
        self.manufacturer == *manufacturer_id
    }

    pub fn is_shipping_agent(&self, shipping_agent_id: &AccountId) -> (yes: bool)
        ensures
            yes == (self@.shipping_agent == *shipping_agent_id),
    {
        self.shipping_agent == *shipping_agent_id
    }

    pub fn get_manufacturer(&self) -> (manufacturer: AccountId)
        ensures
            manufacturer == self@.manufacturer,
    {
        self.manufacturer
    }

    pub fn get_raw_material_units(&self) -> (units: Vec<UniqueId>)
        ensures
            units@ == self@.raw_material_units,
    {
        self.raw_material_units.clone()
    }

    pub fn set_shipping_manifest(&mut self, shipping_manifest: UniqueId)
        ensures
            final(self)@ == (OrderView {
                shipping_manifest: Some(shipping_manifest),
                ..old(self)@
            }),
    {
        self.shipping_manifest = Some(shipping_manifest);
    }

    pub fn get_shipping_agent(&self) -> (agent: AccountId)
        ensures
            agent == self@.shipping_agent,
    {
        self.shipping_agent
    }

    pub fn get_shipping_manifest(&self) -> (manifest: Option<UniqueId>)
        ensures
            manifest == self@.shipping_manifest,
    {
        self.shipping_manifest
    }

    /// The order's current status: the last entry of its status history.
    pub fn get_status(&self) -> (status: OrderStatus)
        requires
            self@.status.len() > 0,
        ensures
            status == self@.status.last(),
    {
        self.status[self.status.len() - 1]
    }

    /// Whether the status history is a beginning of `Confirmed`,
    /// `InProgress`, `Completed`.
    pub fn is_on_path(&self) -> (yes: bool)
        ensures
            yes == self@.on_path(),
    {
        let n = self.status.len();
        1 <= n && n <= 3 && self.status[0] == OrderStatus::Confirmed && (n < 2 || self.status[1]
            == OrderStatus::InProgress) && (n < 3 || self.status[2] == OrderStatus::Completed)
    }

    /// Whether the order is confirmed and has not been shipped.
    pub fn awaits_shipment(&self) -> (yes: bool)
        ensures
            yes == self@.awaits_shipment(),
    {
        self.status.len() > 0 && self.status[self.status.len() - 1] == OrderStatus::Confirmed
            && self.shipping_manifest.is_none()
    }

    /// Whether the order is being shipped.
    pub fn is_under_way(&self) -> (yes: bool)
        ensures
            yes == self@.is_under_way(),
    {
        self.status.len() > 0 && self.status[self.status.len() - 1] == OrderStatus::InProgress
    }

    /// Appends `status` to the status history; nothing is rewritten.
    pub fn add_status(&mut self, status: OrderStatus)
        ensures
            final(self)@ == (OrderView { status: old(self)@.status.push(status), ..old(self)@ }),
    {
        self.status.push(status);
    }

    /// The delivery token, for the manufacturer and for nobody else.
    pub fn get_delivery_token(&self, actor: AccountId) -> (token: Option<UniqueId>)
        ensures
            token == if self@.manufacturer == actor {
                Some(self@.delivery_token)
            } else {
                None
            },
    {
        if self.is_manufacturer(&actor) {
            Some(self.delivery_token)
        } else {
            None
        }
    }

    pub fn is_delivery_token(&self, delivery_token: &UniqueId) -> (yes: bool)
        ensures
            yes == (self@.delivery_token == *delivery_token),
    {
        self.delivery_token == *delivery_token
    }
}

/// The record of one shipment: which order it serves, who carries it, from
/// where to where, and the places it has passed.
#[derive(Debug, PartialEq, Eq)]
pub struct ShippingManifest {
    pub manifest_id: UniqueId,
    pub order_id: UniqueId,
    pub shipping_agent: AccountId,
    pub pickup_location: Coordinates,
    pub delivery_location: Coordinates,
    pub route_history: Vec<Coordinates>,
    pub raw_material_units: Vec<UniqueId>,
    pub status: OrderStatus,
}

/// What a `ShippingManifest` holds.
pub struct ShippingManifestView {
    pub manifest_id: UniqueId,
    pub order_id: UniqueId,
    pub shipping_agent: AccountId,
    pub pickup_location: CoordinatesView,
    pub delivery_location: CoordinatesView,
    pub route_history: Seq<CoordinatesView>,
    pub raw_material_units: Seq<UniqueId>,
    pub status: OrderStatus,
}

impl View for ShippingManifest {
    type V = ShippingManifestView;

    open spec fn view(&self) -> ShippingManifestView {
        ShippingManifestView {
            manifest_id: self.manifest_id,
            order_id: self.order_id,
            shipping_agent: self.shipping_agent,
            pickup_location: self.pickup_location@,
            delivery_location: self.delivery_location@,
            route_history: coordinates_seq(self.route_history@),
            raw_material_units: self.raw_material_units@,
            status: self.status,
        }
    }
}

impl Clone for ShippingManifest {
    fn clone(&self) -> (copy: Self)
        ensures
            copy@ == self@,
    {
        ShippingManifest {
            manifest_id: self.manifest_id,
            order_id: self.order_id,
            shipping_agent: self.shipping_agent,
            pickup_location: clone_coordinates(&self.pickup_location),
            delivery_location: clone_coordinates(&self.delivery_location),
            route_history: clone_coordinates_list(&self.route_history),
            raw_material_units: self.raw_material_units.clone(),
            status: self.status,
        }
    }
}

impl ShippingManifest {
    /// A manifest for a shipment that has not moved yet.
    pub fn new(
        manifest_id: UniqueId,
        order_id: UniqueId,
        shipping_agent: AccountId,
        pickup_location: Coordinates,
        delivery_location: Coordinates,
        raw_material_units: Vec<UniqueId>,
        status: OrderStatus,
    ) -> (manifest: Self)
        ensures
            manifest@ == (ShippingManifestView {
                manifest_id,
                order_id,
                shipping_agent,
                pickup_location: pickup_location@,
                delivery_location: delivery_location@,
                route_history: Seq::empty(),
                raw_material_units: raw_material_units@,
                status,
            }),
    {
        let manifest = Self {
            manifest_id,
            order_id,
            shipping_agent,
            pickup_location,
            delivery_location,
            route_history: Vec::new(),
            raw_material_units,
            status,
        };
        assert(manifest@.route_history =~= Seq::empty());
        manifest
    }

    pub fn get_manifest_id(&self) -> (id: UniqueId)
        ensures
            id == self@.manifest_id,
    {
        self.manifest_id
    }

    pub fn get_order_id(&self) -> (id: UniqueId)
        ensures
            id == self@.order_id,
    {
        self.order_id
    }

    pub fn get_raw_material_units(&self) -> (units: Vec<UniqueId>)
        ensures
            units@ == self@.raw_material_units,
    {
        self.raw_material_units.clone()
    }

    pub fn get_shipping_agent(&self) -> (agent: AccountId)
        ensures
            agent == self@.shipping_agent,
    {
        self.shipping_agent
    }

    pub fn get_pickup_location(&self) -> (place: Coordinates)
        ensures
            place@ == self@.pickup_location,
    {
        clone_coordinates(&self.pickup_location)
    }

    pub fn get_delivery_location(&self) -> (place: Coordinates)
        ensures
            place@ == self@.delivery_location,
    {
        clone_coordinates(&self.delivery_location)
    }

    pub fn is_delivery_location(&self, delivery_location: &Coordinates) -> (yes: bool)
        ensures
            yes == (self@.delivery_location == delivery_location@),
    {
        same_coordinates(&self.delivery_location, delivery_location)
    }

    pub fn is_shipping_agent(&self, shipping_agent_id: &AccountId) -> (yes: bool)
        ensures
            yes == (self@.shipping_agent == *shipping_agent_id),
    {
        self.shipping_agent == *shipping_agent_id
    }

    /// Appends `location` to the route, on behalf of `actor_id`. Only the
    /// manifest's shipping agent changes the route.
    pub fn add_route_history(&mut self, location: Coordinates, actor_id: &AccountId)
        ensures
            final(self)@ == if old(self)@.shipping_agent == *actor_id {
                ShippingManifestView {
                    route_history: old(self)@.route_history.push(location@),
                    ..old(self)@
                }
            } else {
                old(self)@
            },
    {
        if self.is_shipping_agent(actor_id) {
            self.route_history.push(location);
            assert(self@.route_history =~= old(self)@.route_history.push(location@));
        }
    }
}

} // verus!
