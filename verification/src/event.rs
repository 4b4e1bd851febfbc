//! What an operation of the ledger reports: an event when it went through,
//! an error when it was refused.

use std::collections::BTreeMap;
use vstd::prelude::*;
use crate::inventory::stock;
use crate::order::OrderStatus;
use crate::types::{coordinates_seq, AccountId, Coordinates, CoordinatesView, UniqueId};

verus! {

/// Why an operation was refused. A refused operation changes nothing.
#[derive(Clone, Copy, Debug, PartialEq, Eq, Structural)]
pub enum Error {
    ActorAlreadyExists,
    ResourceDoesNotExist,
    UnathorisedRequest,
    InvalidShippingAgents,
    InsufficientUnits,
    UnsupportedShippingAgent,
    PaymentFailed,
    InvalidPropreitaryDataKey,
}

/// A row of an owner or custodian history as it is reported: the account,
/// unless it is withheld, then index, start time and end time.
pub type AccountRow = (Option<AccountId>, Option<u32>, Option<u32>, Option<u32>);

/// A row of a location history as it is reported.
pub type LocationRow = (Option<Coordinates>, Option<u32>, Option<u32>, Option<u32>);

/// What a `LocationRow` holds.
pub type LocationRowView = (Option<CoordinatesView>, Option<u32>, Option<u32>, Option<u32>);

/// What a location row holds.
pub open spec fn location_row(row: LocationRow) -> LocationRowView {
    (
        match row.0 {
            Some(place) => Some(place@),
            None => None,
        },
        row.1,
        row.2,
        row.3,
    )
}

/// What a list of location rows holds.
pub open spec fn location_rows(list: Seq<LocationRow>) -> Seq<LocationRowView> {
    list.map_values(|row: LocationRow| location_row(row))
}

/// What an operation that went through reports.
#[allow(inconsistent_fields)]
#[derive(Debug, PartialEq, Eq)]
pub enum Event {
    ActorRegistered { account: AccountId, actor_type: Vec<u8> },
    ActorsRetreived { actors: Vec<AccountId> },
    HasMaterialsActorDetailsRetreived {
        account_id: AccountId,
        company_name: Vec<u8>,
        ceritification_authority: Vec<u8>,
        ceritification_number: Vec<u8>,
        raw_materials: Option<BTreeMap<UniqueId, Vec<UniqueId>>>,
        orders: Option<Vec<UniqueId>>,
    },
    ShippingAgentDetailsRetrieved {
        account_id: AccountId,
        company_name: Vec<u8>,
        ceritification_authority: Vec<u8>,
        ceritification_number: Vec<u8>,
        pickup_locations: Vec<Coordinates>,
        delivery_locations: Vec<Coordinates>,
        manifests: Option<Vec<UniqueId>>,
    },
    ResourcesRetreived { name: Vec<u8>, resources: Vec<UniqueId> },
    OrderCreated {
        order_id: UniqueId,
        supplier: AccountId,
        manufacturer: AccountId,
        material_id: UniqueId,
        raw_material_units: Vec<UniqueId>,
        shipping_agent: AccountId,
        status: OrderStatus,
    },
    OrderShipped {
        order_id: UniqueId,
        manifest_id: UniqueId,
        shipping_agent: AccountId,
        status: OrderStatus,
    },
    ShippingLocationUpdated {
        manifest_id: UniqueId,
        location: Coordinates,
        shipping_agent: AccountId,
    },
    OrderCompleted { order_id: UniqueId, manifest_id: UniqueId, status: OrderStatus },
    RawMaterialUnitDataRetrieved {
        material_id: UniqueId,
        material_name: Vec<u8>,
        material_price: u32,
        unit_id: UniqueId,
        owner_history: Vec<AccountRow>,
        custodian_history: Vec<AccountRow>,
        location_history: Vec<LocationRow>,
    },
    RawMaterialUnitAccessLevelUpdate { material_unit_id: UniqueId, status: bool },
}

/// What an `Event` holds.
#[allow(inconsistent_fields)]
pub enum EventView {
    ActorRegistered { account: AccountId, actor_type: Seq<u8> },
    ActorsRetreived { actors: Seq<AccountId> },
    HasMaterialsActorDetailsRetreived {
        account_id: AccountId,
        company_name: Seq<u8>,
        ceritification_authority: Seq<u8>,
        ceritification_number: Seq<u8>,
        raw_materials: Option<Map<UniqueId, Seq<UniqueId>>>,
        orders: Option<Seq<UniqueId>>,
    },
    ShippingAgentDetailsRetrieved {
        account_id: AccountId,
        company_name: Seq<u8>,
        ceritification_authority: Seq<u8>,
        ceritification_number: Seq<u8>,
        pickup_locations: Seq<CoordinatesView>,
        delivery_locations: Seq<CoordinatesView>,
        manifests: Option<Seq<UniqueId>>,
    },
    ResourcesRetreived { name: Seq<u8>, resources: Seq<UniqueId> },
    OrderCreated {
        order_id: UniqueId,
        supplier: AccountId,
        manufacturer: AccountId,
        material_id: UniqueId,
        raw_material_units: Seq<UniqueId>,
        shipping_agent: AccountId,
        status: OrderStatus,
    },
    OrderShipped {
        order_id: UniqueId,
        manifest_id: UniqueId,
        shipping_agent: AccountId,
        status: OrderStatus,
    },
    ShippingLocationUpdated {
        manifest_id: UniqueId,
        location: CoordinatesView,
        shipping_agent: AccountId,
    },
    OrderCompleted { order_id: UniqueId, manifest_id: UniqueId, status: OrderStatus },
    RawMaterialUnitDataRetrieved {
        material_id: UniqueId,
        material_name: Seq<u8>,
        material_price: u32,
        unit_id: UniqueId,
        owner_history: Seq<AccountRow>,
        custodian_history: Seq<AccountRow>,
        location_history: Seq<LocationRowView>,
    },
    RawMaterialUnitAccessLevelUpdate { material_unit_id: UniqueId, status: bool },
}

impl View for Event {
    type V = EventView;

    open spec fn view(&self) -> EventView {
        match *self {
            Event::ActorRegistered { account, actor_type } => EventView::ActorRegistered {
                account,
                actor_type: actor_type@,
            },
            Event::ActorsRetreived { actors } => EventView::ActorsRetreived { actors: actors@ },
            Event::HasMaterialsActorDetailsRetreived {
                account_id,
                company_name,
                ceritification_authority,
                ceritification_number,
                raw_materials,
                orders,
            } => EventView::HasMaterialsActorDetailsRetreived {
                account_id,
                company_name: company_name@,
                ceritification_authority: ceritification_authority@,
                ceritification_number: ceritification_number@,
                raw_materials: match raw_materials {
                    Some(map) => Some(stock(map@)),
                    None => None,
                },
                orders: match orders {
                    Some(list) => Some(list@),
                    None => None,
                },
            },
            Event::ShippingAgentDetailsRetrieved {
                account_id,
                company_name,
                ceritification_authority,
                ceritification_number,
                pickup_locations,
                delivery_locations,
                manifests,
            } => EventView::ShippingAgentDetailsRetrieved {
                account_id,
                company_name: company_name@,
                ceritification_authority: ceritification_authority@,
                ceritification_number: ceritification_number@,
                pickup_locations: coordinates_seq(pickup_locations@),
                delivery_locations: coordinates_seq(delivery_locations@),
                manifests: match manifests {
                    Some(list) => Some(list@),
                    None => None,
                },
            },
            Event::ResourcesRetreived { name, resources } => EventView::ResourcesRetreived {
                name: name@,
                resources: resources@,
            },
            Event::OrderCreated {
                order_id,
                supplier,
                manufacturer,
                material_id,
                raw_material_units,
                shipping_agent,
                status,
            } => EventView::OrderCreated {
                order_id,
                supplier,
                manufacturer,
                material_id,
                raw_material_units: raw_material_units@,
                shipping_agent,
                status,
            },
            Event::OrderShipped { order_id, manifest_id, shipping_agent, status } => {
                EventView::OrderShipped { order_id, manifest_id, shipping_agent, status }
            },
            Event::ShippingLocationUpdated { manifest_id, location, shipping_agent } => {
                EventView::ShippingLocationUpdated {
                    manifest_id,
                    location: location@,
                    shipping_agent,
                }
            },
            Event::OrderCompleted { order_id, manifest_id, status } => EventView::OrderCompleted {
                order_id,
                manifest_id,
                status,
            },
            Event::RawMaterialUnitDataRetrieved {
                material_id,
                material_name,
                material_price,
                unit_id,
                owner_history,
                custodian_history,
                location_history,
            } => EventView::RawMaterialUnitDataRetrieved {
                material_id,
                material_name: material_name@,
                material_price,
                unit_id,
                owner_history: owner_history@,
                custodian_history: custodian_history@,
                location_history: location_rows(location_history@),
            },
            Event::RawMaterialUnitAccessLevelUpdate { material_unit_id, status } => {
                EventView::RawMaterialUnitAccessLevelUpdate { material_unit_id, status }
            },
        }
    }
}

} // verus!
