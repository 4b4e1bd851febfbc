//! The operations of the workflow as functions on what the ledger holds:
//! for each, when it is refused and with what, and what the ledger holds
//! after it went through. That each of them keeps what holds of the ledger
//! between operations is proved here.

use vstd::prelude::*;
use crate::access::{AccessLevel, ProprietaryData};
use crate::actor::{MaterialHolderView, ShippingAgentView};
use crate::event::Error;
use crate::history::{
    lemma_appended_well_formed, lemma_first_active_is, lemma_room_to_append,
    well_formed,
};
use crate::inventory::available;
use crate::ledger::{holds, PalletView};
use crate::material::{RawMaterialShippingView, RawMaterialView};
use crate::order::{OrderStatus, OrderView, ShippingManifestView};
use crate::record::{ProprietaryDataInputView, RecordView};
use crate::types::{AccountId, CoordinatesView, UniqueId};
use crate::unit::{carries_active, RawMaterialUnitView};

verus! {

/// A record with payload `payload` that starts at `now`: active, visible to
/// everyone, not yet placed in a history.
pub open spec fn fresh_record<P>(payload: P, now: u32) -> RecordView<P> {
    RecordView {
        payload,
        data: ProprietaryData {
            index: None,
            start_time: now,
            end_time: None,
            visibility: AccessLevel::AllUsers,
        },
    }
}

/// The units `units` after the record that `input` carries has been
/// appended, at time `now`, to its history of each unit that `ids` names.
pub open spec fn units_updated(
    units: Map<UniqueId, RawMaterialUnitView>,
    ids: Seq<UniqueId>,
    input: ProprietaryDataInputView,
    now: u32,
) -> Map<UniqueId, RawMaterialUnitView> {
    Map::new(
        |id: UniqueId| units.contains_key(id),
        |id: UniqueId|
            if ids.contains(id) {
                units[id].updated(input, now)
            } else {
                units[id]
            },
    )
}

/// Every unit that `ids` names is a well-formed unit of `units` that can
/// take the record that `input` carries.
pub open spec fn units_ready(
    units: Map<UniqueId, RawMaterialUnitView>,
    ids: Seq<UniqueId>,
    input: ProprietaryDataInputView,
) -> bool {
    forall|i: int|
        0 <= i < ids.len() ==> {
            &&& units.contains_key(#[trigger] ids[i])
            &&& units[ids[i]].well_formed()
            &&& units[ids[i]].room_for(input)
        }
}

/// A well-formed unit with room can take the record that the input carries.
pub proof fn lemma_unit_can_update(unit: RawMaterialUnitView, input: ProprietaryDataInputView)
    requires
        unit.well_formed(),
        unit.room_for(input),
    ensures
        unit.can_update(input),
{
    match input {
        ProprietaryDataInputView::Owner(Some(_)) => {
            lemma_room_to_append(unit.owners);
        },
        ProprietaryDataInputView::Custodian(Some(_)) => {
            lemma_room_to_append(unit.custodians);
        },
        ProprietaryDataInputView::Location(Some(_)) => {
            lemma_room_to_append(unit.locations);
        },
        _ => {},
    }
}

/// What an update with an active record leaves as it was, and what it
/// changes: the unit stays well-formed and seeded and keeps its identity; a
/// new owner is the owner, and the owner history has grown by one; a new
/// custodian or location leaves the owner history alone.
pub proof fn lemma_unit_updated(unit: RawMaterialUnitView, input: ProprietaryDataInputView, now: u32)
    requires
        unit.well_formed(),
        unit.room_for(input),
        carries_active(input),
    ensures
        unit.updated(input, now).well_formed(),
        unit.updated(input, now).unit_id == unit.unit_id,
        unit.updated(input, now).material_id == unit.material_id,
        unit.seeded() ==> unit.updated(input, now).seeded(),
        input matches ProprietaryDataInputView::Owner(Some(r)) ==> {
            &&& unit.updated(input, now).current_owner() == Some(r.payload)
            &&& unit.updated(input, now).owners.len() == unit.owners.len() + 1
            &&& unit.updated(input, now).custodians == unit.custodians
            &&& unit.updated(input, now).locations == unit.locations
        },
        input matches ProprietaryDataInputView::Custodian(Some(r)) ==> {
            &&& unit.updated(input, now).current_custodian() == Some(r.payload)
            &&& unit.updated(input, now).custodians.len() == unit.custodians.len() + 1
            &&& unit.updated(input, now).owners == unit.owners
            &&& unit.updated(input, now).locations == unit.locations
        },
        input matches ProprietaryDataInputView::Location(Some(r)) ==> {
            &&& unit.updated(input, now).current_location() == Some(r.payload)
            &&& unit.updated(input, now).locations.len() == unit.locations.len() + 1
            &&& unit.updated(input, now).owners == unit.owners
            &&& unit.updated(input, now).custodians == unit.custodians
        },
        !(input is Owner) ==> unit.updated(input, now).owners == unit.owners,
{
    lemma_unit_can_update(unit, input);
    match input {
        ProprietaryDataInputView::Owner(Some(r)) => {
            lemma_appended_well_formed(unit.owners, r, now);
            let after = unit.updated(input, now).owners;
            lemma_first_active_is(after, after.len() - 1);
        },
        ProprietaryDataInputView::Custodian(Some(r)) => {
            lemma_appended_well_formed(unit.custodians, r, now);
            let after = unit.updated(input, now).custodians;
            lemma_first_active_is(after, after.len() - 1);
        },
        ProprietaryDataInputView::Location(Some(r)) => {
            lemma_appended_well_formed(unit.locations, r, now);
            let after = unit.updated(input, now).locations;
            lemma_first_active_is(after, after.len() - 1);
        },
        _ => {},
    }
}

/// The ledger `pre` with the units `units_updated(.., ids, input, now)`.
pub open spec fn with_units_updated(
    pre: PalletView,
    ids: Seq<UniqueId>,
    input: ProprietaryDataInputView,
    now: u32,
) -> PalletView {
    PalletView {
        raw_material_units: units_updated(pre.raw_material_units, ids, input, now),
        ..pre
    }
}

/// New custodians and new locations keep what holds of the ledger.
pub proof fn lemma_units_updated_inv(
    pre: PalletView,
    ids: Seq<UniqueId>,
    input: ProprietaryDataInputView,
    now: u32,
)
    requires
        pre.inv(),
        units_ready(pre.raw_material_units, ids, input),
        carries_active(input),
        !(input is Owner),
    ensures
        with_units_updated(pre, ids, input, now).inv(),
        with_units_updated(pre, ids, input, now).raw_material_units.dom()
            == pre.raw_material_units.dom(),
{
    let post = with_units_updated(pre, ids, input, now);
    assert(post.raw_material_units.dom() =~= pre.raw_material_units.dom());
    assert forall|id: UniqueId| #[trigger] post.raw_material_units.contains_key(id) implies {
        &&& post.raw_material_units[id].unit_id == id
        &&& post.raw_material_units[id].well_formed()
        &&& post.raw_material_units[id].seeded()
        &&& post.raw_material_units[id].owners == pre.raw_material_units[id].owners
        &&& post.raw_material_units[id].material_id == pre.raw_material_units[id].material_id
    } by {
        assert(pre.raw_material_units.contains_key(id));
        if ids.contains(id) {
            let i = choose|i: int| 0 <= i < ids.len() && ids[i] == id;
            assert(pre.raw_material_units[ids[i]].room_for(input));
            lemma_unit_updated(pre.raw_material_units[id], input, now);
        }
    }
    assert(post.units_sound());
    assert forall|s: AccountId| #[trigger] post.suppliers.contains_key(s) implies post.stock_sound(
        s,
        post.suppliers[s].material_manager,
        0,
    ) by {
        assert(pre.stock_sound(s, pre.suppliers[s].material_manager, 0));
    }
    assert forall|a: AccountId| #[trigger]
        post.manufacturers.contains_key(a) implies post.stock_sound(
        a,
        post.manufacturers[a].material_manager,
        1,
    ) by {
        assert(pre.stock_sound(a, pre.manufacturers[a].material_manager, 1));
    }
    assert(post.inventories_sound());
    assert(post.orders_sound());
    assert(post.manifests_sound());
}

impl PalletView {
    /// Why the shipment of the order `order_id` by `sender` is refused, if
    /// it is: the order, the agent and the material must exist, `sender`
    /// must be the order's shipping agent, and the order must be confirmed
    /// and not yet shipped. An order is shipped once: a request to ship an
    /// order that names a manifest already, or whose current status is not
    /// `Confirmed`, is not authorised, whoever makes it.
    pub open spec fn shipment_error(self, sender: AccountId, order_id: UniqueId) -> Option<Error> {
        if !self.orders.contains_key(order_id) {
            Some(Error::ResourceDoesNotExist)
        } else if self.orders[order_id].shipping_agent != sender {
            Some(Error::UnathorisedRequest)
        } else if !self.orders[order_id].awaits_shipment() {
            Some(Error::UnathorisedRequest)
        } else if !self.shipping_agents.contains_key(sender) {
            Some(Error::ResourceDoesNotExist)
        } else if !self.raw_materials.contains_key(self.orders[order_id].material_id) {
            Some(Error::ResourceDoesNotExist)
        } else {
            None
        }
    }

    /// The manifest that the shipment of the order `order_id` by `sender`
    /// creates.
    pub open spec fn new_manifest(self, sender: AccountId, order_id: UniqueId)
        -> ShippingManifestView {
        let order = self.orders[order_id];
        ShippingManifestView {
            manifest_id: self.next_id,
            order_id: order.order_id,
            shipping_agent: sender,
            pickup_location: self.raw_materials[order.material_id].1.pickup_location,
            delivery_location: order.delivery_location,
            route_history: Seq::empty(),
            raw_material_units: order.raw_material_units,
            status: OrderStatus::InProgress,
        }
    }

    /// The ledger after `sender` has taken over the units of the order
    /// `order_id` for shipment: `sender` is the custodian of every unit of
    /// the order, a manifest with a fresh identifier binds the order to the
    /// agent, the order names the manifest, and its status history ends with
    /// `InProgress`.
    pub open spec fn shipment_created(self, sender: AccountId, order_id: UniqueId) -> PalletView {
        let order = self.orders[order_id];
        let manifest_id = self.next_id;
        PalletView {
            raw_material_units: units_updated(
                self.raw_material_units,
                order.raw_material_units,
                ProprietaryDataInputView::Custodian(
                    Some(fresh_record(sender, self.block_number)),
                ),
                self.block_number,
            ),
            shipping_manifests: self.shipping_manifests.insert(
                manifest_id,
                self.new_manifest(sender, order_id),
            ),
            shipping_agents: self.shipping_agents.insert(
                sender,
                ShippingAgentView {
                    manifests: self.shipping_agents[sender].manifests.push(manifest_id),
                    ..self.shipping_agents[sender]
                },
            ),
            orders: self.orders.insert(
                order_id,
                OrderView {
                    shipping_manifest: Some(manifest_id),
                    status: order.status.push(OrderStatus::InProgress),
                    ..order
                },
            ),
            next_id: (manifest_id + 1) as u64,
            ..self
        }
    }
}

impl PalletView {
    /// Why a new location of the shipment `manifest_id`, reported by
    /// `sender`, is refused, if it is: the manifest must exist, and `sender`
    /// must be its shipping agent. The status of the order is not asked for.
    pub open spec fn location_error(self, sender: AccountId, manifest_id: UniqueId) -> Option<
        Error,
    > {
        if !self.shipping_manifests.contains_key(manifest_id) {
            Some(Error::ResourceDoesNotExist)
        } else if self.shipping_manifests[manifest_id].shipping_agent != sender {
            Some(Error::UnathorisedRequest)
        } else {
            None
        }
    }

    /// The ledger after the shipment `manifest_id` has reached `location`:
    /// the route has grown by `location`, and `location` is where every unit
    /// of the shipment is.
    pub open spec fn location_updated(self, manifest_id: UniqueId, location: CoordinatesView)
        -> PalletView {
        let manifest = self.shipping_manifests[manifest_id];
        PalletView {
            raw_material_units: units_updated(
                self.raw_material_units,
                manifest.raw_material_units,
                ProprietaryDataInputView::Location(
                    Some(fresh_record(location, self.block_number)),
                ),
                self.block_number,
            ),
            shipping_manifests: self.shipping_manifests.insert(
                manifest_id,
                ShippingManifestView {
                    route_history: manifest.route_history.push(location),
                    ..manifest
                },
            ),
            ..self
        }
    }

    /// Why the delivery of the shipment `manifest_id` by `sender` at
    /// `location` with `delivery_token` is refused, if it is: the manifest
    /// and its order must exist, `sender` must be the manifest's shipping
    /// agent, `location` the manifest's delivery location,
    /// `delivery_token` the order's token, and the order must be under way.
    /// An order is delivered once: a request to deliver an order whose
    /// current status is not `InProgress` is not authorised, whoever makes
    /// it.
    pub open spec fn completion_error(
        self,
        sender: AccountId,
        manifest_id: UniqueId,
        location: CoordinatesView,
        delivery_token: UniqueId,
    ) -> Option<Error> {
        if !self.shipping_manifests.contains_key(manifest_id) {
            Some(Error::ResourceDoesNotExist)
        } else if self.shipping_manifests[manifest_id].shipping_agent != sender {
            Some(Error::UnathorisedRequest)
        } else if self.shipping_manifests[manifest_id].delivery_location != location {
            Some(Error::UnathorisedRequest)
        } else if !self.orders.contains_key(self.shipping_manifests[manifest_id].order_id) {
            Some(Error::ResourceDoesNotExist)
        } else if self.orders[self.shipping_manifests[manifest_id].order_id].delivery_token
            != delivery_token {
            Some(Error::UnathorisedRequest)
        } else if !self.orders[self.shipping_manifests[manifest_id].order_id].is_under_way() {
            Some(Error::UnathorisedRequest)
        } else {
            None
        }
    }

    /// The ledger after the shipment `manifest_id` has been delivered at
    /// `location`: the route ends with `location`, every unit of the
    /// shipment is at `location` and in the custody of the order's
    /// manufacturer, and the order's status history ends with `Completed`.
    pub open spec fn shipment_completed(self, manifest_id: UniqueId, location: CoordinatesView)
        -> PalletView {
        let manifest = self.shipping_manifests[manifest_id];
        let order = self.orders[manifest.order_id];
        PalletView {
            raw_material_units: units_updated(
                units_updated(
                    self.raw_material_units,
                    manifest.raw_material_units,
                    ProprietaryDataInputView::Location(
                        Some(fresh_record(location, self.block_number)),
                    ),
                    self.block_number,
                ),
                manifest.raw_material_units,
                ProprietaryDataInputView::Custodian(
                    Some(fresh_record(order.manufacturer, self.block_number)),
                ),
                self.block_number,
            ),
            shipping_manifests: self.shipping_manifests.insert(
                manifest_id,
                ShippingManifestView {
                    route_history: manifest.route_history.push(location),
                    ..manifest
                },
            ),
            orders: self.orders.insert(
                manifest.order_id,
                OrderView { status: order.status.push(OrderStatus::Completed), ..order },
            ),
            ..self
        }
    }
}

/// A new location of a shipment keeps what holds of the ledger.
pub proof fn lemma_location_updated_inv(
    pre: PalletView,
    sender: AccountId,
    manifest_id: UniqueId,
    location: CoordinatesView,
)
    requires
        pre.inv(),
        pre.locations_room(pre.shipping_manifests[manifest_id].raw_material_units),
        pre.location_error(sender, manifest_id) is None,
    ensures
        pre.location_updated(manifest_id, location).inv(),
        units_ready(
            pre.raw_material_units,
            pre.shipping_manifests[manifest_id].raw_material_units,
            ProprietaryDataInputView::Location(Some(fresh_record(location, pre.block_number))),
        ),
{
    let manifest = pre.shipping_manifests[manifest_id];
    let input = ProprietaryDataInputView::Location(Some(fresh_record(location, pre.block_number)));
    assert(units_ready(pre.raw_material_units, manifest.raw_material_units, input)) by {
        assert forall|i: int| 0 <= i < manifest.raw_material_units.len() implies {
            &&& pre.raw_material_units.contains_key(#[trigger] manifest.raw_material_units[i])
            &&& pre.raw_material_units[manifest.raw_material_units[i]].well_formed()
            &&& pre.raw_material_units[manifest.raw_material_units[i]].room_for(input)
        } by {
            assert(pre.raw_material_units.contains_key(
                pre.shipping_manifests[manifest_id].raw_material_units[i],
            ));
        }
    }
    let mid = with_units_updated(pre, manifest.raw_material_units, input, pre.block_number);
    lemma_units_updated_inv(pre, manifest.raw_material_units, input, pre.block_number);
    let post = pre.location_updated(manifest_id, location);
    assert(post.orders.dom() =~= mid.orders.dom());
    assert(post.shipments_sound()) by {
        assert forall|id: UniqueId| #[trigger] post.orders.contains_key(id) implies post.order_on_path(
            id,
        ) by {
            assert(pre.order_on_path(id));
        }
        assert forall|id: UniqueId| #[trigger]
            post.shipping_manifests.contains_key(id) implies post.manifest_bound(id) by {
            assert(pre.shipping_manifests.contains_key(id));
            assert(pre.manifest_bound(id));
        }
    }
    lemma_rest_kept(mid, post);
}

/// Two ledgers that differ only in what is recorded of orders, manifests
/// and shipping agents, and name the same units there, are sound together.
pub proof fn lemma_rest_kept(mid: PalletView, post: PalletView)
    requires
        mid.inv(),
        post.raw_material_units == mid.raw_material_units,
        post.raw_materials == mid.raw_materials,
        post.suppliers == mid.suppliers,
        post.manufacturers == mid.manufacturers,
        post.next_id >= mid.next_id,
        post.orders.dom() == mid.orders.dom(),
        post.shipments_sound(),
        forall|a: AccountId| #[trigger]
            post.shipping_agents.contains_key(a) ==> post.shipping_agents[a].actor.account == a,
        forall|id: UniqueId| #[trigger]
            mid.orders.contains_key(id) ==> {
                &&& post.orders[id].order_id == mid.orders[id].order_id
                &&& post.orders[id].raw_material_units == mid.orders[id].raw_material_units
                &&& post.orders[id].status.len() >= mid.orders[id].status.len()
            },
        forall|id: UniqueId| #[trigger]
            post.shipping_manifests.contains_key(id) ==> {
                &&& id < post.next_id
                &&& post.shipping_manifests[id].manifest_id == id
                &&& post.shipping_manifests[id].raw_material_units.no_duplicates()
                &&& forall|i: int|
                    0 <= i < post.shipping_manifests[id].raw_material_units.len()
                        ==> post.raw_material_units.contains_key(
                        #[trigger] post.shipping_manifests[id].raw_material_units[i],
                    )
            },
    ensures
        post.inv(),
{
    assert forall|s: AccountId| #[trigger] post.suppliers.contains_key(s) implies post.stock_sound(
        s,
        post.suppliers[s].material_manager,
        0,
    ) by {
        assert(mid.stock_sound(s, mid.suppliers[s].material_manager, 0));
    }
    assert forall|a: AccountId| #[trigger]
        post.manufacturers.contains_key(a) implies post.stock_sound(
        a,
        post.manufacturers[a].material_manager,
        1,
    ) by {
        assert(mid.stock_sound(a, mid.manufacturers[a].material_manager, 1));
    }
    assert forall|id: UniqueId| #[trigger] post.orders.contains_key(id) implies {
        &&& post.orders[id].order_id == id
        &&& post.orders[id].status.len() > 0
        &&& post.orders[id].raw_material_units.no_duplicates()
        &&& forall|i: int|
            0 <= i < post.orders[id].raw_material_units.len()
                ==> post.raw_material_units.contains_key(
                #[trigger] post.orders[id].raw_material_units[i],
            )
    } by {
        assert(mid.orders.contains_key(id));
    }
    assert forall|id: UniqueId| #[trigger] post.orders.contains_key(id) implies id
        < post.next_id by {
        assert(mid.orders.contains_key(id));
    }
}

/// The delivery of a shipment keeps what holds of the ledger.
pub proof fn lemma_shipment_completed_inv(
    pre: PalletView,
    sender: AccountId,
    manifest_id: UniqueId,
    location: CoordinatesView,
    delivery_token: UniqueId,
)
    requires
        pre.inv(),
        pre.locations_room(pre.shipping_manifests[manifest_id].raw_material_units),
        pre.custodians_room(pre.shipping_manifests[manifest_id].raw_material_units),
        pre.completion_error(sender, manifest_id, location, delivery_token) is None,
    ensures
        pre.shipment_completed(manifest_id, location).inv(),
        units_ready(
            pre.raw_material_units,
            pre.shipping_manifests[manifest_id].raw_material_units,
            ProprietaryDataInputView::Location(Some(fresh_record(location, pre.block_number))),
        ),
        units_ready(
            units_updated(
                pre.raw_material_units,
                pre.shipping_manifests[manifest_id].raw_material_units,
                ProprietaryDataInputView::Location(
                    Some(fresh_record(location, pre.block_number)),
                ),
                pre.block_number,
            ),
            pre.shipping_manifests[manifest_id].raw_material_units,
            ProprietaryDataInputView::Custodian(
                Some(
                    fresh_record(
                        pre.orders[pre.shipping_manifests[manifest_id].order_id].manufacturer,
                        pre.block_number,
                    ),
                ),
            ),
        ),
{
    let manifest = pre.shipping_manifests[manifest_id];
    let order = pre.orders[manifest.order_id];
    let ids = manifest.raw_material_units;
    let moved = ProprietaryDataInputView::Location(Some(fresh_record(location, pre.block_number)));
    let handed = ProprietaryDataInputView::Custodian(
        Some(fresh_record(order.manufacturer, pre.block_number)),
    );
    assert(units_ready(pre.raw_material_units, ids, moved)) by {
        assert forall|i: int| 0 <= i < ids.len() implies {
            &&& pre.raw_material_units.contains_key(#[trigger] ids[i])
            &&& pre.raw_material_units[ids[i]].well_formed()
            &&& pre.raw_material_units[ids[i]].room_for(moved)
        } by {
            assert(pre.raw_material_units.contains_key(manifest.raw_material_units[i]));
        }
    }
    let first = with_units_updated(pre, ids, moved, pre.block_number);
    lemma_units_updated_inv(pre, ids, moved, pre.block_number);
    assert(units_ready(first.raw_material_units, ids, handed)) by {
        assert forall|i: int| 0 <= i < ids.len() implies {
            &&& first.raw_material_units.contains_key(#[trigger] ids[i])
            &&& first.raw_material_units[ids[i]].well_formed()
            &&& first.raw_material_units[ids[i]].room_for(handed)
        } by {
            assert(pre.raw_material_units.contains_key(manifest.raw_material_units[i]));
            lemma_unit_updated(pre.raw_material_units[ids[i]], moved, pre.block_number);
        }
    }
    let second = with_units_updated(first, ids, handed, pre.block_number);
    lemma_units_updated_inv(first, ids, handed, pre.block_number);
    let post = pre.shipment_completed(manifest_id, location);
    assert(post.orders.dom() =~= second.orders.dom());
    assert(post.shipments_sound()) by {
        assert(pre.order_on_path(manifest.order_id));
        assert forall|id: UniqueId| #[trigger] post.orders.contains_key(id) implies post.order_on_path(
            id,
        ) by {
            assert(pre.orders.contains_key(id));
            assert(pre.order_on_path(id));
        }
        assert forall|id: UniqueId| #[trigger]
            post.shipping_manifests.contains_key(id) implies post.manifest_bound(id) by {
            assert(pre.shipping_manifests.contains_key(id));
            assert(pre.manifest_bound(id));
        }
    }
    lemma_rest_kept(second, post);
}

/// The creation of a shipment keeps what holds of the ledger.
pub proof fn lemma_shipment_created_inv(pre: PalletView, sender: AccountId, order_id: UniqueId)
    requires
        pre.inv(),
        pre.custodians_room(pre.orders[order_id].raw_material_units),
        pre.next_id < u64::MAX,
        pre.shipment_error(sender, order_id) is None,
    ensures
        pre.shipment_created(sender, order_id).inv(),
        units_ready(
            pre.raw_material_units,
            pre.orders[order_id].raw_material_units,
            ProprietaryDataInputView::Custodian(Some(fresh_record(sender, pre.block_number))),
        ),
{
    let order = pre.orders[order_id];
    let input = ProprietaryDataInputView::Custodian(Some(fresh_record(sender, pre.block_number)));
    assert(units_ready(pre.raw_material_units, order.raw_material_units, input)) by {
        assert forall|i: int| 0 <= i < order.raw_material_units.len() implies {
            &&& pre.raw_material_units.contains_key(#[trigger] order.raw_material_units[i])
            &&& pre.raw_material_units[order.raw_material_units[i]].well_formed()
            &&& pre.raw_material_units[order.raw_material_units[i]].room_for(input)
        } by {
            assert(pre.raw_material_units.contains_key(pre.orders[order_id].raw_material_units[i]));
        }
    }
    let mid = with_units_updated(pre, order.raw_material_units, input, pre.block_number);
    lemma_units_updated_inv(pre, order.raw_material_units, input, pre.block_number);
    let post = pre.shipment_created(sender, order_id);
    assert(post.raw_material_units == mid.raw_material_units);
    assert(post.ids_fresh());
    assert(post.units_sound());
    assert forall|s: AccountId| #[trigger] post.suppliers.contains_key(s) implies post.stock_sound(
        s,
        post.suppliers[s].material_manager,
        0,
    ) by {
        assert(mid.stock_sound(s, mid.suppliers[s].material_manager, 0));
    }
    assert forall|a: AccountId| #[trigger]
        post.manufacturers.contains_key(a) implies post.stock_sound(
        a,
        post.manufacturers[a].material_manager,
        1,
    ) by {
        assert(mid.stock_sound(a, mid.manufacturers[a].material_manager, 1));
    }
    assert(post.inventories_sound());
    assert forall|id: UniqueId| #[trigger] post.orders.contains_key(id) implies {
        &&& post.orders[id].order_id == id
        &&& post.orders[id].status.len() > 0
        &&& post.orders[id].raw_material_units.no_duplicates()
        &&& forall|i: int|
            0 <= i < post.orders[id].raw_material_units.len()
                ==> post.raw_material_units.contains_key(
                #[trigger] post.orders[id].raw_material_units[i],
            )
    } by {
        if id == order_id {
            assert(mid.orders.contains_key(order_id));
        } else {
            assert(mid.orders.contains_key(id));
        }
    }
    assert forall|id: UniqueId| #[trigger] post.shipping_manifests.contains_key(id) implies {
        &&& post.shipping_manifests[id].manifest_id == id
        &&& post.shipping_manifests[id].raw_material_units.no_duplicates()
        &&& forall|i: int|
            0 <= i < post.shipping_manifests[id].raw_material_units.len()
                ==> post.raw_material_units.contains_key(
                #[trigger] post.shipping_manifests[id].raw_material_units[i],
            )
    } by {
        if id == pre.next_id {
            assert(mid.orders.contains_key(order_id));
        } else {
            assert(mid.shipping_manifests.contains_key(id));
        }
    }
}

/// The inventory `stock` after `units` of `material_id` have come in, one
/// after the other.
pub open spec fn stock_gained(
    stock: Map<UniqueId, Seq<UniqueId>>,
    material_id: UniqueId,
    units: Seq<UniqueId>,
) -> Map<UniqueId, Seq<UniqueId>> {
    if units.len() == 0 {
        stock
    } else {
        stock.insert(
            material_id,
            if stock.contains_key(material_id) {
                stock[material_id] + units
            } else {
                units
            },
        )
    }
}

/// The inventory `stock` after the `quantity` units of `material_id` that
/// came last have left.
pub open spec fn stock_lost(
    stock: Map<UniqueId, Seq<UniqueId>>,
    material_id: UniqueId,
    quantity: int,
) -> Map<UniqueId, Seq<UniqueId>> {
    if quantity == 0 {
        stock
    } else {
        stock.insert(
            material_id,
            stock[material_id].take(stock[material_id].len() - quantity),
        )
    }
}

impl PalletView {
    /// Why the purchase is refused, if it is. The buyer must be a
    /// manufacturer and the supplier a supplier that holds at least
    /// `quantity` units of the material; the material's roster must name the
    /// shipping agent, and the agent must serve both the material's pickup
    /// location and `destination`.
    pub open spec fn purchase_error(
        self,
        buyer: AccountId,
        material_id: UniqueId,
        supplier_id: AccountId,
        quantity: u32,
        agent_id: AccountId,
        destination: CoordinatesView,
    ) -> Option<Error> {
        if !self.manufacturers.contains_key(buyer) {
            Some(Error::UnathorisedRequest)
        } else if !self.suppliers.contains_key(supplier_id) {
            Some(Error::ResourceDoesNotExist)
        } else if available(self.suppliers[supplier_id].material_manager, material_id)
            < quantity {
            Some(Error::InsufficientUnits)
        } else if !self.raw_materials.contains_key(material_id) {
            Some(Error::ResourceDoesNotExist)
        } else if !self.raw_materials[material_id].1.shipping_agents.contains(agent_id) {
            Some(Error::UnsupportedShippingAgent)
        } else if !self.shipping_agents.contains_key(agent_id) {
            Some(Error::ResourceDoesNotExist)
        } else if !self.shipping_agents[agent_id].can_ship(
            self.raw_materials[material_id].1.pickup_location,
            destination,
        ) {
            Some(Error::UnsupportedShippingAgent)
        } else {
            None
        }
    }

    /// The units that leave the supplier's inventory when `quantity` units
    /// of the material are sold: those that came last, the last one first.
    pub open spec fn units_sold(self, supplier_id: AccountId, material_id: UniqueId, quantity: u32)
        -> Seq<UniqueId> {
        let held = self.suppliers[supplier_id].material_manager[material_id];
        Seq::new(quantity as nat, |i: int| held[held.len() - 1 - i])
    }

    /// The order that the purchase creates.
    pub open spec fn new_order(
        self,
        buyer: AccountId,
        material_id: UniqueId,
        supplier_id: AccountId,
        quantity: u32,
        agent_id: AccountId,
        destination: CoordinatesView,
    ) -> OrderView {
        OrderView {
            order_id: self.next_id,
            supplier: supplier_id,
            manufacturer: buyer,
            material_id,
            raw_material_units: self.units_sold(supplier_id, material_id, quantity),
            shipping_agent: agent_id,
            shipping_manifest: None,
            delivery_location: destination,
            delivery_token: (self.next_id + 1) as u64,
            status: seq![OrderStatus::Confirmed],
        }
    }

    /// The ledger after the purchase: the units sold have left the
    /// supplier's inventory and entered the buyer's, the buyer owns each of
    /// them, and an order with a fresh identifier and a fresh delivery token
    /// names them. Custody stays where it was: with the supplier, until the
    /// shipment is created.
    pub open spec fn purchased(
        self,
        buyer: AccountId,
        material_id: UniqueId,
        supplier_id: AccountId,
        quantity: u32,
        agent_id: AccountId,
        destination: CoordinatesView,
    ) -> PalletView {
        let sold = self.units_sold(supplier_id, material_id, quantity);
        PalletView {
            raw_material_units: units_updated(
                self.raw_material_units,
                sold,
                ProprietaryDataInputView::Owner(Some(fresh_record(buyer, self.block_number))),
                self.block_number,
            ),
            suppliers: self.suppliers.insert(
                supplier_id,
                MaterialHolderView {
                    material_manager: stock_lost(
                        self.suppliers[supplier_id].material_manager,
                        material_id,
                        quantity as int,
                    ),
                    ..self.suppliers[supplier_id]
                },
            ),
            manufacturers: self.manufacturers.insert(
                buyer,
                MaterialHolderView {
                    material_manager: stock_gained(
                        self.manufacturers[buyer].material_manager,
                        material_id,
                        sold,
                    ),
                    ..self.manufacturers[buyer]
                },
            ),
            orders: self.orders.insert(
                self.next_id,
                self.new_order(buyer, material_id, supplier_id, quantity, agent_id, destination),
            ),
            next_id: (self.next_id + 2) as u64,
            ..self
        }
    }
}

/// What holds of the units that a purchase moves: each is named once, is a
/// well-formed unit of the material, owned by the supplier and never sold.
pub proof fn lemma_units_sold(
    pre: PalletView,
    supplier_id: AccountId,
    material_id: UniqueId,
    quantity: u32,
)
    requires
        pre.inv(),
        pre.suppliers.contains_key(supplier_id),
        available(pre.suppliers[supplier_id].material_manager, material_id) >= quantity,
    ensures
        quantity > 0 ==> pre.suppliers[supplier_id].material_manager.contains_key(material_id)
            && pre.suppliers[supplier_id].material_manager[material_id].no_duplicates(),
        pre.units_sold(supplier_id, material_id, quantity).no_duplicates(),
        pre.units_sold(supplier_id, material_id, quantity).len() == quantity,
        forall|i: int|
            0 <= i < quantity ==> {
                let u = #[trigger] pre.units_sold(supplier_id, material_id, quantity)[i];
                &&& pre.raw_material_units.contains_key(u)
                &&& pre.raw_material_units[u].well_formed()
                &&& pre.raw_material_units[u].seeded()
                &&& pre.raw_material_units[u].material_id == material_id
                &&& pre.raw_material_units[u].owners.len() == 1
                &&& pre.raw_material_units[u].current_owner() == Some(supplier_id)
                &&& pre.raw_materials.contains_key(material_id)
                &&& pre.raw_materials[material_id].0.units.contains(u)
            },
        forall|j: int, i: int|
            0 <= j < pre.suppliers[supplier_id].material_manager[material_id].len() - quantity
                && 0 <= i < quantity ==> #[trigger]
                pre.suppliers[supplier_id].material_manager[material_id][j]
                != #[trigger] pre.units_sold(supplier_id, material_id, quantity)[i],
{
    let held = pre.suppliers[supplier_id].material_manager[material_id];
    let sold = pre.units_sold(supplier_id, material_id, quantity);
    assert(pre.stock_sound(supplier_id, pre.suppliers[supplier_id].material_manager, 0));
    if quantity > 0 {
        assert(pre.suppliers[supplier_id].material_manager.contains_key(material_id));
        assert(held.no_duplicates());
    }
    assert forall|i: int| 0 <= i < quantity implies {
        let u = #[trigger] sold[i];
        &&& pre.raw_material_units.contains_key(u)
        &&& pre.raw_material_units[u].well_formed()
        &&& pre.raw_material_units[u].seeded()
        &&& pre.raw_material_units[u].material_id == material_id
        &&& pre.raw_material_units[u].owners.len() == 1
        &&& pre.raw_material_units[u].current_owner() == Some(supplier_id)
        &&& pre.raw_materials.contains_key(material_id)
        &&& pre.raw_materials[material_id].0.units.contains(u)
    } by {
        let u = pre.suppliers[supplier_id].material_manager[material_id][held.len() - 1 - i];
        assert(sold[i] == u);
        assert(pre.raw_material_units.contains_key(u));
    }
}

/// A purchase keeps what holds of the ledger.
pub proof fn lemma_purchased_inv(
    pre: PalletView,
    buyer: AccountId,
    material_id: UniqueId,
    supplier_id: AccountId,
    quantity: u32,
    agent_id: AccountId,
    destination: CoordinatesView,
)
    requires
        pre.inv(),
        pre.next_id + 2 <= u64::MAX,
        pre.purchase_error(buyer, material_id, supplier_id, quantity, agent_id, destination)
            is None,
        pre.owners_room(pre.units_sold(supplier_id, material_id, quantity)),
    ensures
        pre.purchased(buyer, material_id, supplier_id, quantity, agent_id, destination).inv(),
        units_ready(
            pre.raw_material_units,
            pre.units_sold(supplier_id, material_id, quantity),
            ProprietaryDataInputView::Owner(Some(fresh_record(buyer, pre.block_number))),
        ),
{
    let held = pre.suppliers[supplier_id].material_manager[material_id];
    let sold = pre.units_sold(supplier_id, material_id, quantity);
    let input = ProprietaryDataInputView::Owner(Some(fresh_record(buyer, pre.block_number)));
    let now = pre.block_number;
    let post = pre.purchased(buyer, material_id, supplier_id, quantity, agent_id, destination);
    lemma_units_sold(pre, supplier_id, material_id, quantity);
    assert(units_ready(pre.raw_material_units, sold, input));
    assert(post.raw_material_units.dom() =~= pre.raw_material_units.dom());
    // What became of each unit.
    assert forall|id: UniqueId| #[trigger] post.raw_material_units.contains_key(id) implies {
        &&& post.raw_material_units[id].unit_id == id
        &&& post.raw_material_units[id].well_formed()
        &&& post.raw_material_units[id].seeded()
        &&& post.raw_material_units[id].material_id == pre.raw_material_units[id].material_id
        &&& sold.contains(id) ==> post.raw_material_units[id].current_owner() == Some(buyer)
            && post.raw_material_units[id].owners.len() == 2
        &&& !sold.contains(id) ==> post.raw_material_units[id] == pre.raw_material_units[id]
    } by {
        assert(pre.raw_material_units.contains_key(id));
        if sold.contains(id) {
            let i = choose|i: int| 0 <= i < sold.len() && sold[i] == id;
            assert(pre.raw_material_units[sold[i]].room_for(input));
            lemma_unit_updated(pre.raw_material_units[id], input, now);
        }
    }
    assert(post.units_sound());
    assert(post.ids_fresh());
    // The suppliers.
    assert forall|s: AccountId| #[trigger] post.suppliers.contains_key(s) implies post.stock_sound(
        s,
        post.suppliers[s].material_manager,
        0,
    ) by {
        assert(pre.suppliers.contains_key(s));
        assert(pre.stock_sound(s, pre.suppliers[s].material_manager, 0));
        let stock = post.suppliers[s].material_manager;
        assert forall|m: UniqueId| #[trigger] stock.contains_key(m) implies stock[m].no_duplicates() by {
            assert(pre.suppliers[s].material_manager.contains_key(m));
            assert(pre.suppliers[s].material_manager[m].no_duplicates());
        }
        assert forall|m: UniqueId, i: int|
            stock.contains_key(m) && 0 <= i < stock[m].len() implies {
            let u = #[trigger] stock[m][i];
            &&& post.raw_material_units.contains_key(u)
            &&& post.raw_material_units[u].material_id == m
            &&& post.raw_material_units[u].current_owner() == Some(s)
            &&& post.raw_material_units[u].owners.len() == 1
            &&& post.raw_materials.contains_key(m)
            &&& post.raw_materials[m].0.units.contains(u)
        } by {
            let u = stock[m][i];
            assert(pre.suppliers[s].material_manager.contains_key(m));
            assert(u == pre.suppliers[s].material_manager[m][i]);
            assert(pre.raw_material_units.contains_key(u));
            if sold.contains(u) {
                let k = choose|k: int| 0 <= k < sold.len() && sold[k] == u;
                assert(pre.raw_material_units[sold[k]].material_id == material_id);
                assert(pre.raw_material_units[sold[k]].current_owner() == Some(supplier_id));
                assert(m == material_id);
                assert(s == supplier_id);
                assert(stock[m][i] != sold[k]);
            }
        }
    }
    // The manufacturers.
    assert forall|a: AccountId| #[trigger]
        post.manufacturers.contains_key(a) implies post.stock_sound(
        a,
        post.manufacturers[a].material_manager,
        1,
    ) by {
        assert(pre.manufacturers.contains_key(a));
        assert(pre.stock_sound(a, pre.manufacturers[a].material_manager, 1));
        let before = pre.manufacturers[a].material_manager;
        let stock = post.manufacturers[a].material_manager;
        assert forall|m: UniqueId, i: int|
            stock.contains_key(m) && 0 <= i < stock[m].len() implies {
            let u = #[trigger] stock[m][i];
            &&& post.raw_material_units.contains_key(u)
            &&& post.raw_material_units[u].material_id == m
            &&& post.raw_material_units[u].current_owner() == Some(a)
            &&& post.raw_material_units[u].owners.len() == 2
            &&& post.raw_materials.contains_key(m)
            &&& post.raw_materials[m].0.units.contains(u)
            &&& (before.contains_key(m) && i < before[m].len() ==> !sold.contains(u))
            &&& !(before.contains_key(m) && i < before[m].len()) ==> sold.contains(u)
        } by {
            let u = stock[m][i];
            if before.contains_key(m) && i < before[m].len() {
                assert(u == before[m][i]);
                assert(pre.raw_material_units.contains_key(u));
                assert(pre.raw_material_units[u].owners.len() == 2);
                if sold.contains(u) {
                    let k = choose|k: int| 0 <= k < sold.len() && sold[k] == u;
                    assert(pre.raw_material_units[sold[k]].owners.len() == 1);
                }
            } else {
                assert(a == buyer && m == material_id && quantity > 0);
                let k = if before.contains_key(m) {
                    i - before[m].len()
                } else {
                    i
                };
                assert(u == sold[k]);
                assert(pre.raw_material_units.contains_key(sold[k]));
            }
        }
        assert forall|m: UniqueId| #[trigger] stock.contains_key(m) implies stock[m].no_duplicates() by {
            assert forall|i: int, j: int|
                0 <= i < stock[m].len() && 0 <= j < stock[m].len() && i != j implies stock[m][i]
                != stock[m][j] by {
                let ui = stock[m][i];
                let uj = stock[m][j];
                let old_i = before.contains_key(m) && i < before[m].len();
                let old_j = before.contains_key(m) && j < before[m].len();
                if old_i && old_j {
                    assert(before[m].no_duplicates());
                    assert(before[m][i] != before[m][j]);
                } else if !old_i && !old_j {
                    let base = if before.contains_key(m) {
                        before[m].len()
                    } else {
                        0
                    };
                    assert(ui == sold[i - base]);
                    assert(uj == sold[j - base]);
                } else {
                    assert(sold.contains(ui) != sold.contains(uj));
                }
            }
        }
    }
    assert(post.inventories_sound());
    assert forall|id: UniqueId| #[trigger] post.orders.contains_key(id) implies {
        &&& post.orders[id].order_id == id
        &&& post.orders[id].status.len() > 0
        &&& post.orders[id].raw_material_units.no_duplicates()
        &&& forall|i: int|
            0 <= i < post.orders[id].raw_material_units.len()
                ==> post.raw_material_units.contains_key(
                #[trigger] post.orders[id].raw_material_units[i],
            )
    } by {
        if id != pre.next_id {
            assert(pre.orders.contains_key(id));
        }
    }
    assert forall|id: UniqueId| #[trigger] post.shipping_manifests.contains_key(id) implies {
        &&& post.shipping_manifests[id].manifest_id == id
        &&& post.shipping_manifests[id].raw_material_units.no_duplicates()
        &&& forall|i: int|
            0 <= i < post.shipping_manifests[id].raw_material_units.len()
                ==> post.raw_material_units.contains_key(
                #[trigger] post.shipping_manifests[id].raw_material_units[i],
            )
    } by {
        assert(pre.shipping_manifests.contains_key(id));
    }
    assert(post.parties_sound());
    assert forall|id: UniqueId| #[trigger] post.raw_materials.contains_key(id) implies {
        &&& post.raw_materials[id].0.material_id == id
        &&& post.raw_materials[id].0.units.no_duplicates()
        &&& forall|i: int|
            0 <= i < post.raw_materials[id].0.units.len() ==> {
                let u = #[trigger] post.raw_materials[id].0.units[i];
                post.raw_material_units.contains_key(u) && post.raw_material_units[u].material_id
                    == id
            }
    } by {
        assert(pre.raw_materials.contains_key(id));
        assert forall|i: int| 0 <= i < post.raw_materials[id].0.units.len() implies {
            let u = #[trigger] post.raw_materials[id].0.units[i];
            post.raw_material_units.contains_key(u) && post.raw_material_units[u].material_id
                == id
        } by {
            let u = pre.raw_materials[id].0.units[i];
            assert(pre.raw_material_units.contains_key(u));
            assert(post.raw_material_units.contains_key(u));
        }
    }
    assert forall|id: UniqueId| #[trigger] post.raw_material_units.contains_key(id) implies {
        let unit = post.raw_material_units[id];
        &&& unit.current_owner() is Some
        &&& unit.owners.len() == 1 || unit.owners.len() == 2
        &&& unit.owners.len() == 1 ==> post.suppliers.contains_key(unit.current_owner()->0)
            && holds(post.suppliers[unit.current_owner()->0], unit.material_id, id)
        &&& unit.owners.len() == 2 ==> post.manufacturers.contains_key(unit.current_owner()->0)
            && holds(post.manufacturers[unit.current_owner()->0], unit.material_id, id)
    } by {
        assert(pre.raw_material_units.contains_key(id));
        let before = pre.raw_material_units[id];
        let bought_before = pre.manufacturers[buyer].material_manager;
        if sold.contains(id) {
            let k = choose|k: int| 0 <= k < sold.len() && sold[k] == id;
            assert(pre.raw_material_units[sold[k]].material_id == material_id);
            let base = if bought_before.contains_key(material_id) {
                bought_before[material_id].len() as int
            } else {
                0
            };
            let gained = post.manufacturers[buyer].material_manager[material_id];
            assert(gained[base + k] == id);
            assert(holds(post.manufacturers[buyer], material_id, id));
        } else {
            let owner = before.current_owner()->0;
            let m = before.material_id;
            if before.owners.len() == 1 {
                assert(pre.suppliers.contains_key(owner));
                let list = pre.suppliers[owner].material_manager[m];
                let j = choose|j: int| 0 <= j < list.len() && list[j] == id;
                if owner == supplier_id && m == material_id {
                    if j >= held.len() - quantity {
                        assert(sold[held.len() - 1 - j] == id);
                    }
                    assert(post.suppliers[owner].material_manager[m][j] == id);
                } else {
                    assert(post.suppliers[owner].material_manager[m][j] == id);
                }
                assert(holds(post.suppliers[owner], m, id));
            } else {
                assert(pre.manufacturers.contains_key(owner));
                let list = pre.manufacturers[owner].material_manager[m];
                let j = choose|j: int| 0 <= j < list.len() && list[j] == id;
                assert(post.manufacturers[owner].material_manager.contains_key(m));
                assert(post.manufacturers[owner].material_manager[m][j] == id);
                assert(holds(post.manufacturers[owner], m, id));
            }
        }
    }
}

/// The identifiers of `quantity` units minted one after the other, the
/// first of them `first`.
pub open spec fn minted(first: UniqueId, quantity: int) -> Seq<UniqueId> {
    Seq::new(quantity as nat, |i: int| (first + i) as u64)
}

/// The history that holds `payload` since `now` and nothing before.
pub open spec fn seeded_history<P>(payload: P, now: u32) -> Seq<RecordView<P>> {
    seq![crate::history::with_index(fresh_record(payload, now), 0)]
}

/// A unit as it is minted: owned and held by `owner`, at `location`, since
/// `now`.
pub open spec fn seeded_unit(
    unit_id: UniqueId,
    material_id: UniqueId,
    owner: AccountId,
    location: CoordinatesView,
    now: u32,
) -> RawMaterialUnitView {
    RawMaterialUnitView {
        unit_id,
        material_id,
        locations: seeded_history(location, now),
        owners: seeded_history(owner, now),
        custodians: seeded_history(owner, now),
    }
}

/// The units `units` and, under the identifiers `minted(first, quantity)`,
/// as many new units of the material.
pub open spec fn units_minted(
    units: Map<UniqueId, RawMaterialUnitView>,
    first: UniqueId,
    quantity: int,
    material_id: UniqueId,
    owner: AccountId,
    location: CoordinatesView,
    now: u32,
) -> Map<UniqueId, RawMaterialUnitView> {
    Map::new(
        |id: UniqueId| units.contains_key(id) || first <= id < first + quantity,
        |id: UniqueId|
            if first <= id < first + quantity {
                seeded_unit(id, material_id, owner, location, now)
            } else {
                units[id]
            },
    )
}

/// Those of `candidates` that are shipping agents and pick up at `location`,
/// in the order in which they are named.
pub open spec fn eligible(
    agents: Map<AccountId, ShippingAgentView>,
    location: CoordinatesView,
    candidates: Seq<AccountId>,
) -> Seq<AccountId> {
    candidates.filter(
        |agent: AccountId|
            agents.contains_key(agent) && agents[agent].pickup_locations.contains(location),
    )
}

impl PalletView {
    /// Those of `candidates` that are shipping agents and pick up at
    /// `location`, in the order in which they are named.
    pub open spec fn eligible_agents(self, location: CoordinatesView, candidates: Seq<AccountId>)
        -> Seq<AccountId> {
        eligible(self.shipping_agents, location, candidates)
    }

    /// Why the registration of a material by `sender` is refused, if it is:
    /// `sender` must be a supplier, and one of `candidates` at least must be
    /// a shipping agent that picks up at `location`.
    pub open spec fn registration_error(
        self,
        sender: AccountId,
        location: CoordinatesView,
        candidates: Seq<AccountId>,
    ) -> Option<Error> {
        if !self.suppliers.contains_key(sender) {
            Some(Error::UnathorisedRequest)
        } else if self.eligible_agents(location, candidates).len() == 0 {
            Some(Error::InvalidShippingAgents)
        } else {
            None
        }
    }

    /// The ledger after `sender` has registered a material and minted
    /// `quantity` units of it at `location`. The material takes the next
    /// identifier and the units the ones after it. Each unit is owned and
    /// held by `sender` and is at `location`; all of them are in the
    /// catalogue entry and in the inventory of `sender`.
    pub open spec fn material_registered(
        self,
        sender: AccountId,
        name: Seq<u8>,
        price: u32,
        quantity: u32,
        location: CoordinatesView,
        candidates: Seq<AccountId>,
    ) -> PalletView {
        let material_id = self.next_id;
        let first = (material_id + 1) as u64;
        let unit_ids = minted(first, quantity as int);
        let stock = self.suppliers[sender].material_manager;
        PalletView {
            raw_material_units: units_minted(
                self.raw_material_units,
                first,
                quantity as int,
                material_id,
                sender,
                location,
                self.block_number,
            ),
            suppliers: self.suppliers.insert(
                sender,
                MaterialHolderView {
                    material_manager: stock.insert(
                        material_id,
                        if stock.contains_key(material_id) {
                            stock[material_id] + unit_ids
                        } else {
                            unit_ids
                        },
                    ),
                    ..self.suppliers[sender]
                },
            ),
            raw_materials: self.raw_materials.insert(
                material_id,
                (
                    RawMaterialView { material_id, name, price, units: unit_ids },
                    RawMaterialShippingView {
                        pickup_location: location,
                        shipping_agents: self.eligible_agents(location, candidates),
                    },
                ),
            ),
            next_id: (material_id + 1 + quantity) as u64,
            ..self
        }
    }
}

/// A unit as it is minted is well-formed, and its owner is who minted it.
pub proof fn lemma_seeded_unit(
    unit_id: UniqueId,
    material_id: UniqueId,
    owner: AccountId,
    location: CoordinatesView,
    now: u32,
)
    ensures
        seeded_unit(unit_id, material_id, owner, location, now).well_formed(),
        seeded_unit(unit_id, material_id, owner, location, now).seeded(),
        seeded_unit(unit_id, material_id, owner, location, now).current_owner() == Some(owner),
        seeded_unit(unit_id, material_id, owner, location, now).current_custodian() == Some(
            owner,
        ),
        seeded_unit(unit_id, material_id, owner, location, now).current_location() == Some(
            location,
        ),
        seeded_unit(unit_id, material_id, owner, location, now).owners.len() == 1,
{
    let unit = seeded_unit(unit_id, material_id, owner, location, now);
    lemma_first_active_is(unit.owners, 0);
    lemma_first_active_is(unit.custodians, 0);
    lemma_first_active_is(unit.locations, 0);
}

/// The three records that seed a unit turn a unit without history into the
/// unit as it is minted.
pub proof fn lemma_seeding(
    unit_id: UniqueId,
    material_id: UniqueId,
    owner: AccountId,
    location: CoordinatesView,
    now: u32,
)
    ensures
        ({
            let empty = RawMaterialUnitView {
                unit_id,
                material_id,
                locations: Seq::empty(),
                owners: Seq::empty(),
                custodians: Seq::empty(),
            };
            let owned = ProprietaryDataInputView::Owner(Some(fresh_record(owner, now)));
            let held = ProprietaryDataInputView::Custodian(Some(fresh_record(owner, now)));
            let placed = ProprietaryDataInputView::Location(Some(fresh_record(location, now)));
            &&& empty.can_update(owned)
            &&& empty.updated(owned, now).can_update(held)
            &&& empty.updated(owned, now).updated(held, now).can_update(placed)
            &&& empty.updated(owned, now).updated(held, now).updated(placed, now) == seeded_unit(
                unit_id,
                material_id,
                owner,
                location,
                now,
            )
        }),
{
    crate::history::lemma_first_active_none(Seq::<RecordView<AccountId>>::empty());
    crate::history::lemma_first_active_none(Seq::<RecordView<CoordinatesView>>::empty());
    let start_account = Seq::<RecordView<AccountId>>::empty();
    let start_place = Seq::<RecordView<CoordinatesView>>::empty();
    assert(crate::history::appended(start_account, fresh_record(owner, now), now)
        =~= seeded_history(owner, now));
    assert(crate::history::appended(start_place, fresh_record(location, now), now)
        =~= seeded_history(location, now));
}

/// The registration of a material keeps what holds of the ledger.
pub proof fn lemma_material_registered_inv(
    pre: PalletView,
    sender: AccountId,
    name: Seq<u8>,
    price: u32,
    quantity: u32,
    location: CoordinatesView,
    candidates: Seq<AccountId>,
)
    requires
        pre.inv(),
        pre.next_id + quantity + 1 <= u64::MAX,
        pre.suppliers.contains_key(sender),
    ensures
        pre.material_registered(sender, name, price, quantity, location, candidates).inv(),
{
    let post = pre.material_registered(sender, name, price, quantity, location, candidates);
    let material_id = pre.next_id;
    let first = (material_id + 1) as u64;
    let unit_ids = minted(first, quantity as int);
    let now = pre.block_number;
    assert forall|id: UniqueId| #[trigger] post.raw_material_units.contains_key(id) implies {
        &&& post.raw_material_units[id].unit_id == id
        &&& post.raw_material_units[id].well_formed()
        &&& post.raw_material_units[id].seeded()
        &&& id < post.next_id
        &&& pre.raw_material_units.contains_key(id) ==> post.raw_material_units[id]
            == pre.raw_material_units[id]
    } by {
        if first <= id < first + quantity {
            lemma_seeded_unit(id, material_id, sender, location, now);
        } else {
            assert(pre.raw_material_units.contains_key(id));
        }
    }
    assert(post.units_sound());
    assert(post.ids_fresh());
    let stock_before = pre.suppliers[sender].material_manager;
    assert(pre.stock_sound(sender, pre.suppliers[sender].material_manager, 0));
    if stock_before.contains_key(material_id) && stock_before[material_id].len() > 0 {
        let u = stock_before[material_id][0];
        assert(pre.raw_materials.contains_key(material_id));
    }
    assert(post.suppliers[sender].material_manager[material_id] =~= unit_ids);
    assert forall|s: AccountId| #[trigger] post.suppliers.contains_key(s) implies post.stock_sound(
        s,
        post.suppliers[s].material_manager,
        0,
    ) by {
        let stock = post.suppliers[s].material_manager;
        if s != sender {
            assert(pre.suppliers.contains_key(s));
        }
        assert(pre.stock_sound(s, pre.suppliers[s].material_manager, 0));
        assert forall|m: UniqueId| #[trigger] stock.contains_key(m) implies stock[m].no_duplicates() by {
            if s == sender && m == material_id {
            } else {
                assert(pre.suppliers[s].material_manager.contains_key(m));
            }
        }
        assert forall|m: UniqueId, i: int|
            stock.contains_key(m) && 0 <= i < stock[m].len() implies {
            let u = #[trigger] stock[m][i];
            &&& post.raw_material_units.contains_key(u)
            &&& post.raw_material_units[u].material_id == m
            &&& post.raw_material_units[u].current_owner() == Some(s)
            &&& post.raw_material_units[u].owners.len() == 1
            &&& post.raw_materials.contains_key(m)
            &&& post.raw_materials[m].0.units.contains(u)
        } by {
            let u = stock[m][i];
            if s == sender && m == material_id {
                assert(u == unit_ids[i]);
                lemma_seeded_unit(u, material_id, sender, location, now);
                assert(post.raw_materials[m].0.units[i] == u);
            } else {
                assert(pre.suppliers[s].material_manager.contains_key(m));
                assert(u == pre.suppliers[s].material_manager[m][i]);
                assert(pre.raw_material_units.contains_key(u));
                assert(pre.raw_materials.contains_key(m));
            }
        }
    }
    assert forall|a: AccountId| #[trigger]
        post.manufacturers.contains_key(a) implies post.stock_sound(
        a,
        post.manufacturers[a].material_manager,
        1,
    ) by {
        assert(pre.stock_sound(a, pre.manufacturers[a].material_manager, 1));
        let stock = post.manufacturers[a].material_manager;
        assert forall|m: UniqueId, i: int|
            stock.contains_key(m) && 0 <= i < stock[m].len() implies {
            let u = #[trigger] stock[m][i];
            &&& post.raw_material_units.contains_key(u)
            &&& post.raw_material_units[u].material_id == m
            &&& post.raw_material_units[u].current_owner() == Some(a)
            &&& post.raw_material_units[u].owners.len() == 2
            &&& post.raw_materials.contains_key(m)
            &&& post.raw_materials[m].0.units.contains(u)
        } by {
            let u = stock[m][i];
            assert(pre.raw_material_units.contains_key(u));
            assert(pre.raw_materials.contains_key(m));
        }
    }
    assert(post.inventories_sound());
    assert forall|id: UniqueId| #[trigger] post.orders.contains_key(id) implies {
        &&& post.orders[id].order_id == id
        &&& post.orders[id].status.len() > 0
        &&& post.orders[id].raw_material_units.no_duplicates()
        &&& forall|i: int|
            0 <= i < post.orders[id].raw_material_units.len()
                ==> post.raw_material_units.contains_key(
                #[trigger] post.orders[id].raw_material_units[i],
            )
    } by {
        assert(pre.orders.contains_key(id));
        assert forall|i: int|
            0 <= i < post.orders[id].raw_material_units.len()
                implies post.raw_material_units.contains_key(
            #[trigger] post.orders[id].raw_material_units[i],
        ) by {
            assert(pre.raw_material_units.contains_key(pre.orders[id].raw_material_units[i]));
        }
    }
    assert forall|id: UniqueId| #[trigger] post.shipping_manifests.contains_key(id) implies {
        &&& post.shipping_manifests[id].manifest_id == id
        &&& post.shipping_manifests[id].raw_material_units.no_duplicates()
        &&& forall|i: int|
            0 <= i < post.shipping_manifests[id].raw_material_units.len()
                ==> post.raw_material_units.contains_key(
                #[trigger] post.shipping_manifests[id].raw_material_units[i],
            )
    } by {
        assert(pre.shipping_manifests.contains_key(id));
        assert forall|i: int|
            0 <= i < post.shipping_manifests[id].raw_material_units.len()
                implies post.raw_material_units.contains_key(
            #[trigger] post.shipping_manifests[id].raw_material_units[i],
        ) by {
            assert(pre.raw_material_units.contains_key(
                pre.shipping_manifests[id].raw_material_units[i],
            ));
        }
    }
    assert(post.parties_sound());
    assert forall|id: UniqueId| #[trigger] post.raw_materials.contains_key(id) implies {
        &&& post.raw_materials[id].0.material_id == id
        &&& post.raw_materials[id].0.units.no_duplicates()
        &&& forall|i: int|
            0 <= i < post.raw_materials[id].0.units.len() ==> {
                let u = #[trigger] post.raw_materials[id].0.units[i];
                post.raw_material_units.contains_key(u) && post.raw_material_units[u].material_id
                    == id
            }
    } by {
        if id == material_id {
            assert forall|i: int| 0 <= i < unit_ids.len() implies {
                let u = #[trigger] unit_ids[i];
                post.raw_material_units.contains_key(u) && post.raw_material_units[u].material_id
                    == id
            } by {
                assert(unit_ids[i] == first + i);
            }
        } else {
            assert(pre.raw_materials.contains_key(id));
            assert forall|i: int| 0 <= i < post.raw_materials[id].0.units.len() implies {
                let u = #[trigger] post.raw_materials[id].0.units[i];
                post.raw_material_units.contains_key(u) && post.raw_material_units[u].material_id
                    == id
            } by {
                let u = pre.raw_materials[id].0.units[i];
                assert(pre.raw_material_units.contains_key(u));
                assert(post.raw_material_units.contains_key(u));
            }
        }
    }
    assert forall|id: UniqueId| #[trigger] post.raw_material_units.contains_key(id) implies {
        let unit = post.raw_material_units[id];
        &&& unit.current_owner() is Some
        &&& unit.owners.len() == 1 || unit.owners.len() == 2
        &&& unit.owners.len() == 1 ==> post.suppliers.contains_key(unit.current_owner()->0)
            && holds(post.suppliers[unit.current_owner()->0], unit.material_id, id)
        &&& unit.owners.len() == 2 ==> post.manufacturers.contains_key(unit.current_owner()->0)
            && holds(post.manufacturers[unit.current_owner()->0], unit.material_id, id)
    } by {
        if first <= id < first + quantity {
            lemma_seeded_unit(id, material_id, sender, location, now);
            assert(unit_ids[id - first] == id);
            assert(post.suppliers[sender].material_manager[material_id][id - first] == id);
            assert(holds(post.suppliers[sender], material_id, id));
        } else {
            assert(pre.raw_material_units.contains_key(id));
            let before = pre.raw_material_units[id];
            let owner = before.current_owner()->0;
            let m = before.material_id;
            if before.owners.len() == 1 {
                assert(pre.suppliers.contains_key(owner));
                let list = pre.suppliers[owner].material_manager[m];
                let j = choose|j: int| 0 <= j < list.len() && list[j] == id;
                assert(pre.stock_sound(owner, pre.suppliers[owner].material_manager, 0));
                assert(pre.suppliers[owner].material_manager[m][j] == id);
                assert(pre.raw_materials.contains_key(m));
                assert(m != material_id);
                assert(post.suppliers[owner].material_manager[m][j] == id);
                assert(holds(post.suppliers[owner], m, id));
            } else {
                assert(pre.manufacturers.contains_key(owner));
                assert(holds(post.manufacturers[owner], m, id));
            }
        }
    }
}

} // verus!
