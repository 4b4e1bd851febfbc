//! What the ledger tells about a unit, to whom, and who decides on that.

use vstd::prelude::*;
use crate::access::{level_permits, AccessLevel};
use crate::event::{location_rows, AccountRow, Error, Event, EventView, LocationRow};
use crate::history::{
    lemma_visibility_keeps_current, lemma_visibility_well_formed, rows,
};
use crate::ledger::{Pallet, PalletView};
use crate::record::{
    DataRow, DataRowView, ProprietaryDataInput, ProprietaryDataInputView, ProprietaryDataResult,
    ProprietaryDataResultView, RecordView,
};
use crate::types::{message, same_bytes, text, AccountId, Coordinates, CoordinatesView, UniqueId};

verus! {

/// The account that a result discloses, if it discloses one.
pub open spec fn account_of(result: ProprietaryDataResultView) -> Option<AccountId> {
    match result {
        ProprietaryDataResultView::Owner(account) => Some(account),
        ProprietaryDataResultView::Custodian(account) => Some(account),
        _ => None,
    }
}

/// The place that a result discloses, if it discloses one.
pub open spec fn place_of(result: ProprietaryDataResultView) -> Option<CoordinatesView> {
    match result {
        ProprietaryDataResultView::Location(place) => Some(place),
        _ => None,
    }
}

/// The history `h` as it is reported to a requester of level `requester`:
/// a row for each record, at the record's place. The row of a record that
/// the requester may see holds the payload, the index and the time span;
/// the row of any other record holds the index alone.
pub open spec fn reported<P>(h: Seq<RecordView<P>>, requester: AccessLevel) -> Seq<
    (Option<P>, Option<u32>, Option<u32>, Option<u32>),
> {
    h.map_values(
        |r: RecordView<P>|
            if level_permits(r.data.visibility, requester) {
                (Some(r.payload), r.data.index, Some(r.data.start_time), r.data.end_time)
            } else {
                (None::<P>, r.data.index, None::<u32>, None::<u32>)
            },
    )
}

/// The history that a key names: `Owner`, `Custodian` or `Location`. Any
/// other key names none.
pub open spec fn category_of(key: Seq<u8>) -> ProprietaryDataInputView {
    if key == text("Owner") {
        ProprietaryDataInputView::Owner(None)
    } else if key == text("Custodian") {
        ProprietaryDataInputView::Custodian(None)
    } else if key == text("Location") {
        ProprietaryDataInputView::Location(None)
    } else {
        ProprietaryDataInputView::Invalid(None)
    }
}

/// The history that `key` names.
pub fn category_from_key(key: &Vec<u8>) -> (input: ProprietaryDataInput)
    ensures
        input@ == category_of(key@),
{
    if same_bytes(key, &message("Owner")) {
        ProprietaryDataInput::Owner(None)
    } else if same_bytes(key, &message("Custodian")) {
        ProprietaryDataInput::Custodian(None)
    } else if same_bytes(key, &message("Location")) {
        ProprietaryDataInput::Location(None)
    } else {
        ProprietaryDataInput::Invalid(None)
    }
}

/// The rows of an owner or custodian history, with the account in place of
/// the result that discloses it.
pub fn account_rows(list: &Vec<DataRow>) -> (out: Vec<AccountRow>)
    ensures
        out@ == rows(list@).map_values(
            |row: DataRowView| (account_of(row.0), row.1, row.2, row.3),
        ),
{
    let mut out: Vec<AccountRow> = Vec::new();
    let mut i: usize = 0;
    while i < list.len()
        invariant
            i <= list.len(),
            out@.len() == i,
            forall|j: int|
                0 <= j < i ==> out@[j] == (
                    account_of(list@[j].0@),
                    list@[j].1,
                    list@[j].2,
                    list@[j].3,
                ),
        decreases list.len() - i,
    {
        let row = &list[i];
        out.push((Pallet::unwrap_account_id(row.0.clone()), row.1, row.2, row.3));
        i += 1;
    }
    assert(out@ =~= rows(list@).map_values(
        |row: DataRowView| (account_of(row.0), row.1, row.2, row.3),
    ));
    out
}

/// The rows of a location history, with the place in place of the result
/// that discloses it.
pub fn place_rows(list: &Vec<DataRow>) -> (out: Vec<LocationRow>)
    ensures
        location_rows(out@) == rows(list@).map_values(
            |row: DataRowView| (place_of(row.0), row.1, row.2, row.3),
        ),
{
    let mut out: Vec<LocationRow> = Vec::new();
    let mut i: usize = 0;
    while i < list.len()
        invariant
            i <= list.len(),
            out@.len() == i,
            forall|j: int|
                0 <= j < i ==> crate::event::location_row(out@[j]) == (
                    place_of(list@[j].0@),
                    list@[j].1,
                    list@[j].2,
                    list@[j].3,
                ),
        decreases list.len() - i,
    {
        let row = &list[i];
        out.push((Pallet::unwrap_location(row.0.clone()), row.1, row.2, row.3));
        i += 1;
    }
    assert(location_rows(out@) =~= rows(list@).map_values(
        |row: DataRowView| (place_of(row.0), row.1, row.2, row.3),
    ));
    out
}

impl PalletView {
    /// Why the query about the unit `unit_id` is refused, if it is: the
    /// unit and its material must exist.
    pub open spec fn unit_data_error(self, unit_id: UniqueId) -> Option<Error> {
        if !self.raw_material_units.contains_key(unit_id) {
            Some(Error::ResourceDoesNotExist)
        } else if !self.raw_materials.contains_key(self.raw_material_units[unit_id].material_id) {
            Some(Error::ResourceDoesNotExist)
        } else {
            None
        }
    }

    /// What the ledger reports of the unit `unit_id` to `requester`: the
    /// material, and the three histories as far as the standing of
    /// `requester` towards the unit lets it see them.
    pub open spec fn unit_data(self, requester: AccountId, unit_id: UniqueId) -> EventView {
        let unit = self.raw_material_units[unit_id];
        let material = self.raw_materials[unit.material_id].0;
        let level = unit.level_of(requester);
        EventView::RawMaterialUnitDataRetrieved {
            material_id: unit.material_id,
            material_name: material.name,
            material_price: material.price,
            unit_id,
            owner_history: reported(unit.owners, level),
            custodian_history: reported(unit.custodians, level),
            location_history: reported(unit.locations, level),
        }
    }

    /// Why the request to set a visibility in the unit `unit_id` is refused,
    /// if it is: the key must name a history, and the unit must exist.
    pub open spec fn access_level_error(self, unit_id: UniqueId, key: Seq<u8>) -> Option<Error> {
        if category_of(key) is Invalid {
            Some(Error::InvalidPropreitaryDataKey)
        } else if !self.raw_material_units.contains_key(unit_id) {
            Some(Error::ResourceDoesNotExist)
        } else {
            None
        }
    }

    /// The ledger after `sender` has asked to set the visibility of the
    /// record with index `index`, in the history of the unit `unit_id` that
    /// `key` names, to `level`.
    pub open spec fn access_level_set(
        self,
        sender: AccountId,
        unit_id: UniqueId,
        level: AccessLevel,
        key: Seq<u8>,
        index: u32,
    ) -> PalletView {
        PalletView {
            raw_material_units: self.raw_material_units.insert(
                unit_id,
                self.raw_material_units[unit_id].with_access_level(
                    category_of(key),
                    level,
                    sender,
                    index,
                ),
            ),
            ..self
        }
    }
}

/// A change of visibility keeps what holds of the ledger.
pub proof fn lemma_access_level_set_inv(
    pre: PalletView,
    sender: AccountId,
    unit_id: UniqueId,
    level: AccessLevel,
    key: Seq<u8>,
    index: u32,
)
    requires
        pre.inv(),
        pre.raw_material_units.contains_key(unit_id),
    ensures
        pre.access_level_set(sender, unit_id, level, key, index).inv(),
{
    let post = pre.access_level_set(sender, unit_id, level, key, index);
    let before = pre.raw_material_units[unit_id];
    let after = post.raw_material_units[unit_id];
    lemma_visibility_well_formed(before.owners, index, level);
    lemma_visibility_well_formed(before.custodians, index, level);
    lemma_visibility_well_formed(before.locations, index, level);
    lemma_visibility_keeps_current(before.owners, index, level);
    assert(post.raw_material_units.dom() =~= pre.raw_material_units.dom());
    assert(after.well_formed());
    assert(after.current_owner() == before.current_owner());
    assert(after.owners.len() == before.owners.len());
    assert forall|id: UniqueId| #[trigger] post.raw_material_units.contains_key(id) implies {
        &&& post.raw_material_units[id].unit_id == id
        &&& post.raw_material_units[id].well_formed()
        &&& post.raw_material_units[id].seeded()
        &&& post.raw_material_units[id].material_id == pre.raw_material_units[id].material_id
        &&& post.raw_material_units[id].current_owner()
            == pre.raw_material_units[id].current_owner()
        &&& post.raw_material_units[id].owners.len() == pre.raw_material_units[id].owners.len()
    } by {
        assert(pre.raw_material_units.contains_key(id));
    }
    assert forall|s: AccountId| #[trigger] post.suppliers.contains_key(s) implies post.stock_sound(
        s,
        post.suppliers[s].material_manager,
        0,
    ) by {
        assert(pre.stock_sound(s, pre.suppliers[s].material_manager, 0));
    }
    assert forall|a: AccountId| #[trigger]
        post.manufacturers.contains_key(a) implies post.stock_sound(
        a,
        post.manufacturers[a].material_manager,
        1,
    ) by {
        assert(pre.stock_sound(a, pre.manufacturers[a].material_manager, 1));
    }
}

impl Pallet {
    /// The account that `input` discloses, if it discloses one.
    pub fn unwrap_account_id(input: ProprietaryDataResult) -> (account: Option<AccountId>)
        ensures
            account == account_of(input@),
    {
        match input {
            ProprietaryDataResult::Owner(owner) => Some(owner),
            ProprietaryDataResult::Custodian(custodian) => Some(custodian),
            _ => None,
        }
    }

    /// The place that `input` discloses, if it discloses one.
    pub fn unwrap_location(input: ProprietaryDataResult) -> (place: Option<Coordinates>)
        ensures
            match place {
                Some(coordinates) => place_of(input@) == Some(coordinates@),
                None => place_of(input@) is None,
            },
    {
        match input {
            ProprietaryDataResult::Location(location) => Some(location),
            _ => None,
        }
    }

    /// What the ledger holds of a unit, as far as the caller may see it. The
    /// caller's standing is that of the owner if it owns the unit now, else
    /// that of the custodian if it holds the unit now, else that of anyone.
    pub fn get_raw_material_unit_data(&self, origin: AccountId, material_unit_id: UniqueId) -> (res:
        Result<Event, Error>)
        ensures
            match res {
                Ok(event) => self@.unit_data_error(material_unit_id) is None && event@
                    == self@.unit_data(origin, material_unit_id),
                Err(error) => self@.unit_data_error(material_unit_id) == Some(error),
            },
    {
        let raw_material_unit = match self.raw_material_units.get(&material_unit_id) {
            Some(raw_material_unit) => raw_material_unit,
            None => {
                return Err(Error::ResourceDoesNotExist);
            },
        };
        let actor_access_level = if raw_material_unit.is_owner(origin) {
            AccessLevel::Owner
        } else if raw_material_unit.is_custodian(origin) {
            AccessLevel::Custodian
        } else {
            AccessLevel::AllUsers
        };
        let owner_history = raw_material_unit.get_proprietary_data_history_for_actor(
            actor_access_level,
            ProprietaryDataInput::Owner(None),
        );
        let custodian_history = raw_material_unit.get_proprietary_data_history_for_actor(
            actor_access_level,
            ProprietaryDataInput::Custodian(None),
        );
        let location_history = raw_material_unit.get_proprietary_data_history_for_actor(
            actor_access_level,
            ProprietaryDataInput::Location(None),
        );
        let material = match self.raw_materials.get(&raw_material_unit.get_material_id()) {
            Some(material) => material,
            None => {
                return Err(Error::ResourceDoesNotExist);
            },
        };
        let owner_rows = account_rows(&owner_history);
        let custodian_rows = account_rows(&custodian_history);
        let location_rows = place_rows(&location_history);
        proof {
            let unit = self@.raw_material_units[material_unit_id];
            assert(owner_rows@ =~= reported(unit.owners, actor_access_level));
            assert(custodian_rows@ =~= reported(unit.custodians, actor_access_level));
            assert(crate::event::location_rows(location_rows@) =~= reported(
                unit.locations,
                actor_access_level,
            ));
        }
        Ok(
            Event::RawMaterialUnitDataRetrieved {
                material_id: raw_material_unit.get_material_id(),
                material_name: material.0.get_name(),
                material_price: material.0.get_price(),
                unit_id: material_unit_id,
                owner_history: owner_rows,
                custodian_history: custodian_rows,
                location_history: location_rows,
            },
        )
    }

    /// The caller asks to set the visibility of one record of a unit: the
    /// record with index `index` in the history that `proprietary_data`
    /// names. The event says whether it was done. It is done for the unit's
    /// current owner only; for anyone else nothing changes.
    pub fn set_raw_material_unit_access_level(
        &mut self,
        origin: AccountId,
        material_unit_id: UniqueId,
        access_level: AccessLevel,
        proprietary_data: Vec<u8>,
        index: u32,
    ) -> (res: Result<Event, Error>)
        ensures
            match res {
                Ok(event) => {
                    &&& old(self)@.access_level_error(material_unit_id, proprietary_data@)
                        is None
                    &&& final(self)@ == old(self)@.access_level_set(
                        origin,
                        material_unit_id,
                        access_level,
                        proprietary_data@,
                        index,
                    )
                    &&& event@ == (EventView::RawMaterialUnitAccessLevelUpdate {
                        material_unit_id,
                        status: old(self)@.raw_material_units[material_unit_id].access_level_found(
                            category_of(proprietary_data@),
                            origin,
                            index,
                        ),
                    })
                    &&& old(self)@.raw_material_units[material_unit_id].current_owner() != Some(
                        origin,
                    ) ==> final(self)@ == old(self)@ && event@
                        == (EventView::RawMaterialUnitAccessLevelUpdate {
                        material_unit_id,
                        status: false,
                    })
                },
                Err(error) => {
                    &&& old(self)@.access_level_error(material_unit_id, proprietary_data@) == Some(
                        error,
                    )
                    &&& final(self)@ == old(self)@
                },
            },
            old(self)@.inv() ==> final(self)@.inv(),
    {
        let proprietary_data_input = category_from_key(&proprietary_data);
        match proprietary_data_input {
            ProprietaryDataInput::Invalid(_) => {
                return Err(Error::InvalidPropreitaryDataKey);
            },
            _ => {},
        }
        if !self.raw_material_units.contains_key(&material_unit_id) {
            return Err(Error::ResourceDoesNotExist);
        }
        proof {
            if self@.inv() {
                lemma_access_level_set_inv(
                    self@,
                    origin,
                    material_unit_id,
                    access_level,
                    proprietary_data@,
                    index,
                );
            }
        }
        let mut raw_material_unit = self.raw_material_units.remove(&material_unit_id).unwrap();
        let result = raw_material_unit.set_access_level(
            proprietary_data_input,
            access_level,
            origin,
            index,
        );
        self.raw_material_units.insert(material_unit_id, raw_material_unit);
        proof {
            let post = old(self)@.access_level_set(
                origin,
                material_unit_id,
                access_level,
                proprietary_data@,
                index,
            );
            assert(self@.raw_material_units =~= post.raw_material_units);
            if old(self)@.raw_material_units[material_unit_id].current_owner() != Some(origin) {
                assert(post.raw_material_units =~= old(self)@.raw_material_units);
            }
        }
        Ok(Event::RawMaterialUnitAccessLevelUpdate { material_unit_id, status: result })
    }
}

} // verus!
