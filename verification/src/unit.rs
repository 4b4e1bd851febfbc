//! A raw material unit and its three histories: who owned it, who held it,
//! and where it was.

use vstd::prelude::*;
use crate::access::AccessLevel;
use crate::history::{
    append_record, appended, can_append, current, disclose_current, disclose_history,
    disclosures, first_indexed, is_active, lemma_appended_well_formed,
    lemma_visibility_keeps_current, lemma_visibility_well_formed, project_history, projected,
    records, results, rows, set_record_visibility, well_formed, with_visibility,
};
use crate::record::{
    Custodian, DataRow, DataRowView, Location, Owner, ProprietaryDataInput,
    ProprietaryDataInputView, ProprietaryDataResult, ProprietaryDataResultView, RecordView,
};
use crate::types::{
    message, same_coordinates, text, AccountId, Coordinates, CoordinatesView, UniqueId,
};

verus! {

/// One trackable instance of a raw material.
#[derive(Debug, PartialEq, Eq)]
pub struct RawMaterialUnit {
    pub unit_id: UniqueId,
    pub material_id: UniqueId,
    pub locations: Vec<Location>,
    pub owners: Vec<Owner>,
    pub custodians: Vec<Custodian>,
}

/// What a unit says: its identity and its three histories, oldest record
/// first.
pub struct RawMaterialUnitView {
    pub unit_id: UniqueId,
    pub material_id: UniqueId,
    pub locations: Seq<RecordView<CoordinatesView>>,
    pub owners: Seq<RecordView<AccountId>>,
    pub custodians: Seq<RecordView<AccountId>>,
}

impl View for RawMaterialUnit {
    type V = RawMaterialUnitView;

    open spec fn view(&self) -> RawMaterialUnitView {
        RawMaterialUnitView {
            unit_id: self.unit_id,
            material_id: self.material_id,
            locations: records(self.locations@),
            owners: records(self.owners@),
            custodians: records(self.custodians@),
        }
    }
}

impl Clone for RawMaterialUnit {
    fn clone(&self) -> (copy: Self)
        ensures
            copy@ == self@,
    {
        let copy = RawMaterialUnit {
            unit_id: self.unit_id,
            material_id: self.material_id,
            locations: self.locations.clone(),
            owners: self.owners.clone(),
            custodians: self.custodians.clone(),
        };
        assert(copy@.locations =~= self@.locations);
        assert(copy@.owners =~= self@.owners);
        assert(copy@.custodians =~= self@.custodians);
        copy
    }
}

/// Whether `input` carries an active record, or none at all.
pub open spec fn carries_active(input: ProprietaryDataInputView) -> bool {
    match input {
        ProprietaryDataInputView::Owner(Some(r)) => is_active(r),
        ProprietaryDataInputView::Custodian(Some(r)) => is_active(r),
        ProprietaryDataInputView::Location(Some(r)) => is_active(r),
        _ => true,
    }
}

impl RawMaterialUnitView {
    /// In each history the record at place i has the index i, and the last
    /// record, and no other, is active.
    pub open spec fn well_formed(self) -> bool {
        &&& well_formed(self.owners)
        &&& well_formed(self.custodians)
        &&& well_formed(self.locations)
    }

    /// The unit has an owner, a custodian and a location.
    pub open spec fn seeded(self) -> bool {
        &&& self.owners.len() > 0
        &&& self.custodians.len() > 0
        &&& self.locations.len() > 0
    }

    /// Who owns the unit now.
    pub open spec fn current_owner(self) -> Option<AccountId> {
        current(self.owners)
    }

    /// Who holds the unit now.
    pub open spec fn current_custodian(self) -> Option<AccountId> {
        current(self.custodians)
    }

    /// Where the unit is now.
    pub open spec fn current_location(self) -> Option<CoordinatesView> {
        current(self.locations)
    }

    /// The standing of `actor` towards this unit: owner before custodian
    /// before anyone.
    pub open spec fn level_of(self, actor: AccountId) -> AccessLevel {
        if self.current_owner() == Some(actor) {
            AccessLevel::Owner
        } else if self.current_custodian() == Some(actor) {
            AccessLevel::Custodian
        } else {
            AccessLevel::AllUsers
        }
    }

    /// The payloads of the history that `input` names, oldest first.
    pub open spec fn disclosed_history(self, input: ProprietaryDataInputView) -> Seq<
        ProprietaryDataResultView,
    > {
        match input {
            ProprietaryDataInputView::Owner(_) => disclosures(
                self.owners,
                |p: AccountId| ProprietaryDataResultView::Owner(p),
            ),
            ProprietaryDataInputView::Custodian(_) => disclosures(
                self.custodians,
                |p: AccountId| ProprietaryDataResultView::Custodian(p),
            ),
            ProprietaryDataInputView::Location(_) => disclosures(
                self.locations,
                |p: CoordinatesView| ProprietaryDataResultView::Location(p),
            ),
            ProprietaryDataInputView::Invalid(_) => Seq::empty(),
        }
    }

    /// The history that `input` names as a requester of level `actor_type`
    /// sees it: one row for each record, at the record's place.
    pub open spec fn history_for_actor(
        self,
        actor_type: AccessLevel,
        input: ProprietaryDataInputView,
    ) -> Seq<DataRowView> {
        match input {
            ProprietaryDataInputView::Owner(_) => projected(
                self.owners,
                |p: AccountId| ProprietaryDataResultView::Owner(p),
                actor_type,
            ),
            ProprietaryDataInputView::Custodian(_) => projected(
                self.custodians,
                |p: AccountId| ProprietaryDataResultView::Custodian(p),
                actor_type,
            ),
            ProprietaryDataInputView::Location(_) => projected(
                self.locations,
                |p: CoordinatesView| ProprietaryDataResultView::Location(p),
                actor_type,
            ),
            ProprietaryDataInputView::Invalid(_) => Seq::empty(),
        }
    }

    /// The payload in effect in the history that `input` names, or the
    /// marker that says that there is none.
    pub open spec fn current_data(self, input: ProprietaryDataInputView)
        -> ProprietaryDataResultView {
        match input {
            ProprietaryDataInputView::Owner(_) => match self.current_owner() {
                Some(account) => ProprietaryDataResultView::Owner(account),
                None => ProprietaryDataResultView::NotFound(text("No active owner found")),
            },
            ProprietaryDataInputView::Custodian(_) => match self.current_custodian() {
                Some(account) => ProprietaryDataResultView::Custodian(account),
                None => ProprietaryDataResultView::NotFound(text("No active custodian found")),
            },
            ProprietaryDataInputView::Location(_) => match self.current_location() {
                Some(place) => ProprietaryDataResultView::Location(place),
                None => ProprietaryDataResultView::NotFound(text("No active location found")),
            },
            ProprietaryDataInputView::Invalid(_) => ProprietaryDataResultView::NotFound(
                text("Invalid input"),
            ),
        }
    }

    /// The history that `input` would extend has room for one more index.
    pub open spec fn can_update(self, input: ProprietaryDataInputView) -> bool {
        match input {
            ProprietaryDataInputView::Owner(Some(_)) => can_append(self.owners),
            ProprietaryDataInputView::Custodian(Some(_)) => can_append(self.custodians),
            ProprietaryDataInputView::Location(Some(_)) => can_append(self.locations),
            _ => true,
        }
    }

    /// The unit after the record that `input` carries has been appended to
    /// its history at time `now`; the unit itself where `input` carries none.
    pub open spec fn updated(self, input: ProprietaryDataInputView, now: u32) -> Self {
        match input {
            ProprietaryDataInputView::Owner(Some(r)) => RawMaterialUnitView {
                owners: appended(self.owners, r, now),
                ..self
            },
            ProprietaryDataInputView::Custodian(Some(r)) => RawMaterialUnitView {
                custodians: appended(self.custodians, r, now),
                ..self
            },
            ProprietaryDataInputView::Location(Some(r)) => RawMaterialUnitView {
                locations: appended(self.locations, r, now),
                ..self
            },
            _ => self,
        }
    }

    /// Whether `actor_id` is the current owner and the history that `input`
    /// names has a record with index `index`.
    pub open spec fn access_level_found(
        self,
        input: ProprietaryDataInputView,
        actor_id: AccountId,
        index: u32,
    ) -> bool {
        self.current_owner() == Some(actor_id) && match input {
            ProprietaryDataInputView::Owner(_) => first_indexed(self.owners, index) is Some,
            ProprietaryDataInputView::Custodian(_) => first_indexed(self.custodians, index)
                is Some,
            ProprietaryDataInputView::Location(_) => first_indexed(self.locations, index)
                is Some,
            ProprietaryDataInputView::Invalid(_) => false,
        }
    }

    /// The unit after `actor_id` has asked to set the visibility of the
    /// record with index `index` in the history that `input` names. Only the
    /// current owner changes anything, and only that record's visibility.
    pub open spec fn with_access_level(
        self,
        input: ProprietaryDataInputView,
        visibility: AccessLevel,
        actor_id: AccountId,
        index: u32,
    ) -> Self {
        if self.current_owner() != Some(actor_id) {
            self
        } else {
            match input {
                ProprietaryDataInputView::Owner(_) => RawMaterialUnitView {
                    owners: with_visibility(self.owners, index, visibility),
                    ..self
                },
                ProprietaryDataInputView::Custodian(_) => RawMaterialUnitView {
                    custodians: with_visibility(self.custodians, index, visibility),
                    ..self
                },
                ProprietaryDataInputView::Location(_) => RawMaterialUnitView {
                    locations: with_visibility(self.locations, index, visibility),
                    ..self
                },
                ProprietaryDataInputView::Invalid(_) => self,
            }
        }
    }
}

/// An update with an active record keeps a unit well-formed, and a change
/// of visibility always does.
pub proof fn lemma_unit_well_formed_kept(
    unit: RawMaterialUnitView,
    input: ProprietaryDataInputView,
    now: u32,
    visibility: AccessLevel,
    actor_id: AccountId,
    index: u32,
)
    requires
        unit.well_formed(),
    ensures
        carries_active(input) && unit.can_update(input) ==> unit.updated(
            input,
            now,
        ).well_formed(),
        unit.with_access_level(input, visibility, actor_id, index).well_formed(),
{
    lemma_visibility_well_formed(unit.owners, index, visibility);
    lemma_visibility_well_formed(unit.custodians, index, visibility);
    lemma_visibility_well_formed(unit.locations, index, visibility);
    if carries_active(input) && unit.can_update(input) {
        match input {
            ProprietaryDataInputView::Owner(Some(r)) => {
                lemma_appended_well_formed(unit.owners, r, now);
            },
            ProprietaryDataInputView::Custodian(Some(r)) => {
                lemma_appended_well_formed(unit.custodians, r, now);
            },
            ProprietaryDataInputView::Location(Some(r)) => {
                lemma_appended_well_formed(unit.locations, r, now);
            },
            _ => {},
        }
    }
}

impl RawMaterialUnit {
    /// A unit without any history yet.
    pub fn new(unit_id: UniqueId, material_id: UniqueId) -> (unit: Self)
        ensures
            unit@ == (RawMaterialUnitView {
                unit_id,
                material_id,
                locations: Seq::empty(),
                owners: Seq::empty(),
                custodians: Seq::empty(),
            }),
            unit@.well_formed(),
    {
        let unit = Self {
            unit_id,
            material_id,
            locations: Vec::new(),
            owners: Vec::new(),
            custodians: Vec::new(),
        };
        assert(unit@.locations =~= Seq::empty());
        assert(unit@.owners =~= Seq::empty());
        assert(unit@.custodians =~= Seq::empty());
        unit
    }

    pub fn get_unit_id(&self) -> (id: UniqueId)
        ensures
            id == self@.unit_id,
    {
        self.unit_id
    }

    pub fn get_material_id(&self) -> (id: UniqueId)
        ensures
            id == self@.material_id,
    {
        self.material_id
    }

    /// The payloads of the history that `input` names, oldest first, as the
    /// owner sees them.
    pub fn get_proprietary_data_history(&self, input: ProprietaryDataInput) -> (out: Vec<
        ProprietaryDataResult,
    >)
        ensures
            results(out@) == self@.disclosed_history(input@),
    {
        match input {
            ProprietaryDataInput::Owner(_) => {
                let out = disclose_history(&self.owners);
                assert(results(out@) =~= self@.disclosed_history(input@));
                out
            },
            ProprietaryDataInput::Custodian(_) => {
                let out = disclose_history(&self.custodians);
                assert(results(out@) =~= self@.disclosed_history(input@));
                out
            },
            ProprietaryDataInput::Location(_) => {
                let out = disclose_history(&self.locations);
                assert(results(out@) =~= self@.disclosed_history(input@));
                out
            },
            ProprietaryDataInput::Invalid(_) => {
                let out: Vec<ProprietaryDataResult> = Vec::new();
                assert(results(out@) =~= self@.disclosed_history(input@));
                out
            },
        }
    }

    /// The history that `input` names as a requester of level `actor_type`
    /// sees it. A record that the requester may not see is not left out: its
    /// row holds the restricted marker, at the record's place.
    pub fn get_proprietary_data_history_for_actor(
        &self,
        actor_type: AccessLevel,
        input: ProprietaryDataInput,
    ) -> (out: Vec<DataRow>)
        ensures
            rows(out@) == self@.history_for_actor(actor_type, input@),
    {
        match input {
            ProprietaryDataInput::Owner(_) => {
                let out = project_history(&self.owners, actor_type);
                assert(rows(out@) =~= self@.history_for_actor(actor_type, input@));
                out
            },
            ProprietaryDataInput::Custodian(_) => {
                let out = project_history(&self.custodians, actor_type);
                assert(rows(out@) =~= self@.history_for_actor(actor_type, input@));
                out
            },
            ProprietaryDataInput::Location(_) => {
                let out = project_history(&self.locations, actor_type);
                assert(rows(out@) =~= self@.history_for_actor(actor_type, input@));
                out
            },
            ProprietaryDataInput::Invalid(_) => {
                let out: Vec<DataRow> = Vec::new();
                assert(rows(out@) =~= self@.history_for_actor(actor_type, input@));
                out
            },
        }
    }

    /// The payload now in effect in the history that `input` names.
    pub fn get_current_proprietary_data(&self, input: ProprietaryDataInput) -> (out:
        ProprietaryDataResult)
        ensures
            out@ == self@.current_data(input@),
    {
        match input {
            ProprietaryDataInput::Owner(_) => match disclose_current(&self.owners) {
                Some(shown) => shown,
                None => ProprietaryDataResult::NotFound(message("No active owner found")),
            },
            ProprietaryDataInput::Custodian(_) => match disclose_current(&self.custodians) {
                Some(shown) => shown,
                None => ProprietaryDataResult::NotFound(message("No active custodian found")),
            },
            ProprietaryDataInput::Location(_) => match disclose_current(&self.locations) {
                Some(shown) => shown,
                None => ProprietaryDataResult::NotFound(message("No active location found")),
            },
            ProprietaryDataInput::Invalid(_) => ProprietaryDataResult::NotFound(
                message("Invalid input"),
            ),
        }
    }

    /// Appends the record that `input` carries to its history: the active
    /// record of that history, if there is one, ends at `current_block`, and
    /// the new record takes the index after it, or index 0 where it starts
    /// the history.
    pub fn update_proprietary_data(&mut self, input: ProprietaryDataInput, current_block: u32)
        requires
            old(self)@.can_update(input@),
        ensures
            final(self)@ == old(self)@.updated(input@, current_block),
            old(self)@.well_formed() && carries_active(input@) ==> final(self)@.well_formed(),
    {
        proof {
            if self@.well_formed() {
                lemma_unit_well_formed_kept(
                    self@,
                    input@,
                    current_block,
                    AccessLevel::AllUsers,
                    0,
                    0,
                );
            }
        }
        match input {
            ProprietaryDataInput::Owner(Some(new_data)) => {
                append_record(&mut self.owners, new_data, current_block);
            },
            ProprietaryDataInput::Custodian(Some(new_data)) => {
                append_record(&mut self.custodians, new_data, current_block);
            },
            ProprietaryDataInput::Location(Some(new_data)) => {
                append_record(&mut self.locations, new_data, current_block);
            },
            _ => {},
        }
    }

    /// Whether `actor_id` owns the unit now.
    pub fn is_owner(&self, actor_id: AccountId) -> (yes: bool)
        ensures
            yes == (self@.current_owner() == Some(actor_id)),
    {
        let result = self.get_current_proprietary_data(ProprietaryDataInput::Owner(None));
        match result {
            ProprietaryDataResult::Owner(current_owner_id) => current_owner_id == actor_id,
            _ => false,
        }
    }

    /// Whether `actor_id` holds the unit now.
    pub fn is_custodian(&self, actor_id: AccountId) -> (yes: bool)
        ensures
            yes == (self@.current_custodian() == Some(actor_id)),
    {
        let result = self.get_current_proprietary_data(ProprietaryDataInput::Custodian(None));
        match result {
            ProprietaryDataResult::Custodian(current_custodian_id) => current_custodian_id
                == actor_id,
            _ => false,
        }
    }

    /// Whether the unit is at `location` now.
    pub fn is_location(&self, location: Coordinates) -> (yes: bool)
        ensures
            yes == (self@.current_location() == Some(location@)),
    {
        let result = self.get_current_proprietary_data(ProprietaryDataInput::Location(None));
        match result {
            ProprietaryDataResult::Location(current_location) => same_coordinates(
                &current_location,
                &location,
            ),
            _ => false,
        }
    }

    /// Sets the visibility of the record with index `index` in the history
    /// that `input` names, on behalf of `actor_id`. Whoever owns the unit now
    /// decides on every record, old ones too; anyone else changes nothing
    /// and gets `false`.
    pub fn set_access_level(
        &mut self,
        input: ProprietaryDataInput,
        visibility: AccessLevel,
        actor_id: AccountId,
        index: u32,
    ) -> (done: bool)
        ensures
            done == old(self)@.access_level_found(input@, actor_id, index),
            final(self)@ == old(self)@.with_access_level(input@, visibility, actor_id, index),
            old(self)@.current_owner() != Some(actor_id) ==> !done && final(self)@ == old(self)@,
            old(self)@.well_formed() ==> final(self)@.well_formed(),
            final(self)@.current_owner() == old(self)@.current_owner(),
    {
        proof {
            if self@.well_formed() {
                lemma_unit_well_formed_kept(self@, input@, 0, visibility, actor_id, index);
            }
            lemma_visibility_keeps_current(self@.owners, index, visibility);
        }
        if !self.is_owner(actor_id) {
            return false;
        }
        match input {
            ProprietaryDataInput::Owner(_) => set_record_visibility(
                &mut self.owners,
                index,
                visibility,
            ),
            ProprietaryDataInput::Custodian(_) => set_record_visibility(
                &mut self.custodians,
                index,
                visibility,
            ),
            ProprietaryDataInput::Location(_) => set_record_visibility(
                &mut self.locations,
                index,
                visibility,
            ),
            ProprietaryDataInput::Invalid(_) => false,
        }
    }
}

} // verus!
