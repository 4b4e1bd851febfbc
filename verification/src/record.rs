//! The three kinds of history records (owner, custodian, location), what a
//! requester gets to see of one, and the operations they share.

use vstd::prelude::*;
use crate::access::{level_permits, AccessLevel, ProprietaryData};
use crate::types::{clone_coordinates, message, text, AccountId, Coordinates, CoordinatesView};

verus! {

/// What a history record says, whatever its kind: a payload (an account or a
/// place) and the bookkeeping part.
pub struct RecordView<P> {
    pub payload: P,
    pub data: ProprietaryData,
}

/// What a query about a record yields: the payload, or a marker that says
/// why there is none.
#[derive(Debug, PartialEq, Eq)]
pub enum ProprietaryDataResult {
    Owner(AccountId),
    Custodian(AccountId),
    Location(Coordinates),
    Restricted(Vec<u8>),
    NotFound(Vec<u8>),
}

/// What a `ProprietaryDataResult` holds.
pub enum ProprietaryDataResultView {
    Owner(AccountId),
    Custodian(AccountId),
    Location(CoordinatesView),
    Restricted(Seq<u8>),
    NotFound(Seq<u8>),
}

impl View for ProprietaryDataResult {
    type V = ProprietaryDataResultView;

    open spec fn view(&self) -> ProprietaryDataResultView {
        match *self {
            ProprietaryDataResult::Owner(account) => ProprietaryDataResultView::Owner(account),
            ProprietaryDataResult::Custodian(account) => ProprietaryDataResultView::Custodian(
                account,
            ),
            ProprietaryDataResult::Location(place) => ProprietaryDataResultView::Location(place@),
            ProprietaryDataResult::Restricted(why) => ProprietaryDataResultView::Restricted(why@),
            ProprietaryDataResult::NotFound(why) => ProprietaryDataResultView::NotFound(why@),
        }
    }
}

impl Clone for ProprietaryDataResult {
    fn clone(&self) -> (copy: Self)
        ensures
            copy@ == self@,
    {
        match self {
            ProprietaryDataResult::Owner(account) => ProprietaryDataResult::Owner(*account),
            ProprietaryDataResult::Custodian(account) => ProprietaryDataResult::Custodian(*account),
            ProprietaryDataResult::Location(place) => ProprietaryDataResult::Location(
                clone_coordinates(place),
            ),
            ProprietaryDataResult::Restricted(why) => ProprietaryDataResult::Restricted(
                why.clone(),
            ),
            ProprietaryDataResult::NotFound(why) => ProprietaryDataResult::NotFound(why.clone()),
        }
    }
}

/// One row of a history as a requester sees it: the payload or a marker,
/// then the record's index, start time and end time.
pub type DataRow = (ProprietaryDataResult, Option<u32>, Option<u32>, Option<u32>);

/// What a `DataRow` holds.
pub type DataRowView = (ProprietaryDataResultView, Option<u32>, Option<u32>, Option<u32>);

/// The row that a requester of level `requester` gets for a record with
/// bookkeeping part `data`, where `disclosed` is what the record shows to
/// those who may see it. A record that the requester may not see keeps its
/// place: the row carries the index and nothing else. A record that has no
/// index yet gives a row without one.
pub open spec fn project(
    disclosed: ProprietaryDataResultView,
    data: ProprietaryData,
    requester: AccessLevel,
) -> DataRowView {
    if level_permits(data.visibility, requester) {
        (disclosed, data.index, Some(data.start_time), data.end_time)
    } else {
        (
            ProprietaryDataResultView::Restricted(text("Data is restricted")),
            data.index,
            None,
            None,
        )
    }
}

/// The row that stands for a record that does not exist.
pub open spec fn not_found_row() -> DataRowView {
    (ProprietaryDataResultView::NotFound(text("Data not found")), None, None, None)
}

/// What every kind of history record can do.
pub trait HasProprietaryData: Sized {
    /// What the record's payload is, as a plain value.
    type Payload;

    /// What the record says.
    spec fn record(&self) -> RecordView<Self::Payload>;

    /// What a payload of this kind looks like to a requester who may see it.
    spec fn disclosed(payload: Self::Payload) -> ProprietaryDataResultView;

    /// The record as a requester of level `actor_type` sees it.
    fn get_data(&self, actor_type: AccessLevel) -> (row: DataRow)
        ensures
            row@ == project(
                Self::disclosed(self.record().payload),
                self.record().data,
                actor_type,
            ),
    ;

    fn get_data_result(&self, data: ProprietaryDataResult) -> (row: DataRow)
        ensures
            row@ == (
                data@,
                self.record().data.index,
                Some(self.record().data.start_time),
                self.record().data.end_time,
            ),
    {
        (
            data,
            self.get_data_manager().index,
            Some(self.get_data_manager().get_start_time()),
            self.get_data_manager().get_end_time(),
        )
    }

    fn get_restricted_data(&self) -> (row: DataRow)
        ensures
            row@ == (
                ProprietaryDataResultView::Restricted(text("Data is restricted")),
                self.record().data.index,
                None::<u32>,
                None::<u32>,
            ),
    {
        (
            ProprietaryDataResult::Restricted(message("Data is restricted")),
            self.get_data_manager().index,
            None,
            None,
        )
    }

    fn get_not_found_data(&self) -> (row: DataRow)
        ensures
            row@ == not_found_row(),
    {
        (ProprietaryDataResult::NotFound(message("Data not found")), None, None, None)
    }

    fn is_active(&self) -> (active: bool)
        ensures
            active == (self.record().data.end_time is None),
    {
        self.get_data_manager().is_active()
    }

    fn expire(&mut self, end_time: u32)
        ensures
            final(self).record() == (RecordView {
                data: ProprietaryData { end_time: Some(end_time), ..old(self).record().data },
                ..old(self).record()
            }),
    {
        self.get_data_manager_mut().expire(end_time);
    }

    fn has_index(&self, index: u32) -> (found: bool)
        ensures
            found == (self.record().data.index == Some(index)),
    {
        self.get_data_manager().has_index(index)
    }

    fn get_index(&self) -> (index: u32)
        requires
            self.record().data.index is Some,
        ensures
            self.record().data.index == Some(index),
    {
        self.get_data_manager().get_index()
    }

    fn set_index(&mut self, index: u32)
        ensures
            final(self).record() == (RecordView {
                data: ProprietaryData { index: Some(index), ..old(self).record().data },
                ..old(self).record()
            }),
    {
        self.get_data_manager_mut().set_index(index);
    }

    fn set_visibility(&mut self, visibility: AccessLevel)
        ensures
            final(self).record() == (RecordView {
                data: ProprietaryData { visibility, ..old(self).record().data },
                ..old(self).record()
            }),
    {
        self.get_data_manager_mut().set_visibility(visibility);
    }

    fn get_data_manager(&self) -> (data: &ProprietaryData)
        ensures
            *data == self.record().data,
    ;

    /// Gives access to the bookkeeping part; the payload stays as it is.
    fn get_data_manager_mut(&mut self) -> (data: &mut ProprietaryData)
        ensures
            *data == old(self).record().data,
            final(self).record() == (RecordView { data: *final(data), ..old(self).record() }),
    ;
}

/// A record of who owns a unit.
#[derive(Clone, Copy, Debug, PartialEq, Eq)]
pub struct Owner {
    pub owner: AccountId,
    pub data: ProprietaryData,
}

impl View for Owner {
    type V = RecordView<AccountId>;

    open spec fn view(&self) -> RecordView<AccountId> {
        RecordView { payload: self.owner, data: self.data }
    }
}

impl Owner {
    pub fn new(owner: AccountId, start_time: u32) -> (record: Self)
        ensures
            record == (Owner {
                owner,
                data: ProprietaryData {
                    index: None,
                    start_time,
                    end_time: None,
                    visibility: AccessLevel::AllUsers,
                },
            }),
    {
        Self { owner, data: ProprietaryData::new(start_time) }
    }
}

impl HasProprietaryData for Owner {
    type Payload = AccountId;

    open spec fn record(&self) -> RecordView<AccountId> {
        self@
    }

    open spec fn disclosed(payload: AccountId) -> ProprietaryDataResultView {
        ProprietaryDataResultView::Owner(payload)
    }

    fn get_data(&self, actor_type: AccessLevel) -> (row: DataRow) {
        if self.data.can_view(actor_type) {
            self.get_data_result(ProprietaryDataResult::Owner(self.owner))
        } else {
            self.get_restricted_data()
        }
    }

    fn get_data_manager(&self) -> (data: &ProprietaryData) {
        &self.data
    }

    fn get_data_manager_mut(&mut self) -> (data: &mut ProprietaryData) {
        &mut self.data
    }
}

/// A record of who holds a unit.
#[derive(Clone, Copy, Debug, PartialEq, Eq)]
pub struct Custodian {
    pub custodian: AccountId,
    pub data: ProprietaryData,
}

impl View for Custodian {
    type V = RecordView<AccountId>;

    open spec fn view(&self) -> RecordView<AccountId> {
        RecordView { payload: self.custodian, data: self.data }
    }
}

impl Custodian {
    pub fn new(custodian: AccountId, start_time: u32) -> (record: Self)
        ensures
            record == (Custodian {
                custodian,
                data: ProprietaryData {
                    index: None,
                    start_time,
                    end_time: None,
                    visibility: AccessLevel::AllUsers,
                },
            }),
    {
        Self { custodian, data: ProprietaryData::new(start_time) }
    }
}

impl HasProprietaryData for Custodian {
    type Payload = AccountId;

    open spec fn record(&self) -> RecordView<AccountId> {
        self@
    }

    open spec fn disclosed(payload: AccountId) -> ProprietaryDataResultView {
        ProprietaryDataResultView::Custodian(payload)
    }

    fn get_data(&self, actor_type: AccessLevel) -> (row: DataRow) {
        if self.data.can_view(actor_type) {
            self.get_data_result(ProprietaryDataResult::Custodian(self.custodian))
        } else {
            self.get_restricted_data()
        }
    }

    fn get_data_manager(&self) -> (data: &ProprietaryData) {
        &self.data
    }

    fn get_data_manager_mut(&mut self) -> (data: &mut ProprietaryData) {
        &mut self.data
    }
}

/// A record of where a unit is.
#[derive(Debug, PartialEq, Eq)]
pub struct Location {
    pub longitude: Vec<u8>,
    pub latitude: Vec<u8>,
    pub data: ProprietaryData,
}

impl View for Location {
    type V = RecordView<CoordinatesView>;

    open spec fn view(&self) -> RecordView<CoordinatesView> {
        RecordView { payload: (self.longitude@, self.latitude@), data: self.data }
    }
}

impl Clone for Location {
    fn clone(&self) -> (copy: Self)
        ensures
            copy@ == self@,
    {
        Location {
            longitude: self.longitude.clone(),
            latitude: self.latitude.clone(),
            data: self.data,
        }
    }
}

impl Location {
    pub fn new(longitude: Vec<u8>, latitude: Vec<u8>, start_time: u32) -> (record: Self)
        ensures
            record@ == (RecordView {
                payload: (longitude@, latitude@),
                data: ProprietaryData {
                    index: None,
                    start_time,
                    end_time: None,
                    visibility: AccessLevel::AllUsers,
                },
            }),
    {
        Self { longitude, latitude, data: ProprietaryData::new(start_time) }
    }
}

impl HasProprietaryData for Location {
    type Payload = CoordinatesView;

    open spec fn record(&self) -> RecordView<CoordinatesView> {
        self@
    }

    open spec fn disclosed(payload: CoordinatesView) -> ProprietaryDataResultView {
        ProprietaryDataResultView::Location(payload)
    }

    fn get_data(&self, actor_type: AccessLevel) -> (row: DataRow) {
        if self.data.can_view(actor_type) {
            self.get_data_result(
                ProprietaryDataResult::Location((self.longitude.clone(), self.latitude.clone())),
            )
        } else {
            self.get_restricted_data()
        }
    }

    fn get_data_manager(&self) -> (data: &ProprietaryData) {
        &self.data
    }

    fn get_data_manager_mut(&mut self) -> (data: &mut ProprietaryData) {
        &mut self.data
    }
}

/// Names a history of a unit and, where a record is to be appended, carries
/// that record. `Invalid` stands for a category that does not exist.
#[derive(Debug, PartialEq, Eq)]
pub enum ProprietaryDataInput {
    Owner(Option<Owner>),
    Custodian(Option<Custodian>),
    Location(Option<Location>),
    Invalid(Option<Vec<u8>>),
}

impl Clone for ProprietaryDataInput {
    fn clone(&self) -> (copy: Self)
        ensures
            copy@ == self@,
    {
        match self {
            ProprietaryDataInput::Owner(Some(r)) => ProprietaryDataInput::Owner(Some(*r)),
            ProprietaryDataInput::Owner(None) => ProprietaryDataInput::Owner(None),
            ProprietaryDataInput::Custodian(Some(r)) => ProprietaryDataInput::Custodian(Some(*r)),
            ProprietaryDataInput::Custodian(None) => ProprietaryDataInput::Custodian(None),
            ProprietaryDataInput::Location(Some(r)) => ProprietaryDataInput::Location(
                Some(r.clone()),
            ),
            ProprietaryDataInput::Location(None) => ProprietaryDataInput::Location(None),
            ProprietaryDataInput::Invalid(Some(key)) => ProprietaryDataInput::Invalid(
                Some(key.clone()),
            ),
            ProprietaryDataInput::Invalid(None) => ProprietaryDataInput::Invalid(None),
        }
    }
}

/// What a `ProprietaryDataInput` holds.
pub enum ProprietaryDataInputView {
    Owner(Option<RecordView<AccountId>>),
    Custodian(Option<RecordView<AccountId>>),
    Location(Option<RecordView<CoordinatesView>>),
    Invalid(Option<Seq<u8>>),
}

impl View for ProprietaryDataInput {
    type V = ProprietaryDataInputView;

    open spec fn view(&self) -> ProprietaryDataInputView {
        match *self {
            ProprietaryDataInput::Owner(Some(r)) => ProprietaryDataInputView::Owner(Some(r@)),
            ProprietaryDataInput::Owner(None) => ProprietaryDataInputView::Owner(None),
            ProprietaryDataInput::Custodian(Some(r)) => ProprietaryDataInputView::Custodian(
                Some(r@),
            ),
            ProprietaryDataInput::Custodian(None) => ProprietaryDataInputView::Custodian(None),
            ProprietaryDataInput::Location(Some(r)) => ProprietaryDataInputView::Location(Some(r@)),
            ProprietaryDataInput::Location(None) => ProprietaryDataInputView::Location(None),
            ProprietaryDataInput::Invalid(Some(key)) => ProprietaryDataInputView::Invalid(
                Some(key@),
            ),
            ProprietaryDataInput::Invalid(None) => ProprietaryDataInputView::Invalid(None),
        }
    }
}

} // verus!
