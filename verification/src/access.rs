//! Access levels and the bookkeeping part shared by every history record.

use vstd::prelude::*;

verus! {

/// The standing of a requester, and the audience of a record.
#[derive(Clone, Copy, Debug, PartialEq, Eq, Structural)]
pub enum AccessLevel {
    Owner,
    Custodian,
    AllUsers,
}

/// Whether a requester of level `requester` may see a record whose
/// visibility is `visibility`.
pub open spec fn level_permits(visibility: AccessLevel, requester: AccessLevel) -> bool {
    match visibility {
        AccessLevel::Owner => requester == AccessLevel::Owner,
        AccessLevel::Custodian => requester == AccessLevel::Owner || requester
            == AccessLevel::Custodian,
        AccessLevel::AllUsers => true,
    }
}

/// The part of a history record that does not depend on its kind: its place
/// in the history, the time span in which it is in effect, and who may see it.
#[derive(Clone, Copy, Debug, PartialEq, Eq, Structural)]
pub struct ProprietaryData {
    pub index: Option<u32>,
    pub start_time: u32,
    pub end_time: Option<u32>,
    pub visibility: AccessLevel,
}

impl ProprietaryData {
    /// A fresh record part: in effect from `start_time`, not yet placed in a
    /// history, visible to everyone.
    pub fn new(start_time: u32) -> (data: Self)
        ensures
            data == (ProprietaryData {
                index: None,
                start_time,
                end_time: None,
                visibility: AccessLevel::AllUsers,
            }),
    {
        Self { index: None, start_time, end_time: None, visibility: AccessLevel::AllUsers }
    }

    pub fn set_index(&mut self, index: u32)
        ensures
            *final(self) == (ProprietaryData { index: Some(index), ..*old(self) }),
    {
        self.index = Some(index);
    }

    /// The record's place in its history. Only a record that has been placed
    /// has one.
    pub fn get_index(&self) -> (index: u32)
        requires
            self.index is Some,
        ensures
            self.index == Some(index),
    {
        self.index.unwrap()
    }

    pub fn has_index(&self, index: u32) -> (found: bool)
        ensures
            found == (self.index == Some(index)),
    {
        match self.index {
            Some(own) => own == index,
            None => false,
        }
    }

    pub fn get_start_time(&self) -> (start_time: u32)
        ensures
            start_time == self.start_time,
    {
        self.start_time
    }

    pub fn get_end_time(&self) -> (end_time: Option<u32>)
        ensures
            end_time == self.end_time,
    {
        self.end_time
    }

    pub fn get_visibility(&self) -> (visibility: AccessLevel)
        ensures
            visibility == self.visibility,
    {
        self.visibility
    }

    /// Ends the record's time span at `end_time`.
    pub fn expire(&mut self, end_time: u32)
        ensures
            *final(self) == (ProprietaryData { end_time: Some(end_time), ..*old(self) }),
    {
        self.end_time = Some(end_time);
    }

    /// Whether a requester of level `actor_type` may see this record.
    pub fn can_view(&self, actor_type: AccessLevel) -> (allowed: bool)
        ensures
            allowed == level_permits(self.visibility, actor_type),
    {
        match self.visibility {
            AccessLevel::Owner => actor_type == AccessLevel::Owner,
            AccessLevel::Custodian => actor_type == AccessLevel::Owner || actor_type
                == AccessLevel::Custodian,
            AccessLevel::AllUsers => true,
        }
    }

    /// A record is active as long as its time span has no end.
    pub fn is_active(&self) -> (active: bool)
        ensures
            active == (self.end_time is None),
    {
        self.end_time.is_none()
    }

    pub fn set_visibility(&mut self, visibility: AccessLevel)
        ensures
            *final(self) == (ProprietaryData { visibility, ..*old(self) }),
    {
        self.visibility = visibility;
    }
}

} // verus!
