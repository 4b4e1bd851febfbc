//! Identifiers, coordinates and byte strings: the plain values that the
//! ledger's records are made of.

use vstd::prelude::*;
use vstd::std_specs::cmp::PartialEqSpec;
use vstd::string::StrSliceExecFns;
use vstd::string::StringSliceAdditionalSpecFns;

verus! {

/// The identity of an authenticated caller.
pub type AccountId = u64;

/// The key of a unit, a material, an order or a manifest.
pub type UniqueId = u64;

/// A place, as longitude and latitude in whatever encoding the caller uses.
pub type Coordinates = (Vec<u8>, Vec<u8>);

/// What a `Coordinates` value holds.
pub type CoordinatesView = (Seq<u8>, Seq<u8>);

/// The bytes of a text.
pub open spec fn text(s: &str) -> Seq<u8> {
    s.spec_bytes()
}

/// What a list of coordinates holds.
pub open spec fn coordinates_seq(list: Seq<Coordinates>) -> Seq<CoordinatesView> {
    list.map_values(|c: Coordinates| c@)
}

/// The bytes of `s`, as an owned byte string.
pub fn message(s: &str) -> (bytes: Vec<u8>)
    ensures
        bytes@ == text(s),
{
    s.as_bytes_vec()
}

/// Whether two byte strings hold the same bytes.
pub fn same_bytes(a: &Vec<u8>, b: &Vec<u8>) -> (same: bool)
    ensures
        same == (a@ == b@),
{
    let same = a == b;
    proof {
        if a@.len() == b@.len() {
            assert(a@ =~= b@ <==> a.eq_spec(b));
        }
    }
    same
}

/// Whether two places are the same place.
pub fn same_coordinates(a: &Coordinates, b: &Coordinates) -> (same: bool)
    ensures
        same == (a@ == b@),
{
    same_bytes(&a.0, &b.0) && same_bytes(&a.1, &b.1)
}

pub fn clone_coordinates(c: &Coordinates) -> (copy: Coordinates)
    ensures
        copy@ == c@,
{
    (c.0.clone(), c.1.clone())
}

pub fn clone_coordinates_list(list: &Vec<Coordinates>) -> (copy: Vec<Coordinates>)
    ensures
        coordinates_seq(copy@) == coordinates_seq(list@),
{
    let mut copy: Vec<Coordinates> = Vec::new();
    let mut i: usize = 0;
    while i < list.len()
        invariant
            i <= list.len(),
            copy@.len() == i,
            forall|j: int| 0 <= j < i ==> copy@[j]@ == list@[j]@,
        decreases list.len() - i,
    {
        copy.push(clone_coordinates(&list[i]));
        i += 1;
    }
    assert(coordinates_seq(copy@) =~= coordinates_seq(list@));
    copy
}

/// Whether `place` occurs in `list`.
pub fn contains_coordinates(list: &Vec<Coordinates>, place: &Coordinates) -> (found: bool)
    ensures
        found == coordinates_seq(list@).contains(place@),
{
    let mut i: usize = 0;
    while i < list.len()
        invariant
            i <= list.len(),
            forall|j: int| 0 <= j < i ==> coordinates_seq(list@)[j] != place@,
        decreases list.len() - i,
    {
        if same_coordinates(&list[i], place) {
            assert(coordinates_seq(list@)[i as int] == place@);
            return true;
        }
        i += 1;
    }
    false
}

/// Whether `id` occurs in `list`.
pub fn contains_id(list: &Vec<u64>, id: u64) -> (found: bool)
    ensures
        found == list@.contains(id),
{
    let mut i: usize = 0;
    while i < list.len()
        invariant
            i <= list.len(),
            forall|j: int| 0 <= j < i ==> list@[j] != id,
        decreases list.len() - i,
    {
        if list[i] == id {
            return true;
        }
        i += 1;
    }
    false
}

} // verus!
