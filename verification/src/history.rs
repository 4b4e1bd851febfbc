//! A history: the records of one kind that a unit has collected, oldest
//! first. A new record expires the active one and takes the next index, so
//! that a history built from nothing has the indices 0, 1, 2, ... and its
//! last record, and no other, is active.

use vstd::prelude::*;
use crate::access::{AccessLevel, ProprietaryData};
use crate::record::{
    project, DataRow, DataRowView, HasProprietaryData, ProprietaryDataResult,
    ProprietaryDataResultView, RecordView,
};

verus! {

/// What a list of records says.
pub open spec fn records<R: HasProprietaryData>(list: Seq<R>) -> Seq<RecordView<R::Payload>> {
    list.map_values(|r: R| r.record())
}

/// What a list of results holds.
pub open spec fn results(list: Seq<ProprietaryDataResult>) -> Seq<ProprietaryDataResultView> {
    list.map_values(|r: ProprietaryDataResult| r@)
}

/// What a list of rows holds.
pub open spec fn rows(list: Seq<DataRow>) -> Seq<DataRowView> {
    list.map_values(|row: DataRow| row@)
}

/// A record is active as long as its time span has no end.
pub open spec fn is_active<P>(r: RecordView<P>) -> bool {
    r.data.end_time is None
}

/// `k` is the place of the first active record of `h`.
pub open spec fn is_first_active<P>(h: Seq<RecordView<P>>, k: int) -> bool {
    &&& 0 <= k < h.len()
    &&& is_active(h[k])
    &&& forall|j: int| 0 <= j < k ==> !is_active(#[trigger] h[j])
}

/// The place of the first active record of `h`, if it has an active record.
pub open spec fn first_active<P>(h: Seq<RecordView<P>>) -> Option<int> {
    if exists|k: int| is_first_active(h, k) {
        Some(choose|k: int| is_first_active(h, k))
    } else {
        None
    }
}

/// `k` is the place of the first record of `h` that has the index `index`.
pub open spec fn is_first_indexed<P>(h: Seq<RecordView<P>>, index: u32, k: int) -> bool {
    &&& 0 <= k < h.len()
    &&& h[k].data.index == Some(index)
    &&& forall|j: int| 0 <= j < k ==> (#[trigger] h[j]).data.index != Some(index)
}

/// The place of the first record of `h` that has the index `index`, if there
/// is one.
pub open spec fn first_indexed<P>(h: Seq<RecordView<P>>, index: u32) -> Option<int> {
    if exists|k: int| is_first_indexed(h, index, k) {
        Some(choose|k: int| is_first_indexed(h, index, k))
    } else {
        None
    }
}

/// The payload that is in effect now.
pub open spec fn current<P>(h: Seq<RecordView<P>>) -> Option<P> {
    match first_active(h) {
        Some(k) => Some(h[k].payload),
        None => None,
    }
}

/// Every record of `h` has been given an index.
pub open spec fn all_indexed<P>(h: Seq<RecordView<P>>) -> bool {
    forall|i: int| 0 <= i < h.len() ==> (#[trigger] h[i]).data.index is Some
}

/// The active record of `h`, if there is one, has an index with a successor.
pub open spec fn can_append<P>(h: Seq<RecordView<P>>) -> bool {
    match first_active(h) {
        Some(k) => h[k].data.index is Some && h[k].data.index->0 < u32::MAX,
        None => true,
    }
}

/// `r` with its time span ended at `now`.
pub open spec fn expired<P>(r: RecordView<P>, now: u32) -> RecordView<P> {
    RecordView { data: ProprietaryData { end_time: Some(now), ..r.data }, ..r }
}

/// `r` placed at `index`.
pub open spec fn with_index<P>(r: RecordView<P>, index: u32) -> RecordView<P> {
    RecordView { data: ProprietaryData { index: Some(index), ..r.data }, ..r }
}

/// `r` with the visibility `level`.
pub open spec fn with_level<P>(r: RecordView<P>, level: AccessLevel) -> RecordView<P> {
    RecordView { data: ProprietaryData { visibility: level, ..r.data }, ..r }
}

/// `h` after `new` has been appended at time `now`: the active record, if
/// there is one, ends at `now` and `new` takes the index after it; `new`
/// starts a history with index 0.
pub open spec fn appended<P>(h: Seq<RecordView<P>>, new: RecordView<P>, now: u32) -> Seq<
    RecordView<P>,
> {
    match first_active(h) {
        Some(k) => h.update(k, expired(h[k], now)).push(
            with_index(new, (h[k].data.index->0 + 1) as u32),
        ),
        None => h.push(with_index(new, 0)),
    }
}

/// `h` after the visibility of the record with index `index` has been set to
/// `level`; `h` itself where no record has that index.
pub open spec fn with_visibility<P>(h: Seq<RecordView<P>>, index: u32, level: AccessLevel) -> Seq<
    RecordView<P>,
> {
    match first_indexed(h, index) {
        Some(k) => h.update(k, with_level(h[k], level)),
        None => h,
    }
}

/// What the records of `h` show to those who may see them, record by record.
pub open spec fn disclosures<P>(
    h: Seq<RecordView<P>>,
    disclosed: spec_fn(P) -> ProprietaryDataResultView,
) -> Seq<ProprietaryDataResultView> {
    h.map_values(|r: RecordView<P>| disclosed(r.payload))
}

/// `h` as a requester of level `requester` sees it, row by row.
pub open spec fn projected<P>(
    h: Seq<RecordView<P>>,
    disclosed: spec_fn(P) -> ProprietaryDataResultView,
    requester: AccessLevel,
) -> Seq<DataRowView> {
    h.map_values(|r: RecordView<P>| project(disclosed(r.payload), r.data, requester))
}

/// What holds of a history that was built by appending active records to an
/// empty one: the record at place i has the index i, and the last record,
/// and no other, is active.
pub open spec fn well_formed<P>(h: Seq<RecordView<P>>) -> bool {
    &&& h.len() <= 0x1_0000_0000
    &&& forall|i: int|
        0 <= i < h.len() ==> {
            &&& (#[trigger] h[i]).data.index == Some(i as u32)
            &&& (is_active(h[i]) <==> i == h.len() - 1)
        }
}

/// There is one place of the first active record at most.
pub proof fn lemma_first_active_is<P>(h: Seq<RecordView<P>>, k: int)
    requires
        is_first_active(h, k),
    ensures
        first_active(h) == Some(k),
{
    let c = choose|c: int| is_first_active(h, c);
    if c < k {
        assert(!is_active(h[c]));
    } else if k < c {
        assert(!is_active(h[k]));
    }
}

/// A history without an active record has no first active record.
pub proof fn lemma_first_active_none<P>(h: Seq<RecordView<P>>)
    requires
        forall|j: int| 0 <= j < h.len() ==> !is_active(#[trigger] h[j]),
    ensures
        first_active(h) is None,
{
    if exists|k: int| is_first_active(h, k) {
        let k = choose|k: int| is_first_active(h, k);
        assert(!is_active(h[k]));
    }
}

/// There is one place of the first record with a given index at most.
pub proof fn lemma_first_indexed_is<P>(h: Seq<RecordView<P>>, index: u32, k: int)
    requires
        is_first_indexed(h, index, k),
    ensures
        first_indexed(h, index) == Some(k),
{
    let c = choose|c: int| is_first_indexed(h, index, c);
    if c < k {
        assert(h[c].data.index != Some(index));
    } else if k < c {
        assert(h[k].data.index != Some(index));
    }
}

/// A history without a record of a given index has no first such record.
pub proof fn lemma_first_indexed_none<P>(h: Seq<RecordView<P>>, index: u32)
    requires
        forall|j: int| 0 <= j < h.len() ==> (#[trigger] h[j]).data.index != Some(index),
    ensures
        first_indexed(h, index) is None,
{
    if exists|k: int| is_first_indexed(h, index, k) {
        let k = choose|k: int| is_first_indexed(h, index, k);
        assert(h[k].data.index != Some(index));
    }
}

/// In a well-formed history the active record is the last one, and the
/// record with index i stands at place i.
pub proof fn lemma_well_formed_places<P>(h: Seq<RecordView<P>>)
    requires
        well_formed(h),
    ensures
        first_active(h) == if h.len() > 0 {
            Some(h.len() - 1)
        } else {
            None
        },
        forall|index: u32| #[trigger]
            first_indexed(h, index) == if index < h.len() {
                Some(index as int)
            } else {
                None
            },
        all_indexed(h),
{
    if h.len() > 0 {
        lemma_first_active_is(h, h.len() - 1);
    } else {
        lemma_first_active_none(h);
    }
    assert forall|index: u32| #[trigger]
        first_indexed(h, index) == if index < h.len() {
            Some(index as int)
        } else {
            None
        } by {
        if index < h.len() {
            assert forall|j: int| 0 <= j < index implies (#[trigger] h[j]).data.index != Some(
                index,
            ) by {
                assert(h[j].data.index == Some(j as u32));
            }
            assert(h[index as int].data.index == Some(index));
            lemma_first_indexed_is(h, index, index as int);
        } else {
            assert forall|j: int| 0 <= j < h.len() implies (#[trigger] h[j]).data.index != Some(
                index,
            ) by {
                assert(h[j].data.index == Some(j as u32));
            }
            lemma_first_indexed_none(h, index);
        }
    }
}

/// Appending an active record keeps a history well-formed.
pub proof fn lemma_appended_well_formed<P>(h: Seq<RecordView<P>>, new: RecordView<P>, now: u32)
    requires
        well_formed(h),
        can_append(h),
        is_active(new),
    ensures
        well_formed(appended(h, new, now)),
        h.len() <= u32::MAX,
        appended(h, new, now) == if h.len() > 0 {
            h.update(h.len() - 1, expired(h[h.len() - 1], now)).push(
                with_index(new, h.len() as u32),
            )
        } else {
            h.push(with_index(new, 0))
        },
{
    lemma_well_formed_places(h);
    if h.len() > 0 {
        assert(h[h.len() - 1].data.index == Some((h.len() - 1) as u32));
    }
    let after = appended(h, new, now);
    assert forall|i: int| 0 <= i < after.len() implies {
        &&& (#[trigger] after[i]).data.index == Some(i as u32)
        &&& (is_active(after[i]) <==> i == after.len() - 1)
    } by {
        if i < h.len() {
            assert(h[i].data.index == Some(i as u32));
        }
    }
}

/// A well-formed history that is shorter than the number of indices can
/// take one more record.
pub proof fn lemma_room_to_append<P>(h: Seq<RecordView<P>>)
    requires
        well_formed(h),
        h.len() <= u32::MAX,
    ensures
        can_append(h),
{
    lemma_well_formed_places(h);
    if h.len() > 0 {
        assert(h[h.len() - 1].data.index == Some((h.len() - 1) as u32));
    }
}

/// A change of visibility keeps a history well-formed.
pub proof fn lemma_visibility_well_formed<P>(h: Seq<RecordView<P>>, index: u32, level: AccessLevel)
    requires
        well_formed(h),
    ensures
        well_formed(with_visibility(h, index, level)),
{
    let shown = with_visibility(h, index, level);
    assert forall|i: int| 0 <= i < shown.len() implies {
        &&& (#[trigger] shown[i]).data.index == Some(i as u32)
        &&& (is_active(shown[i]) <==> i == shown.len() - 1)
    } by {
        assert(h[i].data.index == Some(i as u32));
    }
}

/// A change of visibility changes nobody's standing: the payload in effect
/// stays the same.
pub proof fn lemma_visibility_keeps_current<P>(h: Seq<RecordView<P>>, index: u32, level: AccessLevel)
    ensures
        current(with_visibility(h, index, level)) == current(h),
{
    let shown = with_visibility(h, index, level);
    assert(shown.len() == h.len());
    assert forall|k: int| is_first_active(h, k) implies is_first_active(shown, k) by {
        assert forall|j: int| 0 <= j < k implies !is_active(#[trigger] shown[j]) by {
            assert(!is_active(h[j]));
        }
    }
    assert forall|k: int| is_first_active(shown, k) implies is_first_active(h, k) by {
        assert forall|j: int| 0 <= j < k implies !is_active(#[trigger] h[j]) by {
            assert(!is_active(shown[j]));
        }
    }
    match first_active(h) {
        Some(k) => {
            lemma_first_active_is(shown, k);
        },
        None => {
            if exists|k: int| is_first_active(shown, k) {
                let k = choose|k: int| is_first_active(shown, k);
                assert(is_first_active(h, k));
            }
        },
    }
}

/// The place of the first active record.
pub fn find_active<R: HasProprietaryData>(history: &Vec<R>) -> (found: Option<usize>)
    ensures
        match found {
            Some(k) => first_active(records(history@)) == Some(k as int),
            None => first_active(records(history@)) is None,
        },
{
    let mut i: usize = 0;
    while i < history.len()
        invariant
            i <= history.len(),
            forall|j: int| 0 <= j < i ==> !is_active(#[trigger] records(history@)[j]),
        decreases history.len() - i,
    {
        if history[i].is_active() {
            proof {
                lemma_first_active_is(records(history@), i as int);
            }
            return Some(i);
        }
        i += 1;
    }
    proof {
        lemma_first_active_none(records(history@));
    }
    None
}

/// The place of the first record that has the index `index`.
pub fn find_indexed<R: HasProprietaryData>(history: &Vec<R>, index: u32) -> (found: Option<usize>)
    ensures
        match found {
            Some(k) => first_indexed(records(history@), index) == Some(k as int),
            None => first_indexed(records(history@), index) is None,
        },
{
    let mut i: usize = 0;
    while i < history.len()
        invariant
            i <= history.len(),
            forall|j: int|
                0 <= j < i ==> (#[trigger] records(history@)[j]).data.index != Some(index),
        decreases history.len() - i,
    {
        if history[i].has_index(index) {
            proof {
                lemma_first_indexed_is(records(history@), index, i as int);
            }
            return Some(i);
        }
        i += 1;
    }
    proof {
        lemma_first_indexed_none(records(history@), index);
    }
    None
}

/// Appends `new` to `history` at time `now`.
pub fn append_record<R: HasProprietaryData>(history: &mut Vec<R>, new: R, now: u32)
    requires
        can_append(records(old(history)@)),
    ensures
        records(final(history)@) == appended(records(old(history)@), new.record(), now),
{
    let mut new = new;
    let ghost before = records(history@);
    match find_active(history) {
        Some(k) => {
            let next: u32 = history[k].get_index() + 1;
            new.set_index(next);
            history[k].expire(now);
            history.push(new);
        },
        None => {
            new.set_index(0);
            history.push(new);
        },
    }
    assert(records(history@) =~= appended(before, new.record(), now));
}

/// Sets the visibility of the first record of `history` that has the index
/// `index`, and says whether there is such a record.
pub fn set_record_visibility<R: HasProprietaryData>(
    history: &mut Vec<R>,
    index: u32,
    visibility: AccessLevel,
) -> (found: bool)
    ensures
        found == first_indexed(records(old(history)@), index) is Some,
        records(final(history)@) == with_visibility(records(old(history)@), index, visibility),
{
    let ghost before = records(history@);
    match find_indexed(history, index) {
        Some(k) => {
            history[k].set_visibility(visibility);
            assert(records(history@) =~= with_visibility(before, index, visibility));
            true
        },
        None => false,
    }
}

/// The rows that a requester of level `requester` gets for `history`.
pub fn project_history<R: HasProprietaryData>(history: &Vec<R>, requester: AccessLevel) -> (out:
    Vec<DataRow>)
    ensures
        rows(out@) == projected(
            records(history@),
            |p: R::Payload| R::disclosed(p),
            requester,
        ),
{
    let mut out: Vec<DataRow> = Vec::new();
    let mut i: usize = 0;
    while i < history.len()
        invariant
            i <= history.len(),
            out@.len() == i,
            forall|j: int|
                0 <= j < i ==> (#[trigger] out@[j])@ == project(
                    R::disclosed(history@[j].record().payload),
                    history@[j].record().data,
                    requester,
                ),
        decreases history.len() - i,
    {
        out.push(history[i].get_data(requester));
        i += 1;
    }
    assert(rows(out@) =~= projected(
        records(history@),
        |p: R::Payload| R::disclosed(p),
        requester,
    ));
    out
}

/// What the records of `history` show to the owner, record by record.
pub fn disclose_history<R: HasProprietaryData>(history: &Vec<R>) -> (out: Vec<
    ProprietaryDataResult,
>)
    ensures
        results(out@) == disclosures(records(history@), |p: R::Payload| R::disclosed(p)),
{
    let mut out: Vec<ProprietaryDataResult> = Vec::new();
    let mut i: usize = 0;
    while i < history.len()
        invariant
            i <= history.len(),
            out@.len() == i,
            forall|j: int|
                0 <= j < i ==> (#[trigger] out@[j])@ == R::disclosed(history@[j].record().payload),
        decreases history.len() - i,
    {
        let row = history[i].get_data(AccessLevel::Owner);
        out.push(row.0);
        i += 1;
    }
    assert(results(out@) =~= disclosures(records(history@), |p: R::Payload| R::disclosed(p)));
    out
}

/// What the active record of `history` shows to the owner.
pub fn disclose_current<R: HasProprietaryData>(history: &Vec<R>) -> (out: Option<
    ProprietaryDataResult,
>)
    ensures
        match out {
            Some(shown) => current(records(history@)) is Some && shown@ == R::disclosed(
                current(records(history@))->0,
            ),
            None => current(records(history@)) is None,
        },
{
    match find_active(history) {
        Some(k) => {
            let row = history[k].get_data(AccessLevel::Owner);
            Some(row.0)
        },
        None => None,
    }
}

} // verus!
