//! Finding an epic in a list: the rows of the epic list and the name of the
//! filter.

use vstd::prelude::*;
use crate::models::{epics_view, Epic, EpicView};

verus! {

/// Whether `i` is the position of the first epic with this id.
pub open spec fn is_first_with_id(epics: Seq<EpicView>, id: i64, i: int) -> bool {
    &&& 0 <= i < epics.len()
    &&& epics[i].id == id
    &&& forall|j: int| 0 <= j < i ==> epics[j].id != id
}

/// The position of the first epic with this id, where there is one.
pub open spec fn first_with_id(epics: Seq<EpicView>, id: i64) -> int {
    choose|i: int| is_first_with_id(epics, id, i)
}

/// The row of the epic list that shows the epic with this id: one more than
/// the position of the first epic with that id, or 0 if none is listed.
pub open spec fn row_of_epic(id: i64, epics: Seq<EpicView>) -> int {
    if exists|i: int| is_first_with_id(epics, id, i) {
        first_with_id(epics, id) + 1
    } else {
        0
    }
}

/// The row of the epic list that stands for a filter: row 0, "All Epics",
/// for no filter and for a filter on an epic that is not listed; else the
/// row of that epic.
pub open spec fn filter_row(filter: Option<i64>, epics: Seq<EpicView>) -> int {
    match filter {
        Some(id) => row_of_epic(id, epics),
        None => 0,
    }
}

/// The row of a filter on a listed epic is one more than the position of the
/// first epic with that id.
pub proof fn lemma_filter_row_of_listed(epics: Seq<EpicView>, id: i64, i: int)
    requires
        is_first_with_id(epics, id, i),
    ensures
        filter_row(Some(id), epics) == i + 1,
{
    assert(is_first_with_id(epics, id, first_with_id(epics, id)));
}

/// The row of a filter on an epic that is not listed is row 0.
pub proof fn lemma_filter_row_of_unlisted(epics: Seq<EpicView>, id: i64)
    requires
        forall|i: int| 0 <= i < epics.len() ==> epics[i].id != id,
    ensures
        filter_row(Some(id), epics) == 0,
{
}

/// The row of the epic list that stands for `filter`.
pub fn epic_row(epics: &Vec<Epic>, filter: Option<i64>) -> (row: usize)
    ensures
        row == filter_row(filter, epics_view(epics@)),
        row <= epics@.len(),
        match filter {
            Some(id) => if row == 0 {
                forall|i: int| 0 <= i < epics@.len() ==> epics@[i].id != id
            } else {
                is_first_with_id(epics_view(epics@), id, row - 1)
            },
            None => row == 0,
        },
{
    let id = match filter {
        Some(id) => id,
        None => {
            return 0;
        },
    };
    let ghost listed = epics_view(epics@);
    let mut i: usize = 0;
    while i < epics.len()
        invariant
            0 <= i <= epics@.len(),
            filter == Some(id),
            listed == epics_view(epics@),
            forall|j: int| 0 <= j < i ==> listed[j].id != id,
        decreases epics@.len() - i,
    {
        if epics[i].id == id {
            proof {
                assert(listed[i as int] == epics@[i as int]@);
                assert(is_first_with_id(listed, id, i as int));
                lemma_filter_row_of_listed(listed, id, i as int);
            }
            return i + 1;
        }
        i += 1;
    }
    proof {
        lemma_filter_row_of_unlisted(listed, id);
        assert forall|j: int| 0 <= j < epics@.len() implies epics@[j].id != id by {
            assert(listed[j] == epics@[j]@);
        }
    }
    0
}

} // verus!
