//! The root pointer: the most recently published reference to a
//! content-addressed snapshot of the site's assets.
//!
//! Pointers live in a small relational table written by an external
//! publishing process; this subsystem only reads them.  Given the rows of
//! that table, the current pointer is the one created last, with the highest
//! numeric identifier breaking a timestamp tie.

use vstd::prelude::*;

verus! {

/// One row of the pointer table: a numeric identifier assigned by the
/// store, the content address of a snapshot root (its textual form), and
/// the creation time as Unix seconds.
pub struct RootPointer {
    pub id: i64,
    pub cid: String,
    pub created_at: i64,
}

/// Mathematical model of a pointer row.
#[verifier::ext_equal]
pub struct PointerModel {
    pub id: int,
    pub cid: Seq<char>,
    pub created_at: int,
}

impl View for RootPointer {
    type V = PointerModel;

    open spec fn view(&self) -> PointerModel {
        PointerModel { id: self.id as int, cid: self.cid@, created_at: self.created_at as int }
    }
}

/// `a` was published no later than `b`: earlier creation time, with the
/// numeric identifier breaking ties.
pub open spec fn spec_pointer_le(a: PointerModel, b: PointerModel) -> bool {
    ||| a.created_at < b.created_at
    ||| (a.created_at == b.created_at && a.id <= b.id)
}

fn pointer_le(a: &RootPointer, b: &RootPointer) -> (r: bool)
    ensures
        r == spec_pointer_le(a@, b@),
{
    a.created_at < b.created_at || (a.created_at == b.created_at && a.id <= b.id)
}

/// The index of the current pointer among `rows`: the row every other row
/// precedes in publication order.  `None` exactly when the table is empty —
/// absence is a normal outcome, not an error.
pub fn current_pointer_index(rows: &Vec<RootPointer>) -> (r: Option<usize>)
    ensures
        r is Some <==> rows@.len() > 0,
        r matches Some(i) ==> {
            &&& i < rows@.len()
            &&& forall|j: int| 0 <= j < rows@.len() ==> spec_pointer_le(#[trigger] rows@[j]@, rows@[i as int]@)
        },
{
    if rows.len() == 0 {
        return None;
    }
    let mut best: usize = 0;
    let mut k: usize = 1;
    while k < rows.len()
        invariant
            0 < rows@.len(),
            best < k <= rows@.len(),
            forall|j: int| 0 <= j < k ==> spec_pointer_le(#[trigger] rows@[j]@, rows@[best as int]@),
        decreases rows@.len() - k,
    {
        if pointer_le(&rows[best], &rows[k]) {
            best = k;
        }
        k = k + 1;
    }
    Some(best)
}

} // verus!
