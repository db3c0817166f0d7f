//! Listing order: newest first, stable for items that share a creation
//! timestamp.
//!
//! The order is specified as repeated insertion: each item goes after every
//! item already placed that it does not strictly postdate, so items with
//! equal timestamps keep the order the upstream sent them in.

use vstd::prelude::*;

use crate::proxy::ContentItem;

verus! {

/// `a` was created no later than `b`.
pub open spec fn spec_created_le(a: ContentItem, b: ContentItem) -> bool {
    ||| a.created_at.year < b.created_at.year
    ||| (a.created_at.year == b.created_at.year && a.created_at.ordinal <= b.created_at.ordinal)
}

fn created_le(a: &ContentItem, b: &ContentItem) -> (r: bool)
    ensures
        r == spec_created_le(*a, *b),
{
    a.created_at.year < b.created_at.year || (a.created_at.year == b.created_at.year
        && a.created_at.ordinal <= b.created_at.ordinal)
}

/// Where `x` lands in the ordered run `s`: after every item it does not
/// strictly postdate.
pub open spec fn spec_insert_pos(s: Seq<ContentItem>, x: ContentItem) -> int
    decreases s.len(),
{
    if s.len() == 0 {
        0
    } else if spec_created_le(x, s[0]) {
        1 + spec_insert_pos(s.drop_first(), x)
    } else {
        0
    }
}

/// `x` inserted into the ordered run `s`.
pub open spec fn spec_insert_desc(s: Seq<ContentItem>, x: ContentItem) -> Seq<ContentItem> {
    s.insert(spec_insert_pos(s, x), x)
}

/// The listing order: newest first, each item inserted after the items the
/// upstream sent before it that it does not strictly postdate.
pub open spec fn spec_sort_desc(s: Seq<ContentItem>) -> Seq<ContentItem>
    decreases s.len(),
{
    if s.len() == 0 {
        Seq::empty()
    } else {
        spec_insert_desc(spec_sort_desc(s.drop_last()), s.last())
    }
}

/// Newest first: every later item was created no later than every earlier
/// one.
pub open spec fn spec_sorted_desc(s: Seq<ContentItem>) -> bool {
    forall|i: int, j: int| 0 <= i < j < s.len() ==> spec_created_le(s[j], s[i])
}

proof fn lemma_insert_pos_bounds(s: Seq<ContentItem>, x: ContentItem)
    ensures
        0 <= spec_insert_pos(s, x) <= s.len(),
        forall|k: int| 0 <= k < spec_insert_pos(s, x) ==> spec_created_le(x, #[trigger] s[k]),
        spec_insert_pos(s, x) < s.len() ==> !spec_created_le(x, s[spec_insert_pos(s, x)]),
    decreases s.len(),
{
    if s.len() > 0 && spec_created_le(x, s[0]) {
        lemma_insert_pos_bounds(s.drop_first(), x);
        let p = spec_insert_pos(s, x);
        assert forall|k: int| 0 <= k < p implies spec_created_le(x, #[trigger] s[k]) by {
            if k > 0 {
                assert(s.drop_first()[k - 1] == s[k]);
            }
        }
        if p < s.len() {
            assert(s.drop_first()[p - 1] == s[p]);
        }
    }
}

proof fn lemma_insert_pos_unique(s: Seq<ContentItem>, x: ContentItem, p: int)
    requires
        0 <= p <= s.len(),
        forall|k: int| 0 <= k < p ==> spec_created_le(x, #[trigger] s[k]),
        p < s.len() ==> !spec_created_le(x, s[p]),
    ensures
        spec_insert_pos(s, x) == p,
    decreases p,
{
    if p > 0 {
        lemma_insert_pos_unique(s.drop_first(), x, p - 1);
    }
}

proof fn lemma_insert_desc_sorted(s: Seq<ContentItem>, x: ContentItem)
    requires
        spec_sorted_desc(s),
    ensures
        spec_sorted_desc(spec_insert_desc(s, x)),
{
    let p = spec_insert_pos(s, x);
    let r = spec_insert_desc(s, x);
    lemma_insert_pos_bounds(s, x);
    assert forall|i: int, j: int| 0 <= i < j < r.len() implies spec_created_le(r[j], r[i]) by {
        if i < p && j == p {
            assert(spec_created_le(x, s[i]));
        } else if i == p && j > p {
            assert(!spec_created_le(x, s[p]));
            assert(spec_created_le(s[j - 1], s[p]) || j - 1 == p);
        }
    }
}

proof fn lemma_insert_desc_multiset(s: Seq<ContentItem>, x: ContentItem)
    ensures
        spec_insert_desc(s, x).to_multiset() == s.to_multiset().insert(x),
{
    lemma_insert_pos_bounds(s, x);
    broadcast use vstd::seq_lib::group_to_multiset_ensures;

}

/// Law: the listing order is a sort — it holds exactly the items it was
/// given, newest first.
pub proof fn lemma_sort_desc_correct(s: Seq<ContentItem>)
    ensures
        spec_sorted_desc(spec_sort_desc(s)),
        spec_sort_desc(s).to_multiset() == s.to_multiset(),
        spec_sort_desc(s).len() == s.len(),
    decreases s.len(),
{
    broadcast use vstd::seq_lib::group_to_multiset_ensures;

    if s.len() == 0 {
        assert(spec_sort_desc(s).to_multiset() =~= s.to_multiset());
    } else {
        let rest = spec_sort_desc(s.drop_last());
        lemma_sort_desc_correct(s.drop_last());
        lemma_insert_desc_sorted(rest, s.last());
        lemma_insert_desc_multiset(rest, s.last());
        assert(s =~= s.drop_last().push(s.last()));
        assert(s.drop_last().push(s.last()).to_multiset() =~= s.drop_last().to_multiset().insert(
            s.last(),
        ));
    }
    assert(spec_sort_desc(s).len() == spec_sort_desc(s).to_multiset().len());
    assert(s.len() == s.to_multiset().len());
}

/// Law: everything a sorted listing holds came from its input.
pub proof fn lemma_sort_desc_contains(s: Seq<ContentItem>, y: ContentItem)
    ensures
        spec_sort_desc(s).contains(y) <==> s.contains(y),
{
    broadcast use vstd::seq_lib::group_to_multiset_ensures;

    lemma_sort_desc_correct(s);
    assert(spec_sort_desc(s).contains(y) <==> spec_sort_desc(s).to_multiset().count(y) > 0);
    assert(s.contains(y) <==> s.to_multiset().count(y) > 0);
}

/// Law: the listing never places an item created strictly later after one
/// created earlier — for creation times `t1 > t2`, the `t1` item precedes
/// the `t2` item.
pub proof fn lemma_newer_precedes(s: Seq<ContentItem>, i: int, j: int)
    requires
        spec_sorted_desc(s),
        0 <= i < s.len(),
        0 <= j < s.len(),
        !spec_created_le(s[i], s[j]),
    ensures
        i < j,
{
}

/// Sorts a listing newest first; mirrors `spec_sort_desc`, so the upstream
/// order is kept between items with equal creation timestamps.
pub fn sort_items_desc(items: Vec<ContentItem>) -> (r: Vec<ContentItem>)
    ensures
        r@ == spec_sort_desc(items@),
        spec_sorted_desc(r@),
        r@.to_multiset() == items@.to_multiset(),
{
    let ghost input = items@;
    let mut items = items;
    let total: usize = items.len();
    let mut out: Vec<ContentItem> = Vec::new();
    let mut i: usize = 0;
    while items.len() > 0
        invariant
            input.len() == i + items@.len(),
            input.len() == total,
            items@ == input.skip(i as int),
            i <= input.len(),
            out@ == spec_sort_desc(input.take(i as int)),
        decreases items@.len(),
    {
        let x = items.remove(0);
        let ghost out0 = out@;
        let mut p: usize = 0;
        while p < out.len() && created_le(&x, &out[p])
            invariant
                out@ == out0,
                p <= out0.len(),
                forall|k: int| 0 <= k < p ==> spec_created_le(x, #[trigger] out0[k]),
            decreases out0.len() - p,
        {
            p = p + 1;
        }
        proof {
            lemma_insert_pos_unique(out0, x, p as int);
        }
        out.insert(p, x);
        proof {
            assert(input.take(i + 1).drop_last() =~= input.take(i as int));
            assert(input.take(i + 1).last() == input[i as int]);
            assert(input.skip(i as int).drop_first() =~= input.skip(i + 1));
        }
        i = i + 1;
    }
    proof {
        assert(input.take(i as int) =~= input);
        lemma_sort_desc_correct(input);
    }
    out
}

} // verus!
