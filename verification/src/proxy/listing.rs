//! Decoding the upstream listing.
//!
//! The upstream answers the listing route with a JSON array; each entry
//! carries a slug, a nine-component `created_at` vector, a like-shaped
//! `updated_at` vector, and `title` and `description` strings.  The move
//! from text into those plain values is trusted (`crate::json`); every
//! rule about them — the vector lengths, the calendar, which entries are
//! dropped, the order of the result — is verified here.  An entry that
//! fails to decode is dropped, never failing the listing.

use vstd::prelude::*;

use crate::dates::decode_created_at;
use crate::dates::spec_valid_created_at;
use crate::errors::Fault;
use crate::json::parse_raw_listing;
use crate::json::spec_entries_view;
use crate::json::spec_raw_listing_of;
use crate::proxy::ContentItem;
use crate::proxy::RawEntry;
use crate::proxy::RawEntryModel;
use crate::proxy::order::sort_items_desc;
use crate::proxy::order::spec_sort_desc;
use crate::proxy::order::spec_sorted_desc;
use crate::proxy::order::lemma_sort_desc_contains;

verus! {

/// The rule an entry must meet to join the listing: nine-component time
/// vectors, and a creation time whose year and day-of-year name an
/// existing day.
pub open spec fn spec_entry_decodes(e: RawEntryModel) -> bool {
    &&& e.created_at.len() == 9
    &&& e.updated_at.len() == 9
    &&& spec_valid_created_at(e.created_at[0] as int, e.created_at[1] as int)
}

/// `item` is the decoding of `e`: the same slug, title and description,
/// and the creation time read from the vector's year and day-of-year
/// components.
pub open spec fn spec_item_of_entry(item: ContentItem, e: RawEntryModel) -> bool {
    &&& item.name@ == e.name
    &&& item.title@ == e.title
    &&& item.description@ == e.description
    &&& item.created_at.year as int == e.created_at[0]
    &&& item.created_at.ordinal as int == e.created_at[1]
}

/// One slot of a decoded listing: a decodable entry yields exactly its
/// item, an undecodable one yields nothing, and nothing is invented.
pub open spec fn spec_slot_matches(entry: Option<RawEntryModel>, item: Option<ContentItem>) -> bool {
    match (entry, item) {
        (Some(e), Some(it)) => spec_entry_decodes(e) && spec_item_of_entry(it, e) && it.wf(),
        (Some(e), None) => !spec_entry_decodes(e),
        (None, None) => true,
        (None, Some(_)) => false,
    }
}

/// `parsed` decodes `entries` entry for entry, in order.
pub open spec fn spec_decoded_matches(
    entries: Seq<Option<RawEntryModel>>,
    parsed: Seq<Option<ContentItem>>,
) -> bool {
    &&& parsed.len() == entries.len()
    &&& forall|i: int|
        0 <= i < entries.len() ==> spec_slot_matches(entries[i], #[trigger] parsed[i])
}

/// Decodes one listing entry: `Some` exactly when the entry meets the
/// listing's rule, and then the item carries that entry's slug, title,
/// description and decoded creation date.
pub fn parse_item_data(entry: &RawEntry) -> (r: Option<ContentItem>)
    ensures
        r is Some <==> spec_entry_decodes(entry@),
        r matches Some(item) ==> spec_item_of_entry(item, entry@) && item.wf(),
{
    let created_at = match decode_created_at(&entry.created_at) {
        Some(d) => d,
        None => {
            return None;
        },
    };
    if entry.updated_at.len() != 9 {
        return None;
    }
    Some(
        ContentItem {
            name: entry.name.clone(),
            title: entry.title.clone(),
            description: entry.description.clone(),
            created_at,
        },
    )
}

/// The decoded items of a parsed sequence, in upstream order: the `Some`
/// entries, with the failed (`None`) entries left out.
pub open spec fn spec_collect_somes(s: Seq<Option<ContentItem>>) -> Seq<ContentItem>
    decreases s.len(),
{
    if s.len() == 0 {
        Seq::empty()
    } else {
        match s[0] {
            Some(x) => seq![x] + spec_collect_somes(s.drop_first()),
            None => spec_collect_somes(s.drop_first()),
        }
    }
}

/// Law: an entry whose metadata fails to decode is excluded without
/// disturbing the rest — dropping the failed entry from the parsed
/// sequence leaves the collected listing unchanged.
pub proof fn lemma_undecodable_entry_dropped(
    prefix: Seq<Option<ContentItem>>,
    suffix: Seq<Option<ContentItem>>,
)
    ensures
        spec_collect_somes(prefix + seq![Option::<ContentItem>::None] + suffix)
            == spec_collect_somes(prefix + suffix),
    decreases prefix.len(),
{
    let with = prefix + seq![Option::<ContentItem>::None] + suffix;
    let without = prefix + suffix;
    if prefix.len() == 0 {
        assert(with =~= seq![Option::<ContentItem>::None] + suffix);
        assert(with[0] is None);
        assert(with.drop_first() =~= suffix);
        assert(without =~= suffix);
    } else {
        assert(with[0] == prefix[0]);
        assert(without[0] == prefix[0]);
        assert(with.drop_first() =~= prefix.drop_first() + seq![Option::<ContentItem>::None]
            + suffix);
        assert(without.drop_first() =~= prefix.drop_first() + suffix);
        lemma_undecodable_entry_dropped(prefix.drop_first(), suffix);
    }
}

proof fn lemma_collect_somes_skip(s: Seq<Option<ContentItem>>, i: int)
    requires
        0 <= i < s.len(),
    ensures
        spec_collect_somes(s.skip(i)) == (match s[i] {
            Some(x) => seq![x] + spec_collect_somes(s.skip(i + 1)),
            None => spec_collect_somes(s.skip(i + 1)),
        }),
{
    assert(s.skip(i)[0] == s[i]);
    assert(s.skip(i).drop_first() =~= s.skip(i + 1));
}

proof fn lemma_collect_somes_from(s: Seq<Option<ContentItem>>, y: ContentItem)
    requires
        spec_collect_somes(s).contains(y),
    ensures
        exists|j: int| 0 <= j < s.len() && s[j] == Some(y),
    decreases s.len(),
{
    if s.len() > 0 {
        match s[0] {
            Some(x) => {
                if x == y {
                    assert(s[0] == Some(y));
                } else {
                    let c = seq![x] + spec_collect_somes(s.drop_first());
                    let i = choose|i: int| 0 <= i < c.len() && c[i] == y;
                    assert(spec_collect_somes(s.drop_first())[i - 1] == y);
                    assert(spec_collect_somes(s.drop_first()).contains(y));
                    lemma_collect_somes_from(s.drop_first(), y);
                    let j = choose|j: int|
                        0 <= j < s.drop_first().len() && s.drop_first()[j] == Some(y);
                    assert(s[j + 1] == Some(y));
                }
            },
            None => {
                lemma_collect_somes_from(s.drop_first(), y);
                let j = choose|j: int|
                    0 <= j < s.drop_first().len() && s.drop_first()[j] == Some(y);
                assert(s[j + 1] == Some(y));
            },
        }
    }
}

/// Normalizes a parsed listing: drops the entries that failed to decode
/// and sorts the rest newest first, keeping the upstream order between
/// items with equal creation timestamps.
pub fn normalize_items(parsed: Vec<Option<ContentItem>>) -> (r: Vec<ContentItem>)
    ensures
        r@ == spec_sort_desc(spec_collect_somes(parsed@)),
        spec_sorted_desc(r@),
{
    let ghost input = parsed@;
    let mut parsed = parsed;
    let total: usize = parsed.len();
    let mut kept: Vec<ContentItem> = Vec::new();
    let mut i: usize = 0;
    proof {
        assert(input.skip(0) =~= input);
        assert(Seq::<ContentItem>::empty() + spec_collect_somes(input) =~= spec_collect_somes(
            input,
        ));
    }
    while parsed.len() > 0
        invariant
            input.len() == i + parsed@.len(),
            input.len() == total,
            parsed@ == input.skip(i as int),
            i <= input.len(),
            kept@ + spec_collect_somes(input.skip(i as int)) == spec_collect_somes(input),
        decreases parsed@.len(),
    {
        proof {
            lemma_collect_somes_skip(input, i as int);
        }
        let next = parsed.remove(0);
        proof {
            assert(input.skip(i as int).remove(0) =~= input.skip(i as int + 1));
        }
        match next {
            Some(x) => {
                let ghost kept0 = kept@;
                kept.push(x);
                proof {
                    assert(kept0 + (seq![x] + spec_collect_somes(input.skip(i as int + 1)))
                        =~= kept0.push(x) + spec_collect_somes(input.skip(i as int + 1)));
                }
            },
            None => {},
        }
        i = i + 1;
    }
    proof {
        assert(input.skip(i as int) =~= Seq::<Option<ContentItem>>::empty());
        assert(kept@ + spec_collect_somes(input.skip(i as int)) =~= kept@);
        assert(kept@ == spec_collect_somes(input));
    }
    sort_items_desc(kept)
}

/// Decodes a parsed listing end to end: exactly one item per decodable
/// entry, carrying that entry's values, the failed entries dropped, and
/// the result sorted newest first with the upstream order kept between
/// equal timestamps.
pub fn list_items(entries: &Vec<Option<RawEntry>>) -> (r: Vec<ContentItem>)
    ensures
        spec_listing_decodes_to(spec_entries_view(entries@), r@),
        spec_sorted_desc(r@),
        forall|k: int| 0 <= k < r@.len() ==> (#[trigger] r@[k]).wf(),
{
    let ghost entry_models = spec_entries_view(entries@);
    let mut parsed: Vec<Option<ContentItem>> = Vec::new();
    let mut k: usize = 0;
    while k < entries.len()
        invariant
            parsed@.len() == k,
            k <= entries@.len(),
            entry_models == spec_entries_view(entries@),
            entry_models.len() == entries@.len(),
            forall|j: int|
                0 <= j < k ==> spec_slot_matches(entry_models[j], #[trigger] parsed@[j]),
        decreases entries@.len() - k,
    {
        match &entries[k] {
            Some(raw) => {
                parsed.push(parse_item_data(raw));
            },
            None => {
                parsed.push(None);
            },
        }
        k = k + 1;
    }
    let ghost parsed_seq = parsed@;
    let r = normalize_items(parsed);
    proof {
        assert(spec_decoded_matches(entry_models, parsed_seq) && r@ == spec_sort_desc(
            spec_collect_somes(parsed_seq),
        ));
        assert(spec_listing_decodes_to(entry_models, r@));
        assert forall|k: int| 0 <= k < r@.len() implies (#[trigger] r@[k]).wf() by {
            assert(r@.contains(r@[k]));
            lemma_sort_desc_contains(spec_collect_somes(parsed_seq), r@[k]);
            lemma_collect_somes_from(parsed_seq, r@[k]);
            let j = choose|j: int| 0 <= j < parsed_seq.len() && parsed_seq[j] == Some(r@[k]);
            assert(spec_slot_matches(entry_models[j], parsed_seq[j]));
        }
    }
    r
}

/// `items` is the decoded listing of the entries `m`: some entry-for-entry
/// decoding of `m` exists whose kept items, sorted newest first, are
/// exactly `items`.
pub open spec fn spec_listing_decodes_to(
    m: Seq<Option<RawEntryModel>>,
    items: Seq<ContentItem>,
) -> bool {
    exists|parsed: Seq<Option<ContentItem>>|
        #![auto]
        spec_decoded_matches(m, parsed) && items == spec_sort_desc(spec_collect_somes(parsed))
}

/// Decodes the listing from the upstream's raw response text.  Succeeds
/// exactly when the text is a JSON array; the result then lists one item
/// per decodable entry of that array, newest first.  Any other document
/// is a decode failure of the whole listing.
pub fn list_items_from_text(text: &str) -> (r: Result<Vec<ContentItem>, Fault>)
    ensures
        r is Ok <==> spec_raw_listing_of(text@) is Some,
        r is Err ==> r == Err::<Vec<ContentItem>, Fault>(Fault::DecodeFailure),
        r matches Ok(items) ==> {
            &&& (spec_raw_listing_of(text@) matches Some(m) && spec_listing_decodes_to(m, items@))
            &&& spec_sorted_desc(items@)
            &&& forall|k: int| 0 <= k < items@.len() ==> (#[trigger] items@[k]).wf()
        },
{
    match parse_raw_listing(text) {
        Some(entries) => {
            let items = list_items(&entries);
            proof {
                assert(spec_listing_decodes_to(spec_entries_view(entries@), items@));
            }
            Ok(items)
        },
        None => Err(Fault::DecodeFailure),
    }
}

} // verus!
