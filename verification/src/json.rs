//! Trusted decoding of the upstream listing document.
//!
//! The move from JSON text into the plain values of `RawEntry` is the one
//! step this crate takes on trust: it is the work serde's derived
//! deserializer did, and it is a function of the text alone, so its result
//! is named by `spec_raw_listing_of` and everything downstream is verified
//! against that name.  Nothing the entries hold is validated here — an
//! entry without the listing shape becomes `None`, and the shape's content
//! rules (vector lengths, the calendar) are verified work in
//! `proxy::listing`.

use vstd::prelude::*;

use crate::proxy::RawEntry;
use crate::proxy::RawEntryModel;

verus! {

#[verifier::external_type_specification]
#[verifier::external_body]
pub struct ExValue(serde_json::Value);

/// The listing entries encoded in `text`: `None` when the text is not a
/// JSON array; otherwise one element per entry of the array, in order —
/// `None` where the entry does not have the listing shape, and its plain
/// values where it does.
pub uninterp spec fn spec_raw_listing_of(text: Seq<char>) -> Option<Seq<Option<RawEntryModel>>>;

/// The models of a parsed entry sequence, element for element.
pub open spec fn spec_entries_view(entries: Seq<Option<RawEntry>>) -> Seq<Option<RawEntryModel>> {
    entries.map_values(
        |e: Option<RawEntry>|
            match e {
                Option::Some(x) => Option::Some(x@),
                Option::None => Option::<RawEntryModel>::None,
            },
    )
}

/// Relies on `serde_json::from_str::<Vec<Value>>`, with the entry
/// conversion below: decodes the whole listing document into plain
/// values, `None` exactly when the text is not a JSON array.  The parser
/// returns an error (never panics) on any other text, and the result
/// depends on the text alone.
#[verifier::external_body]
pub(crate) fn parse_raw_listing(text: &str) -> (r: Option<Vec<Option<RawEntry>>>)
    ensures
        r is Some <==> spec_raw_listing_of(text@) is Some,
        r matches Some(entries) ==> spec_raw_listing_of(text@) == Some(
            spec_entries_view(entries@),
        ),
{
    let document: Vec<serde_json::Value> = serde_json::from_str(text).ok()?;
    Some(document.into_iter().map(raw_entry_of_value).collect())
}

/// Relies on `serde_json::Value` navigation (`get`, `as_str`): one
/// listing entry moved into plain values — the slug at index zero, the
/// item data at index one of index one, its two time vectors and its two
/// metadata strings — `None` when any part of that shape is absent or of
/// another JSON type.
#[verifier::external_body]
fn raw_entry_of_value(v: serde_json::Value) -> (r: Option<RawEntry>) {
    let name = v.get(0)?.as_str()?.to_owned();
    let data = v.get(1)?.get(1)?;
    let created_at = int_components_of(data.get("created_at")?)?;
    let updated_at = int_components_of(data.get("updated_at")?)?;
    let metadata = data.get("metadata")?;
    let title = metadata.get("title")?.as_str()?.to_owned();
    let description = metadata.get("description")?.as_str()?.to_owned();
    Some(RawEntry { name, created_at, updated_at, title, description })
}

/// Relies on `Value::as_array` and `Value::as_i64`: a JSON array of
/// integers as a vector, `None` when the value is not an array or holds
/// anything but integers that fit in an `i64`.
#[verifier::external_body]
fn int_components_of(v: &serde_json::Value) -> (r: Option<Vec<i64>>) {
    v.as_array()?.iter().map(serde_json::Value::as_i64).collect()
}

} // verus!
