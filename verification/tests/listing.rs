use corpo::dates::OrdinalDate;
use corpo::errors::Fault;
use corpo::proxy::ContentItem;
use corpo::proxy::RawEntry;
use corpo::proxy::listing::list_items;
use corpo::proxy::listing::list_items_from_text;
use corpo::proxy::listing::normalize_items;
use corpo::proxy::listing::parse_item_data;
use corpo::proxy::order::sort_items_desc;

fn entry_json(name: &str, year: i64, ordinal: i64, title: &str) -> String {
    format!(
        "[\"{}\", [0, {{\"created_at\": [{}, {}, 0, 0, 0, 0, 0, 0, 0], \
         \"updated_at\": [{}, {}, 0, 0, 0, 0, 0, 0, 0], \
         \"metadata\": {{\"title\": \"{}\", \"description\": \"about {}\"}}}}]]",
        name, year, ordinal, year, ordinal, title, name
    )
}

fn raw_entry(name: &str, created_at: Vec<i64>, updated_at: Vec<i64>) -> RawEntry {
    RawEntry {
        name: name.to_owned(),
        created_at,
        updated_at,
        title: name.to_owned(),
        description: name.to_owned(),
    }
}

fn nine(year: i64, ordinal: i64) -> Vec<i64> {
    vec![year, ordinal, 0, 0, 0, 0, 0, 0, 0]
}

fn item(name: &str, year: u16, ordinal: u16) -> ContentItem {
    ContentItem {
        name: name.to_owned(),
        title: name.to_owned(),
        description: name.to_owned(),
        created_at: OrdinalDate { year, ordinal },
    }
}

#[test]
fn newest_entry_comes_first() {
    let text = format!(
        "[{}, {}]",
        entry_json("old-post", 2022, 1, "Old"),
        entry_json("new-post", 2023, 152, "New"),
    );
    let items = list_items_from_text(&text).expect("a JSON array must decode");
    assert_eq!(items.len(), 2);
    assert_eq!(items[0].name, "new-post");
    assert_eq!(items[0].title, "New");
    assert_eq!(items[0].created_at, OrdinalDate { year: 2023, ordinal: 152 });
    assert_eq!(items[1].name, "old-post");
    assert_eq!(items[1].created_at, OrdinalDate { year: 2022, ordinal: 1 });
}

#[test]
fn misshapen_entry_is_skipped_not_fatal() {
    let text = format!(
        "[{}, [\"broken\", [0, {{\"created_at\": \"soon\"}}]], {}]",
        entry_json("first", 2021, 30, "First"),
        entry_json("second", 2024, 60, "Second"),
    );
    let items = list_items_from_text(&text).expect("a JSON array must decode");
    assert_eq!(items.len(), 2);
    assert_eq!(items[0].name, "second");
    assert_eq!(items[1].name, "first");
}

#[test]
fn short_created_at_entry_is_skipped() {
    let text = format!(
        "[[\"brief\", [0, {{\"created_at\": [2023], \"updated_at\": [2023], \
         \"metadata\": {{\"title\": \"T\", \"description\": \"D\"}}}}]], {}]",
        entry_json("whole", 2024, 60, "Whole"),
    );
    let items = list_items_from_text(&text).expect("a JSON array must decode");
    assert_eq!(items.len(), 1);
    assert_eq!(items[0].name, "whole");
}

#[test]
fn equal_timestamps_keep_upstream_order() {
    let text = format!(
        "[{}, {}, {}]",
        entry_json("alpha", 2023, 100, "A"),
        entry_json("beta", 2023, 100, "B"),
        entry_json("gamma", 2024, 2, "C"),
    );
    let items = list_items_from_text(&text).expect("a JSON array must decode");
    assert_eq!(items.len(), 3);
    assert_eq!(items[0].name, "gamma");
    assert_eq!(items[1].name, "alpha");
    assert_eq!(items[2].name, "beta");
}

#[test]
fn invalid_date_entry_is_dropped() {
    let text = format!(
        "[{}, {}]",
        entry_json("impossible", 2023, 366, "Bad date"),
        entry_json("possible", 2024, 366, "Good date"),
    );
    let items = list_items_from_text(&text).expect("a JSON array must decode");
    assert_eq!(items.len(), 1);
    assert_eq!(items[0].name, "possible");
}

#[test]
fn missing_metadata_entry_is_dropped() {
    let text = format!(
        "[[\"bare\", [0, {{\"created_at\": [2023, 5, 0, 0, 0, 0, 0, 0, 0], \
         \"updated_at\": [2023, 5, 0, 0, 0, 0, 0, 0, 0]}}]], {}]",
        entry_json("full", 2023, 6, "Full"),
    );
    let items = list_items_from_text(&text).expect("a JSON array must decode");
    assert_eq!(items.len(), 1);
    assert_eq!(items[0].name, "full");
}

#[test]
fn parse_item_data_reads_all_fields() {
    let entry = RawEntry {
        name: "my-post".to_owned(),
        created_at: nine(2023, 45),
        updated_at: nine(2023, 50),
        title: "My Post".to_owned(),
        description: "about my-post".to_owned(),
    };
    let item = parse_item_data(&entry).expect("entry should decode");
    assert_eq!(item.name, "my-post");
    assert_eq!(item.title, "My Post");
    assert_eq!(item.description, "about my-post");
    assert_eq!(item.created_at, OrdinalDate { year: 2023, ordinal: 45 });
}

#[test]
fn parse_item_data_rejects_bad_vectors() {
    assert!(parse_item_data(&raw_entry("short", vec![2023, 45], nine(2023, 45))).is_none());
    assert!(parse_item_data(&raw_entry("stale", nine(2023, 45), vec![2023])).is_none());
    assert!(parse_item_data(&raw_entry("wild", nine(2023, 400), nine(2023, 45))).is_none());
    assert!(parse_item_data(&raw_entry("fine", nine(2023, 45), nine(2023, 45))).is_some());
}

#[test]
fn listing_text_that_is_not_an_array_is_a_decode_failure() {
    assert_eq!(list_items_from_text("{\"posts\": []}").err(), Some(Fault::DecodeFailure));
    assert_eq!(list_items_from_text("not json at all").err(), Some(Fault::DecodeFailure));
}

#[test]
fn empty_listing_text_yields_no_items() {
    let items = list_items_from_text("[]").expect("an empty array is a fine listing");
    assert!(items.is_empty());
}

#[test]
fn list_items_drops_misshapen_slots_and_sorts() {
    let entries = vec![
        None,
        Some(raw_entry("older", nine(2021, 7), nine(2021, 7))),
        Some(raw_entry("undated", vec![], nine(2021, 7))),
        Some(raw_entry("newer", nine(2023, 7), nine(2023, 7))),
    ];
    let items = list_items(&entries);
    assert_eq!(items.len(), 2);
    assert_eq!(items[0].name, "newer");
    assert_eq!(items[1].name, "older");
}

#[test]
fn normalize_drops_nones_and_sorts() {
    let parsed = vec![
        None,
        Some(item("older", 2021, 7)),
        None,
        Some(item("newer", 2023, 7)),
        None,
    ];
    let items = normalize_items(parsed);
    assert_eq!(items.len(), 2);
    assert_eq!(items[0].name, "newer");
    assert_eq!(items[1].name, "older");
}

#[test]
fn sort_is_stable_and_complete() {
    let items = vec![
        item("b", 2020, 10),
        item("d", 2024, 1),
        item("a", 2020, 10),
        item("c", 2020, 9),
    ];
    let sorted = sort_items_desc(items);
    let names: Vec<&str> = sorted.iter().map(|i| i.name.as_str()).collect();
    assert_eq!(names, vec!["d", "b", "a", "c"]);
}
