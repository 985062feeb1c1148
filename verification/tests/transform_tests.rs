use reading_sync::json::Json;
use reading_sync::transform::{transform, ReadingList};

fn entry(key: &str, value: Json) -> (String, Json) {
    (String::from(key), value)
}

fn text(s: &str) -> Json {
    Json::Str(String::from(s))
}

fn record(url: Option<&str>, title: Option<&str>, date: Option<&str>) -> Json {
    let mut props: Vec<(String, Json)> = Vec::new();
    if let Some(u) = url {
        props.push(entry("URL", Json::Obj(vec![entry("url", text(u))])));
    }
    if let Some(t) = title {
        props.push(entry(
            "Name",
            Json::Obj(vec![entry(
                "title",
                Json::Arr(vec![Json::Obj(vec![entry("plain_text", text(t))])]),
            )]),
        ));
    }
    let mut fields: Vec<(String, Json)> = Vec::new();
    if let Some(d) = date {
        fields.push(entry("created_time", text(d)));
    }
    fields.push(entry("properties", Json::Obj(props)));
    Json::Obj(fields)
}

fn response(records: Vec<Json>) -> Json {
    Json::Obj(vec![entry("results", Json::Arr(records))])
}

fn items(response_value: &Json) -> ReadingList {
    transform(response_value).expect("expected a results array")
}

#[test]
fn well_formed_records_yield_items_in_order() {
    let r = response(vec![
        record(Some("https://a.example"), Some("First"), Some("2024-01-01T00:00:00.000Z")),
        record(Some("https://b.example"), Some("Second"), Some("2024-01-02T00:00:00.000Z")),
    ]);
    let list = items(&r);
    assert_eq!(list.0.len(), 2);
    assert_eq!(list.0[0].title, "First");
    assert_eq!(list.0[0].url, "https://a.example");
    assert_eq!(list.0[0].date, "2024-01-01T00:00:00.000Z");
    assert_eq!(list.0[1].title, "Second");
    assert_eq!(list.0[1].url, "https://b.example");
    assert_eq!(list.0[1].date, "2024-01-02T00:00:00.000Z");
}

#[test]
fn record_missing_url_is_dropped_others_kept() {
    let r = response(vec![
        record(Some("https://a.example"), Some("First"), Some("2024-01-01T00:00:00.000Z")),
        record(None, Some("No link"), Some("2024-01-02T00:00:00.000Z")),
        record(Some("https://c.example"), Some("Third"), Some("2024-01-03T00:00:00.000Z")),
    ]);
    let list = items(&r);
    assert_eq!(list.0.len(), 2);
    assert_eq!(list.0[0].title, "First");
    assert_eq!(list.0[1].title, "Third");
}

#[test]
fn record_missing_title_is_dropped() {
    let r = response(vec![record(
        Some("https://a.example"),
        None,
        Some("2024-01-01T00:00:00.000Z"),
    )]);
    assert_eq!(items(&r).0.len(), 0);
}

#[test]
fn record_missing_date_is_dropped() {
    let r = response(vec![record(Some("https://a.example"), Some("First"), None)]);
    assert_eq!(items(&r).0.len(), 0);
}

#[test]
fn record_with_empty_title_array_is_dropped() {
    let r = response(vec![Json::Obj(vec![
        entry("created_time", text("2024-01-01T00:00:00.000Z")),
        entry(
            "properties",
            Json::Obj(vec![
                entry("URL", Json::Obj(vec![entry("url", text("https://a.example"))])),
                entry("Name", Json::Obj(vec![entry("title", Json::Arr(vec![]))])),
            ]),
        ),
    ])]);
    assert_eq!(items(&r).0.len(), 0);
}

#[test]
fn record_with_empty_url_is_dropped() {
    let r = response(vec![record(Some(""), Some("First"), Some("2024-01-01T00:00:00.000Z"))]);
    assert_eq!(items(&r).0.len(), 0);
}

#[test]
fn record_with_wrongly_shaped_url_is_dropped() {
    let r = response(vec![Json::Obj(vec![
        entry("created_time", text("2024-01-01T00:00:00.000Z")),
        entry(
            "properties",
            Json::Obj(vec![
                entry("URL", Json::Obj(vec![entry("url", Json::Bool(true))])),
                entry(
                    "Name",
                    Json::Obj(vec![entry(
                        "title",
                        Json::Arr(vec![Json::Obj(vec![entry("plain_text", text("First"))])]),
                    )]),
                ),
            ]),
        ),
    ])]);
    assert_eq!(items(&r).0.len(), 0);
}

#[test]
fn slashes_in_title_become_hyphens() {
    let r = response(vec![record(
        Some("https://a.example"),
        Some("a/b"),
        Some("2024-01-01T00:00:00.000Z"),
    )]);
    let list = items(&r);
    assert_eq!(list.0.len(), 1);
    assert_eq!(list.0[0].title, "a-b");
}

#[test]
fn missing_results_array_fails_transformation() {
    let r = Json::Obj(vec![entry("object", text("list"))]);
    assert!(transform(&r).is_none());
}

#[test]
fn non_array_results_fails_transformation() {
    let r = Json::Obj(vec![entry("results", text("oops"))]);
    assert!(transform(&r).is_none());
}

#[test]
fn empty_results_yield_empty_list() {
    let r = response(vec![]);
    let list = items(&r);
    assert_eq!(list.0.len(), 0);
}
