use grant_metrics::airtable::{
    airtable_verifications, count_records, lookup_with, read_records, records_url, view_name,
    AirTableViews, Lookup, Query, Reading, MAX_RECORDS,
};
use grant_metrics::json::Json;
use grant_metrics::transfers::FetchError;

fn object(members: Vec<(&str, Json)>) -> Json {
    Json::Object(members.into_iter().map(|(k, v)| (k.to_string(), v)).collect())
}

fn from_serde(value: &serde_json::Value) -> Json {
    match value {
        serde_json::Value::Null => Json::Null,
        serde_json::Value::Bool(b) => Json::Bool(*b),
        serde_json::Value::Number(n) => Json::Number(n.as_i64()),
        serde_json::Value::String(s) => Json::Text(s.clone()),
        serde_json::Value::Array(items) => Json::Array(items.iter().map(from_serde).collect()),
        serde_json::Value::Object(members) => {
            Json::Object(members.iter().map(|(k, v)| (k.clone(), from_serde(v))).collect())
        }
    }
}

fn answer(text: &str) -> Result<Json, FetchError> {
    match serde_json::from_str::<serde_json::Value>(text) {
        Ok(value) => Ok(from_serde(&value)),
        Err(_) => Err(FetchError::Decode),
    }
}

#[test]
fn views_have_their_names() {
    assert_eq!(view_name(AirTableViews::Pending), "Pending");
    assert_eq!(view_name(AirTableViews::Approved), "Approved");
}

#[test]
fn cap_is_twenty() {
    assert_eq!(MAX_RECORDS, 20);
}

#[test]
fn url_names_cap_and_view() {
    assert_eq!(
        records_url(AirTableViews::Pending),
        Some(
            "https://api.airtable.com/v0/app4Bs8Tjwvk5qcD4/Verifications?maxRecords=20&view=Pending"
                .to_string()
        )
    );
    assert_eq!(
        records_url(AirTableViews::Approved),
        Some(
            "https://api.airtable.com/v0/app4Bs8Tjwvk5qcD4/Verifications?maxRecords=20&view=Approved"
                .to_string()
        )
    );
}

#[test]
fn no_credential_counts_zero_without_query() {
    assert_eq!(airtable_verifications(None, AirTableViews::Pending), Lookup::Count(0));
    assert_eq!(airtable_verifications(None, AirTableViews::Approved), Lookup::Count(0));
}

#[test]
fn credential_gives_query_with_bearer_token() {
    let lookup = airtable_verifications(Some("key123".to_string()), AirTableViews::Approved);
    assert_eq!(
        lookup,
        Lookup::Send(Query {
            url: records_url(AirTableViews::Approved).unwrap(),
            authorization: "Bearer key123".to_string(),
        })
    );
}

#[test]
fn empty_credential_still_gives_query() {
    let lookup = airtable_verifications(Some(String::new()), AirTableViews::Pending);
    assert_eq!(
        lookup,
        Lookup::Send(Query {
            url: records_url(AirTableViews::Pending).unwrap(),
            authorization: "Bearer ".to_string(),
        })
    );
}

#[test]
fn credential_with_control_character_counts_zero() {
    assert_eq!(
        airtable_verifications(Some("key\n123".to_string()), AirTableViews::Pending),
        Lookup::Count(0)
    );
    assert_eq!(
        airtable_verifications(Some("key\u{7f}".to_string()), AirTableViews::Approved),
        Lookup::Count(0)
    );
    assert_eq!(
        airtable_verifications(Some("\u{0}".to_string()), AirTableViews::Approved),
        Lookup::Count(0)
    );
}

#[test]
fn credential_with_tab_or_wide_character_gives_query() {
    let tab = airtable_verifications(Some("a\tb".to_string()), AirTableViews::Pending);
    assert!(matches!(tab, Lookup::Send(_)));
    let wide = airtable_verifications(Some("cl\u{e9}".to_string()), AirTableViews::Pending);
    assert_eq!(
        wide,
        Lookup::Send(Query {
            url: records_url(AirTableViews::Pending).unwrap(),
            authorization: "Bearer cl\u{e9}".to_string(),
        })
    );
}

#[test]
fn three_records_count_three() {
    assert_eq!(count_records(&answer(r#"{"records": [{}, {}, {}]}"#)), 3);
    let built = object(vec![(
        "records",
        Json::Array(vec![object(vec![]), object(vec![]), object(vec![])]),
    )]);
    assert_eq!(count_records(&Ok(built)), 3);
}

#[test]
fn no_records_count_zero() {
    assert_eq!(count_records(&answer(r#"{"records": []}"#)), 0);
}

#[test]
fn answer_without_records_counts_zero() {
    assert_eq!(count_records(&answer(r#"{"error": "NOT_FOUND"}"#)), 0);
    assert_eq!(count_records(&answer(r#"[{}, {}, {}]"#)), 0);
    assert_eq!(count_records(&answer("null")), 0);
}

#[test]
fn records_that_are_no_list_count_zero() {
    assert_eq!(count_records(&answer(r#"{"records": {"a": 1}}"#)), 0);
    assert_eq!(count_records(&answer(r#"{"records": 3}"#)), 0);
    assert_eq!(count_records(&answer(r#"{"records": "[{}]"}"#)), 0);
}

#[test]
fn answer_that_is_no_json_counts_zero() {
    assert_eq!(answer("<html>"), Err(FetchError::Decode));
    assert_eq!(count_records(&answer("<html>")), 0);
    assert_eq!(count_records(&answer("")), 0);
}

#[test]
fn failed_query_counts_zero() {
    assert_eq!(count_records(&Err(FetchError::Transport)), 0);
    assert_eq!(count_records(&Err(FetchError::Decode)), 0);
}

#[test]
fn count_is_what_the_answer_holds() {
    let many = Json::Array((0..25).map(|i| Json::Number(Some(i))).collect());
    assert_eq!(count_records(&Ok(object(vec![("records", many)]))), 25);
}

#[test]
fn readings_tell_the_failures_apart() {
    assert_eq!(read_records(&answer(r#"{"records": [{}, {}]}"#)), Reading::Listed(2));
    assert_eq!(read_records(&answer(r#"{"records": []}"#)), Reading::Listed(0));
    assert_eq!(read_records(&answer(r#"{"records": 7}"#)), Reading::NotAList);
    assert_eq!(read_records(&answer(r#"{"rows": [{}]}"#)), Reading::Missing);
    assert_eq!(read_records(&answer("[]")), Reading::Missing);
    assert_eq!(read_records(&answer("not json")), Reading::Failed(FetchError::Decode));
    assert_eq!(
        read_records(&Err(FetchError::Transport)),
        Reading::Failed(FetchError::Transport)
    );
}

#[test]
fn lookup_with_address_and_credential_sends_bearer_query() {
    let lookup = lookup_with(Some("https://example.net/q".to_string()), Some("key".to_string()));
    assert_eq!(
        lookup,
        Lookup::Send(Query {
            url: "https://example.net/q".to_string(),
            authorization: "Bearer key".to_string(),
        })
    );
}

#[test]
fn lookup_without_credential_or_address_counts_zero() {
    assert_eq!(lookup_with(Some("https://example.net/q".to_string()), None), Lookup::Count(0));
    assert_eq!(lookup_with(None, Some("key".to_string())), Lookup::Count(0));
    assert_eq!(lookup_with(None, None), Lookup::Count(0));
}

#[test]
fn lookup_with_unusable_credential_counts_zero() {
    let url = Some("https://example.net/q".to_string());
    assert_eq!(lookup_with(url, Some("a\rb".to_string())), Lookup::Count(0));
}
