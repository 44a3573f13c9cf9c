//! The records counter: one bounded query for the records of a named view,
//! made only where a credential is at hand, and the count read from the
//! answer. Whatever goes wrong, the count is zero.

use crate::address::{add_pair, decimal, decimal_text, text_of, then_pair};
use crate::json::Json;
use crate::transfers::FetchError;
use vstd::prelude::*;

verus! {

/// Where the table of verifications is queried.
pub const RECORDS_ENDPOINT: &'static str =
    "https://api.airtable.com/v0/app4Bs8Tjwvk5qcD4/Verifications";

/// The largest number of records that one query asks for.
pub const MAX_RECORDS: u64 = 20;

/// The views of the table that are counted.
#[derive(Clone, Copy, Debug, PartialEq, Eq, Structural)]
pub enum AirTableViews {
    Pending,
    Approved,
}

/// One query: where to send it, and the value of its authorization header.
#[derive(Debug, PartialEq, Eq)]
pub struct Query {
    pub url: String,
    pub authorization: String,
}

/// What the counter does first: it either has the count already, or has a
/// query for its caller to send.
#[derive(Debug, PartialEq, Eq)]
pub enum Lookup {
    Count(usize),
    Send(Query),
}

/// What the answer to a query turned out to be. Only the first case counts
/// anything; the others are told apart for the log.
#[derive(Clone, Copy, Debug, PartialEq, Eq, Structural)]
pub enum Reading {
    /// The member `records` is a list of this many records.
    Listed(usize),
    /// The member `records` is no list.
    NotAList,
    /// The answer has no member `records`.
    Missing,
    /// The query failed, or its answer was no JSON.
    Failed(FetchError),
}

/// A lookup with its strings as sequences.
pub ghost enum LookupView {
    Count(usize),
    Send { url: Seq<char>, authorization: Seq<char> },
}

impl View for Lookup {
    type V = LookupView;

    open spec fn view(&self) -> LookupView {
        match self {
            Lookup::Count(n) => LookupView::Count(*n),
            Lookup::Send(query) => LookupView::Send {
                url: query.url@,
                authorization: query.authorization@,
            },
        }
    }
}

/// The name by which the table knows a view.
pub open spec fn view_text(view: AirTableViews) -> Seq<char> {
    match view {
        AirTableViews::Pending => "Pending"@,
        AirTableViews::Approved => "Approved"@,
    }
}

/// The address of the query for a view.
pub open spec fn records_address(view: AirTableViews) -> Option<Seq<char>> {
    then_pair(
        then_pair(Some(RECORDS_ENDPOINT@), "maxRecords"@, decimal_text(MAX_RECORDS as nat)),
        "view"@,
        view_text(view),
    )
}

/// The authorization that presents a credential as a bearer token.
pub open spec fn bearer(credential: Seq<char>) -> Seq<char> {
    "Bearer "@ + credential
}

/// Whether a byte may stand in the value of a header: no control character
/// but the tab.
pub open spec fn header_byte(b: u8) -> bool {
    b >= 32 && b != 127 || b == 9
}

/// Whether a text may be the value of a header: every byte of its UTF-8
/// encoding may stand in one.
pub open spec fn header_text(text: Seq<char>) -> bool {
    let bytes = vstd::utf8::encode_utf8(text);
    forall|i: int| 0 <= i < bytes.len() ==> header_byte(#[trigger] bytes[i])
}

/// What the counter does first, given the address of its query. Without a
/// credential it has the count, zero, and nothing is sent. With one it has a
/// query to that address, with the credential as a bearer token, unless no
/// query can be made: where there is no address, and where the credential
/// cannot stand in a header, the count is zero too.
pub open spec fn lookup_given(url: Option<Seq<char>>, credential: Option<Seq<char>>) -> LookupView {
    match credential {
        None => LookupView::Count(0),
        Some(key) => match url {
            Some(address) => if header_text(bearer(key)) {
                LookupView::Send { url: address, authorization: bearer(key) }
            } else {
                LookupView::Count(0)
            },
            None => LookupView::Count(0),
        },
    }
}

/// What the counter does first for a view: what it does given the address of
/// the query for that view.
pub open spec fn lookup_for(credential: Option<Seq<char>>, view: AirTableViews) -> LookupView {
    lookup_given(records_address(view), credential)
}

/// What the answer to a query turns out to be.
pub open spec fn reading_of(response: Result<Json, FetchError>) -> Reading {
    match response {
        Ok(body) => match body.member("records"@) {
            Some(records) => match records.elements() {
                Some(items) => Reading::Listed(items.len() as usize),
                None => Reading::NotAList,
            },
            None => Reading::Missing,
        },
        Err(e) => Reading::Failed(e),
    }
}

/// The number of records in the answer to a query: the length of the list
/// that the member `records` of the answer holds. It is zero where the query
/// failed, where the answer has no such member, and where the member is no
/// list.
pub open spec fn records_counted(response: Result<Json, FetchError>) -> nat {
    match response {
        Ok(body) => match body.member("records"@) {
            Some(records) => match records.elements() {
                Some(items) => items.len(),
                None => 0,
            },
            None => 0,
        },
        Err(_) => 0,
    }
}

/// The count of the records counter for a view: the count it has at once
/// where it sends no query, and else the number of records in the answer.
pub open spec fn records_gauge(
    credential: Option<Seq<char>>,
    view: AirTableViews,
    response: Result<Json, FetchError>,
) -> nat {
    match lookup_for(credential, view) {
        LookupView::Count(n) => n as nat,
        LookupView::Send { .. } => records_counted(response),
    }
}

/// Asks `reqwest::header::HeaderValue::from_str` whether it accepts `text`.
/// The contract claims what the source shows: it accepts a text exactly
/// where every byte of it is at least 32 and not 127, or is the tab.
#[verifier::external_body]
fn is_header_value(text: &str) -> (r: bool)
    ensures
        r == header_text(text@),
{
    reqwest::header::HeaderValue::from_str(text).is_ok()
}

/// The name by which the table knows a view.
pub fn view_name(view: AirTableViews) -> (r: &'static str)
    ensures
        r@ == view_text(view),
{
    match view {
        AirTableViews::Pending => "Pending",
        AirTableViews::Approved => "Approved",
    }
}

/// The address of the query for a view.
pub fn records_url(view: AirTableViews) -> (r: Option<String>)
    ensures
        text_of(r) == records_address(view),
{
    let base = Some(RECORDS_ENDPOINT.to_owned());
    let cap = decimal(MAX_RECORDS);
    let capped = add_pair(base, "maxRecords", cap.as_str());
    add_pair(capped, "view", view_name(view))
}

/// What the counter does first, given the address of its query and the
/// credential, where there is one.
pub fn lookup_with(url: Option<String>, api_key: Option<String>) -> (r: Lookup)
    ensures
        r@ == lookup_given(text_of(url), text_of(api_key)),
{
    match api_key {
        None => Lookup::Count(0),
        Some(key) => {
            let authorization = "Bearer ".to_owned().concat(key.as_str());
            match url {
                Some(address) => {
                    if is_header_value(authorization.as_str()) {
                        Lookup::Send(Query { url: address, authorization })
                    } else {
                        Lookup::Count(0)
                    }
                },
                None => Lookup::Count(0),
            }
        },
    }
}

/// What the counter does first for a view, with the credential that the
/// process was given, if it was given one.
pub fn airtable_verifications(api_key: Option<String>, view: AirTableViews) -> (r: Lookup)
    ensures
        r@ == lookup_for(text_of(api_key), view),
{
    lookup_with(records_url(view), api_key)
}

/// Reads the answer to a query.
pub fn read_records(response: &Result<Json, FetchError>) -> (r: Reading)
    ensures
        r == reading_of(*response),
        r matches Reading::Listed(n) ==> n == records_counted(*response),
        !(r is Listed) ==> records_counted(*response) == 0,
{
    match response {
        Ok(body) => match body.get("records") {
            Some(records) => match records.as_array() {
                Some(items) => Reading::Listed(items.len()),
                None => Reading::NotAList,
            },
            None => Reading::Missing,
        },
        Err(e) => Reading::Failed(*e),
    }
}

/// The number of records in the answer to a query.
pub fn count_records(response: &Result<Json, FetchError>) -> (r: usize)
    ensures
        r == records_counted(*response),
{
    match read_records(response) {
        Reading::Listed(n) => n,
        _ => 0,
    }
}

/// The count of the records counter for a view.
pub fn records_count(
    credential: &Option<String>,
    view: AirTableViews,
    response: &Result<Json, FetchError>,
) -> (r: usize)
    ensures
        r == records_gauge(text_of(*credential), view, *response),
{
    let key = match credential {
        Some(text) => Some(text.clone()),
        None => None,
    };
    match airtable_verifications(key, view) {
        Lookup::Count(n) => n,
        Lookup::Send(_) => count_records(response),
    }
}

/// Without a credential the counter sends no query and counts zero, for
/// every view and whatever the table would have answered.
pub proof fn no_credential_counts_zero(view: AirTableViews, response: Result<Json, FetchError>)
    ensures
        lookup_for(None, view) == LookupView::Count(0),
        records_gauge(None, view, response) == 0,
{
}

/// With an address and a credential that can stand in a header, the counter
/// sends one query, to that address and with the credential as a bearer
/// token, and counts what the answer holds.
pub proof fn credential_gives_bearer_query(url: Seq<char>, key: Seq<char>)
    requires
        header_text(bearer(key)),
    ensures
        lookup_given(Some(url), Some(key)) == (LookupView::Send {
            url,
            authorization: "Bearer "@ + key,
        }),
{
}

} // verus!
