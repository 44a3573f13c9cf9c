use grant_metrics::json::Json;
use grant_metrics::ledger::{
    hcb_data, read_page, read_transfer, run_fetch, transfers_url, Fetch, LEDGER_ENDPOINT,
};
use grant_metrics::transfers::{avg_grant, count_transfers, Average, FetchError, Transfer};

fn object(members: Vec<(&str, Json)>) -> Json {
    Json::Object(members.into_iter().map(|(k, v)| (k.to_string(), v)).collect())
}

fn element(cents: i64) -> Json {
    object(vec![
        ("id", Json::Text("trf_1".to_string())),
        ("amount_cents", Json::Number(Some(cents))),
        ("transaction", object(vec![("memo", Json::Null)])),
    ])
}

fn page(amounts: &[i64]) -> Result<Json, FetchError> {
    Ok(Json::Array(amounts.iter().map(|a| element(*a)).collect()))
}

fn transfers(amounts: &[i64]) -> Vec<Transfer> {
    amounts.iter().map(|a| Transfer { amount_cents: *a }).collect()
}

#[test]
fn url_of_first_page() {
    assert_eq!(
        transfers_url(0),
        Some(
            "https://hcb.hackclub.com/api/v3/organizations/onboard/transfers/?per_page=100&expand=transaction&page=0"
                .to_string()
        )
    );
}

#[test]
fn url_of_later_page() {
    assert_eq!(
        transfers_url(12),
        Some(
            "https://hcb.hackclub.com/api/v3/organizations/onboard/transfers/?per_page=100&expand=transaction&page=12"
                .to_string()
        )
    );
}

#[test]
fn url_differs_from_endpoint() {
    assert_ne!(transfers_url(3), Some(LEDGER_ENDPOINT.to_string()));
}

#[test]
fn transfer_is_read_from_amount() {
    assert_eq!(read_transfer(&element(-250)), Some(Transfer { amount_cents: -250 }));
    assert_eq!(
        read_transfer(&object(vec![("amount_cents", Json::Number(Some(1)))])),
        Some(Transfer { amount_cents: 1 })
    );
}

#[test]
fn element_without_integer_amount_is_no_transfer() {
    assert_eq!(read_transfer(&object(vec![("id", Json::Null)])), None);
    assert_eq!(read_transfer(&object(vec![("amount_cents", Json::Number(None))])), None);
    assert_eq!(
        read_transfer(&object(vec![("amount_cents", Json::Text("5".to_string()))])),
        None
    );
    assert_eq!(read_transfer(&Json::Number(Some(5))), None);
    assert_eq!(read_transfer(&Json::Array(vec![Json::Number(Some(5))])), None);
}

#[test]
fn page_is_read_element_by_element() {
    assert_eq!(read_page(&page(&[1, 2, 3]).unwrap()), Some(transfers(&[1, 2, 3])));
    assert_eq!(read_page(&Json::Array(vec![])), Some(vec![]));
}

#[test]
fn page_that_is_no_list_adds_nothing() {
    assert_eq!(read_page(&object(vec![("error", Json::Text("x".to_string()))])), Some(vec![]));
    assert_eq!(read_page(&Json::Null), Some(vec![]));
}

#[test]
fn page_with_bad_element_is_refused() {
    let body = Json::Array(vec![element(1), Json::Null, element(2)]);
    assert_eq!(read_page(&body), None);
}

#[test]
fn fetch_steps_through_pages() {
    let fetch = Fetch::start();
    assert_eq!(fetch, Fetch::Requesting { page: 0, gathered: vec![] });
    assert_eq!(fetch.request(), transfers_url(0));
    let fetch = fetch.receive(&page(&[5000, 15000]));
    assert_eq!(fetch, Fetch::Requesting { page: 1, gathered: transfers(&[5000, 15000]) });
    assert_eq!(fetch.request(), transfers_url(1));
    let fetch = fetch.receive(&page(&[700]));
    assert_eq!(fetch, Fetch::Requesting { page: 2, gathered: transfers(&[5000, 15000, 700]) });
    let fetch = fetch.receive(&page(&[]));
    assert_eq!(fetch, Fetch::Finished(Ok(transfers(&[5000, 700]))));
    assert_eq!(fetch.request(), None);
    assert_eq!(fetch.outcome(), Some(Ok(transfers(&[5000, 700]))));
}

#[test]
fn unfinished_fetch_has_no_outcome() {
    assert_eq!(Fetch::start().outcome(), None);
    assert_eq!(Fetch::start().receive(&page(&[1])).outcome(), None);
}

#[test]
fn finished_fetch_ignores_responses() {
    let fetch = Fetch::start().receive(&page(&[])).receive(&page(&[1, 2]));
    assert_eq!(fetch, Fetch::Finished(Ok(vec![])));
    let fetch = Fetch::start().receive(&Err(FetchError::Transport)).receive(&page(&[]));
    assert_eq!(fetch, Fetch::Finished(Err(FetchError::Transport)));
}

#[test]
fn empty_first_page_gives_empty_batch() {
    assert_eq!(hcb_data(&vec![page(&[])]), Ok(vec![]));
    assert_eq!(run_fetch(&vec![page(&[])]), Fetch::Finished(Ok(vec![])));
}

#[test]
fn pages_are_concatenated_then_filtered() {
    let pages = vec![page(&[100, 20000]), page(&[10100, -5]), page(&[10099]), page(&[])];
    assert_eq!(hcb_data(&pages), Ok(transfers(&[100, -5, 10099])));
}

#[test]
fn pages_after_the_empty_one_are_not_read() {
    let pages = vec![page(&[1]), page(&[]), page(&[2]), Err(FetchError::Transport)];
    assert_eq!(hcb_data(&pages), Ok(transfers(&[1])));
}

#[test]
fn fifty_and_one_hundred_fifty_from_the_ledger() {
    let batch = hcb_data(&vec![page(&[5000, 15000]), page(&[])]);
    assert_eq!(batch, Ok(transfers(&[5000])));
    assert_eq!(count_transfers(&batch), 1);
    assert_eq!(avg_grant(&batch), Average { numerator: 5000, denominator: 100 });
}

#[test]
fn error_on_first_page_fails_the_fetch() {
    let batch = hcb_data(&vec![Err(FetchError::Transport), page(&[1]), page(&[])]);
    assert_eq!(batch, Err(FetchError::Transport));
    assert_eq!(count_transfers(&batch), 0);
    assert_eq!(avg_grant(&batch), Average { numerator: 0, denominator: 1 });
}

#[test]
fn error_on_later_page_leaves_no_partial_data() {
    let batch = hcb_data(&vec![page(&[1, 2]), page(&[3]), Err(FetchError::Decode), page(&[])]);
    assert_eq!(batch, Err(FetchError::Decode));
    assert_eq!(count_transfers(&batch), 0);
    assert_eq!(avg_grant(&batch), Average { numerator: 0, denominator: 1 });
}

#[test]
fn bad_element_fails_the_fetch_with_decode() {
    let bad = Ok(Json::Array(vec![element(1), Json::Text("x".to_string())]));
    assert_eq!(hcb_data(&vec![page(&[1]), bad, page(&[])]), Err(FetchError::Decode));
}

#[test]
fn body_that_is_no_list_does_not_end_the_fetch() {
    let odd = Ok(object(vec![("message", Json::Text("later".to_string()))]));
    let fetch = Fetch::start().receive(&odd);
    assert_eq!(fetch, Fetch::Requesting { page: 1, gathered: vec![] });
    let pages = vec![page(&[1]), Ok(Json::Null), Ok(Json::Bool(false)), page(&[2]), page(&[])];
    assert_eq!(hcb_data(&pages), Ok(transfers(&[1, 2])));
}

#[test]
fn ledger_without_empty_page_ends_after_its_pages() {
    let pages = vec![page(&[1, 20000]), page(&[3])];
    assert_eq!(run_fetch(&pages), Fetch::Requesting { page: 2, gathered: transfers(&[1, 20000, 3]) });
    assert_eq!(hcb_data(&pages), Ok(transfers(&[1, 3])));
    assert_eq!(hcb_data(&vec![]), Ok(vec![]));
}
