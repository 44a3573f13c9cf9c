//! The transfer source: the ledger is read page by page until it answers
//! with an empty list, and what was gathered is filtered once, at the end.

use crate::address::{add_pair, decimal, decimal_text, text_of, then_pair};
use crate::json::Json;
use crate::transfers::{
    average_of, batch_of, count_of, fetched_view, retain_within_limit, FetchError, Transfer,
};
use vstd::prelude::*;

verus! {

/// Where the ledger lists the transfers of the organization.
pub const LEDGER_ENDPOINT: &'static str =
    "https://hcb.hackclub.com/api/v3/organizations/onboard/transfers/";

/// The address of one page of the ledger: a hundred transfers to the page,
/// each with its transaction, pages counted from zero.
pub open spec fn transfers_address(page: nat) -> Option<Seq<char>> {
    then_pair(
        then_pair(then_pair(Some(LEDGER_ENDPOINT@), "per_page"@, "100"@), "expand"@, "transaction"@),
        "page"@,
        decimal_text(page),
    )
}

/// The transfer that an element of a page stands for: an object whose member
/// `amount_cents` is an integer.
pub open spec fn transfer_in(element: Json) -> Option<Transfer> {
    match element.member("amount_cents"@) {
        Some(amount) => match amount.integer() {
            Some(cents) => Some(Transfer { amount_cents: cents }),
            None => None,
        },
        None => None,
    }
}

/// The transfers of a list of elements, where every element is one.
pub open spec fn transfers_in(elements: Seq<Json>) -> Option<Seq<Transfer>> {
    if forall|i: int| 0 <= i < elements.len() ==> (#[trigger] transfer_in(elements[i])) is Some {
        Some(Seq::new(elements.len(), |i: int| transfer_in(elements[i])->Some_0))
    } else {
        None
    }
}

/// Whether a response body is the empty list, which ends the ledger.
pub open spec fn is_last_page(body: Json) -> bool {
    match body.elements() {
        Some(elements) => elements.len() == 0,
        None => false,
    }
}

/// What a response body adds to the transfers gathered so far: the transfers
/// of a list, nothing for a body that is no list, and `None` for a list with
/// an element that is no transfer.
pub open spec fn page_transfers(body: Json) -> Option<Seq<Transfer>> {
    match body.elements() {
        Some(elements) => transfers_in(elements),
        None => Some(Seq::empty()),
    }
}

/// How far a fetch has come.
#[derive(Debug, PartialEq, Eq)]
pub enum Fetch {
    /// The page `page` is to be requested next; `gathered` holds the
    /// transfers of the pages before it, unfiltered.
    Requesting { page: u64, gathered: Vec<Transfer> },
    /// The fetch is over: with the batch, or with the one error that ended it.
    Finished(Result<Vec<Transfer>, FetchError>),
}

/// A fetch with its transfers as sequences.
pub ghost enum FetchView {
    Requesting { page: nat, gathered: Seq<Transfer> },
    Finished(Result<Seq<Transfer>, FetchError>),
}

impl View for Fetch {
    type V = FetchView;

    open spec fn view(&self) -> FetchView {
        match self {
            Fetch::Requesting { page, gathered } => FetchView::Requesting {
                page: *page as nat,
                gathered: gathered@,
            },
            Fetch::Finished(Ok(batch)) => FetchView::Finished(Ok(batch@)),
            Fetch::Finished(Err(e)) => FetchView::Finished(Err(*e)),
        }
    }
}

/// A fetch before its first request.
pub open spec fn fetch_start() -> FetchView {
    FetchView::Requesting { page: 0, gathered: Seq::empty() }
}

/// The fetch after one more response. A finished fetch stays as it is. An
/// error ends the fetch with that error, and a list with an element that is
/// no transfer ends it with a decoding error. The empty list ends it with the
/// batch: what was gathered, filtered. Any other body adds its transfers and
/// moves on to the next page.
pub open spec fn fetch_after(state: FetchView, response: Result<Json, FetchError>) -> FetchView {
    match state {
        FetchView::Finished(_) => state,
        FetchView::Requesting { page, gathered } => match response {
            Err(e) => FetchView::Finished(Err(e)),
            Ok(body) => if is_last_page(body) {
                FetchView::Finished(Ok(batch_of(gathered)))
            } else {
                match page_transfers(body) {
                    Some(found) => FetchView::Requesting {
                        page: page + 1,
                        gathered: gathered + found,
                    },
                    None => FetchView::Finished(Err(FetchError::Decode)),
                }
            },
        },
    }
}

/// The fetch after the responses of `responses`, in their order.
pub open spec fn fetch_over(responses: Seq<Result<Json, FetchError>>) -> FetchView
    decreases responses.len(),
{
    if responses.len() == 0 {
        fetch_start()
    } else {
        fetch_after(fetch_over(responses.drop_last()), responses.last())
    }
}

/// What a fetch yields once the ledger has no more pages: a finished fetch
/// what it finished with, and one that is still requesting the batch of
/// what it has gathered, as the empty list would end it.
pub open spec fn fetch_closed(state: FetchView) -> Result<Seq<Transfer>, FetchError> {
    match state {
        FetchView::Finished(result) => result,
        FetchView::Requesting { gathered, .. } => Ok(batch_of(gathered)),
    }
}

/// What a finished fetch yielded; `None` while it is still requesting.
pub open spec fn outcome_of(state: FetchView) -> Option<Result<Seq<Transfer>, FetchError>> {
    match state {
        FetchView::Finished(result) => Some(result),
        FetchView::Requesting { .. } => None,
    }
}

/// The address of one page of the ledger.
pub fn transfers_url(page: u64) -> (r: Option<String>)
    ensures
        text_of(r) == transfers_address(page as nat),
{
    let base = Some(LEDGER_ENDPOINT.to_owned());
    let sized = add_pair(base, "per_page", "100");
    let expanded = add_pair(sized, "expand", "transaction");
    let number = decimal(page);
    add_pair(expanded, "page", number.as_str())
}

/// The transfer that an element of a page stands for.
pub fn read_transfer(element: &Json) -> (r: Option<Transfer>)
    ensures
        r == transfer_in(*element),
{
    match element.get("amount_cents") {
        Some(amount) => match amount.as_i64() {
            Some(cents) => Some(Transfer { amount_cents: cents }),
            None => None,
        },
        None => None,
    }
}

/// What a response body adds to the transfers gathered so far.
pub fn read_page(body: &Json) -> (r: Option<Vec<Transfer>>)
    ensures
        match r {
            Some(found) => page_transfers(*body) == Some(found@),
            None => page_transfers(*body) is None,
        },
{
    match body.as_array() {
        None => Some(Vec::new()),
        Some(elements) => {
            let mut found: Vec<Transfer> = Vec::new();
            let mut i: usize = 0;
            while i < elements.len()
                invariant
                    i <= elements.len(),
                    found@.len() == i,
                    body.elements() == Some(elements@),
                    forall|j: int|
                        0 <= j < i ==> (#[trigger] transfer_in(elements@[j])) == Some(found@[j]),
                decreases elements.len() - i,
            {
                match read_transfer(&elements[i]) {
                    Some(t) => {
                        found.push(t);
                    },
                    None => {
                        proof {
                            assert(transfer_in(elements@[i as int]) is None);
                        }
                        return None;
                    },
                }
                i += 1;
            }
            proof {
                assert(transfers_in(elements@) is Some);
                assert(found@ =~= transfers_in(elements@)->Some_0);
            }
            Some(found)
        },
    }
}

impl Fetch {
    /// A fetch before its first request.
    pub fn start() -> (r: Fetch)
        ensures
            r@ == fetch_start(),
    {
        Fetch::Requesting { page: 0, gathered: Vec::new() }
    }

    /// The page index that the next request can still name.
    pub open spec fn can_receive(self) -> bool {
        match self {
            Fetch::Requesting { page, .. } => page < u64::MAX,
            Fetch::Finished(_) => true,
        }
    }

    /// The address to request next: that of the page the fetch has come to.
    /// There is none once the fetch is finished.
    pub fn request(&self) -> (r: Option<String>)
        ensures
            text_of(r) == match self@ {
                FetchView::Requesting { page, .. } => transfers_address(page),
                FetchView::Finished(_) => None,
            },
    {
        match self {
            Fetch::Requesting { page, .. } => transfers_url(*page),
            Fetch::Finished(_) => None,
        }
    }

    /// The fetch after one more response.
    pub fn receive(self, response: &Result<Json, FetchError>) -> (r: Fetch)
        requires
            self.can_receive(),
        ensures
            r@ == fetch_after(self@, *response),
    {
        match self {
            Fetch::Finished(result) => Fetch::Finished(result),
            Fetch::Requesting { page, gathered } => match response {
                Err(e) => Fetch::Finished(Err(*e)),
                Ok(body) => {
                    let mut gathered = gathered;
                    match read_page(body) {
                        None => {
                            proof {
                                assert(!is_last_page(*body));
                            }
                            Fetch::Finished(Err(FetchError::Decode))
                        },
                        Some(found) => {
                            let mut found = found;
                            if body.as_array().is_some() && found.len() == 0 {
                                Fetch::Finished(Ok(retain_within_limit(gathered)))
                            } else {
                                gathered.append(&mut found);
                                Fetch::Requesting { page: page + 1, gathered }
                            }
                        },
                    }
                },
            },
        }
    }

    /// What a finished fetch yielded; `None` while it is still requesting.
    pub fn outcome(self) -> (r: Option<Result<Vec<Transfer>, FetchError>>)
        ensures
            match r {
                Some(result) => outcome_of(self@) == Some(fetched_view(result)),
                None => outcome_of(self@) is None,
            },
    {
        match self {
            Fetch::Finished(result) => Some(result),
            Fetch::Requesting { .. } => None,
        }
    }
}

/// Runs a fetch over the responses that the ledger gave to the requests for
/// page zero, page one and so on, one response to the page. Responses after
/// the one that ended the fetch are not read. The fetch is still requesting
/// where the responses end before the ledger did.
pub fn run_fetch(responses: &Vec<Result<Json, FetchError>>) -> (r: Fetch)
    ensures
        r@ == fetch_over(responses@),
{
    let mut state = Fetch::start();
    let mut i: usize = 0;
    proof {
        assert(responses@.take(0) =~= Seq::empty());
    }
    while i < responses.len()
        invariant
            i <= responses.len(),
            state@ == fetch_over(responses@.take(i as int)),
            match state {
                Fetch::Requesting { page, .. } => page <= i,
                Fetch::Finished(_) => true,
            },
        decreases responses.len() - i,
    {
        proof {
            assert(responses@.take(i + 1).drop_last() =~= responses@.take(i as int));
        }
        state = state.receive(&responses[i]);
        i += 1;
    }
    proof {
        assert(responses@.take(responses.len() as int) =~= responses@);
    }
    state
}

/// Fetches the transfers of a ledger that holds the pages `pages` and
/// answers with the empty list to a request for any page beyond them. The
/// result is the batch: the transfers of all pages up to the first empty
/// list, page after page, that are within the limit. It is the one error
/// that ended the fetch where a page before that failed.
pub fn hcb_data(pages: &Vec<Result<Json, FetchError>>) -> (r: Result<Vec<Transfer>, FetchError>)
    ensures
        fetched_view(r) == fetch_closed(fetch_over(pages@)),
{
    match run_fetch(pages) {
        Fetch::Finished(result) => result,
        Fetch::Requesting { gathered, .. } => Ok(retain_within_limit(gathered)),
    }
}

/// Whether a response lets the fetch go on to the next page: a body other
/// than the empty list whose elements, where it is a list, are all transfers.
pub open spec fn goes_on(response: Result<Json, FetchError>) -> bool {
    match response {
        Ok(body) => !is_last_page(body) && page_transfers(body) is Some,
        Err(_) => false,
    }
}

/// The error with which a response ends the fetch, where it does.
pub open spec fn failure_in(response: Result<Json, FetchError>) -> Option<FetchError> {
    match response {
        Err(e) => Some(e),
        Ok(body) => if page_transfers(body) is None {
            Some(FetchError::Decode)
        } else {
            None
        },
    }
}

/// The transfers of the first `k` responses, page after page.
pub open spec fn gathered_before(responses: Seq<Result<Json, FetchError>>, k: int) -> Seq<
    Transfer,
> {
    Seq::new(k as nat, |i: int| page_transfers(responses[i]->Ok_0)->Some_0).flatten()
}

/// While every response lets the fetch go on, the fetch has gathered the
/// transfers of all of them and asks for the page after the last.
proof fn lemma_fetch_goes_on(responses: Seq<Result<Json, FetchError>>, n: int)
    requires
        0 <= n <= responses.len(),
        forall|i: int| 0 <= i < n ==> goes_on(#[trigger] responses[i]),
    ensures
        fetch_over(responses.take(n)) == (FetchView::Requesting {
            page: n as nat,
            gathered: gathered_before(responses, n),
        }),
    decreases n,
{
    let page = |i: int| page_transfers(responses[i]->Ok_0)->Some_0;
    if n == 0 {
        assert(responses.take(0) =~= Seq::empty());
        assert(Seq::new(0, page) =~= Seq::<Seq<Transfer>>::empty());
    } else {
        lemma_fetch_goes_on(responses, n - 1);
        assert(responses.take(n).drop_last() =~= responses.take(n - 1));
        assert(responses.take(n).last() == responses[n - 1]);
        assert(goes_on(responses[n - 1]));
        let before = Seq::new((n - 1) as nat, page);
        assert(Seq::new(n as nat, page) =~= before.push(page(n - 1)));
        before.lemma_flatten_push(page(n - 1));
    }
}

/// A finished fetch is not changed by further responses.
proof fn lemma_fetch_stays_finished(responses: Seq<Result<Json, FetchError>>, k: int, m: int)
    requires
        0 <= k <= m <= responses.len(),
        fetch_over(responses.take(k)) is Finished,
    ensures
        fetch_over(responses.take(m)) == fetch_over(responses.take(k)),
    decreases m - k,
{
    if k < m {
        lemma_fetch_stays_finished(responses, k, m - 1);
        assert(responses.take(m).drop_last() =~= responses.take(m - 1));
    }
}

/// Where the first `k` responses let the fetch go on and the next one is the
/// empty list, the fetch ends there, whatever follows, and yields exactly the
/// transfers of those `k` pages, page after page, that are within the limit.
pub proof fn fetch_ends_at_empty_page(responses: Seq<Result<Json, FetchError>>, k: int)
    requires
        0 <= k < responses.len(),
        forall|i: int| 0 <= i < k ==> goes_on(#[trigger] responses[i]),
        responses[k] is Ok,
        is_last_page(responses[k]->Ok_0),
    ensures
        fetch_over(responses) == FetchView::Finished(
            Ok(batch_of(gathered_before(responses, k))),
        ),
        fetch_closed(fetch_over(responses)) == Ok::<Seq<Transfer>, FetchError>(
            batch_of(gathered_before(responses, k)),
        ),
{
    lemma_fetch_goes_on(responses, k);
    assert(responses.take(k + 1).drop_last() =~= responses.take(k));
    assert(responses.take(k + 1).last() == responses[k]);
    lemma_fetch_stays_finished(responses, k + 1, responses.len() as int);
    assert(responses.take(responses.len() as int) =~= responses);
}

/// Where the first `k` responses let the fetch go on and the next one fails,
/// as an error or as a list with an element that is no transfer, the fetch
/// yields that one failure, whatever follows: nothing of the pages before it
/// is left, and both statistics of the outcome are zero.
pub proof fn fetch_fails_at_failed_page(
    responses: Seq<Result<Json, FetchError>>,
    k: int,
    e: FetchError,
)
    requires
        0 <= k < responses.len(),
        forall|i: int| 0 <= i < k ==> goes_on(#[trigger] responses[i]),
        failure_in(responses[k]) == Some(e),
    ensures
        fetch_over(responses) == FetchView::Finished(Err(e)),
        fetch_closed(fetch_over(responses)) == Err::<Seq<Transfer>, FetchError>(e),
        count_of(Err(e)) == 0,
        average_of(Err(e)) == (0int, 1int),
{
    lemma_fetch_goes_on(responses, k);
    assert(responses.take(k + 1).drop_last() =~= responses.take(k));
    assert(responses.take(k + 1).last() == responses[k]);
    lemma_fetch_stays_finished(responses, k + 1, responses.len() as int);
    assert(responses.take(responses.len() as int) =~= responses);
}

} // verus!
