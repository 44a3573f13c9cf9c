//! One refresh of the gauges: what the five gauges show, given what the
//! three upstream services hold.

use crate::address::text_of;
use crate::airtable::{records_count, records_gauge, AirTableViews};
use crate::census::{count_dirs, directories_among, Entry};
use crate::json::Json;
use crate::ledger::{fetch_closed, fetch_over, hcb_data};
use crate::transfers::{average_of, avg_grant, count_of, count_transfers, Average, FetchError};
use vstd::prelude::*;

verus! {

/// What the upstream services hold at the time of a refresh.
#[derive(Debug, PartialEq, Eq)]
pub struct Upstream {
    /// The children of the fetched subtree, one entry for each; `None` where
    /// the subtree cannot be fetched or listed.
    pub projects: Option<Vec<Entry>>,
    /// The pages of the ledger, from page zero on. Beyond them the ledger
    /// answers with the empty list.
    pub ledger: Vec<Result<Json, FetchError>>,
    /// The credential for the table of verifications, where there is one.
    pub credential: Option<String>,
    /// The answer of the table to a query for the approved records.
    pub approved: Result<Json, FetchError>,
    /// The answer of the table to a query for the pending records.
    pub pending: Result<Json, FetchError>,
}

/// The values of the five gauges after a refresh.
#[derive(Clone, Copy, Debug, PartialEq, Eq, Structural)]
pub struct GaugeValues {
    /// Number of directories directly under the fetched subtree.
    pub submitted_projects: usize,
    /// Number of transfers in the batch.
    pub transfers_count: usize,
    /// Mean amount of the transfers in the batch, in dollars.
    pub avg_grant: Average,
    /// Number of records in the approved view.
    pub airtable_records: usize,
    /// Number of records in the pending view.
    pub airtable_records_pending: usize,
}

/// The children of the fetched subtree as a sequence.
pub open spec fn projects_of(upstream: Upstream) -> Option<Seq<Entry>> {
    match upstream.projects {
        Some(entries) => Some(entries@),
        None => None,
    }
}

/// The gauges after a refresh; `None` where the census fails, which halts
/// the refresh.
pub open spec fn gauges_of(upstream: Upstream) -> Option<GaugeValues> {
    match projects_of(upstream) {
        None => None,
        Some(entries) => {
            let fetched = fetch_closed(fetch_over(upstream.ledger@));
            Some(
                GaugeValues {
                    submitted_projects: directories_among(entries) as usize,
                    transfers_count: count_of(fetched) as usize,
                    avg_grant: Average {
                        numerator: average_of(fetched).0 as i128,
                        denominator: average_of(fetched).1 as u128,
                    },
                    airtable_records: records_gauge(
                        text_of(upstream.credential),
                        AirTableViews::Approved,
                        upstream.approved,
                    ) as usize,
                    airtable_records_pending: records_gauge(
                        text_of(upstream.credential),
                        AirTableViews::Pending,
                        upstream.pending,
                    ) as usize,
                },
            )
        },
    }
}

/// Whether two upstreams differ in nothing but their ledgers.
pub open spec fn same_but_ledger(a: Upstream, b: Upstream) -> bool {
    &&& projects_of(a) == projects_of(b)
    &&& text_of(a.credential) == text_of(b.credential)
    &&& a.approved == b.approved
    &&& a.pending == b.pending
}

/// Computes the gauges of one refresh.
pub fn cycle(upstream: &Upstream) -> (r: Option<GaugeValues>)
    ensures
        r == gauges_of(*upstream),
{
    match &upstream.projects {
        None => None,
        Some(entries) => {
            let transfers = hcb_data(&upstream.ledger);
            Some(
                GaugeValues {
                    submitted_projects: count_dirs(entries),
                    transfers_count: count_transfers(&transfers),
                    avg_grant: avg_grant(&transfers),
                    airtable_records: records_count(
                        &upstream.credential,
                        AirTableViews::Approved,
                        &upstream.approved,
                    ),
                    airtable_records_pending: records_count(
                        &upstream.credential,
                        AirTableViews::Pending,
                        &upstream.pending,
                    ),
                },
            )
        },
    }
}

/// A refresh whose census fails shows no gauges at all: it halts, whatever
/// the ledger and the table hold.
pub proof fn failed_census_halts_refresh(upstream: Upstream)
    requires
        upstream.projects is None,
    ensures
        gauges_of(upstream) is None,
{
}

/// Two refreshes over upstreams that hold the same show the same gauges.
pub proof fn refresh_repeats(a: Upstream, b: Upstream)
    requires
        same_but_ledger(a, b),
        a.ledger@ == b.ledger@,
    ensures
        gauges_of(a) == gauges_of(b),
{
}

/// The ledger moves two gauges only: over upstreams that differ in nothing
/// but their ledgers, both refreshes halt or neither does, and the number of
/// projects and the two record counts are the same.
pub proof fn ledger_moves_two_gauges(a: Upstream, b: Upstream)
    requires
        same_but_ledger(a, b),
    ensures
        gauges_of(a) is Some <==> gauges_of(b) is Some,
        gauges_of(a) is Some ==> {
            let x = gauges_of(a)->Some_0;
            let y = gauges_of(b)->Some_0;
            &&& x.submitted_projects == y.submitted_projects
            &&& x.airtable_records == y.airtable_records
            &&& x.airtable_records_pending == y.airtable_records_pending
        },
{
}

} // verus!
