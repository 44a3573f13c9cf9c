//! Ledger transfers and the two statistics derived from a batch of them.

use vstd::prelude::*;

verus! {

/// One entry of the ledger. Only the amount is read.
#[derive(Clone, Copy, Debug, PartialEq, Eq, Structural)]
pub struct Transfer {
    /// Amount in minor currency units; negative for a refund or a reversal.
    pub amount_cents: i64,
}

/// Why a batch of transfers could not be had.
#[derive(Clone, Copy, Debug, PartialEq, Eq, Structural)]
pub enum FetchError {
    /// The request failed, or no response arrived.
    Transport,
    /// The response was not the JSON that was asked for.
    Decode,
}

/// The mean of a batch in dollars, as an exact fraction. The denominator is
/// never zero.
#[derive(Clone, Copy, Debug, PartialEq, Eq, Structural)]
pub struct Average {
    /// Sum of the amounts of the batch, in cents.
    pub numerator: i128,
    /// A hundred times the number of transfers in the batch, or one where
    /// the mean is zero by convention.
    pub denominator: u128,
}

/// The largest whole-dollar value that a transfer of a batch may have.
pub const DOLLAR_LIMIT: i64 = 100;

/// Whole currency units in an amount of minor units, rounded towards zero.
pub open spec fn whole_units(cents: int) -> int {
    if cents >= 0 {
        cents / 100
    } else {
        -((-cents) / 100)
    }
}

/// Whether a transfer is small enough to belong to a batch.
pub open spec fn within_limit(t: Transfer) -> bool {
    whole_units(t.amount_cents as int) <= DOLLAR_LIMIT
}

/// The transfers of `all` that are within the limit, in their order.
pub open spec fn batch_of(all: Seq<Transfer>) -> Seq<Transfer> {
    all.filter(|t: Transfer| within_limit(t))
}

/// Sum of the amounts of `batch`, in cents.
pub open spec fn cents_sum(batch: Seq<Transfer>) -> int
    decreases batch.len(),
{
    if batch.len() == 0 {
        0
    } else {
        cents_sum(batch.drop_last()) + batch.last().amount_cents
    }
}

/// The number of transfers that a fetch yielded: none where it failed.
pub open spec fn count_of(fetched: Result<Seq<Transfer>, FetchError>) -> nat {
    match fetched {
        Ok(batch) => batch.len(),
        Err(_) => 0,
    }
}

/// The mean amount of what a fetch yielded, in dollars, as numerator and
/// denominator: the sum of the cents, over a hundred, over the number of
/// transfers. It is zero over one where the fetch failed and for an empty
/// batch.
pub open spec fn average_of(fetched: Result<Seq<Transfer>, FetchError>) -> (int, int) {
    match fetched {
        Ok(batch) => if batch.len() == 0 {
            (0, 1)
        } else {
            (cents_sum(batch), 100 * (batch.len() as int))
        },
        Err(_) => (0, 1),
    }
}

/// What a fetch yielded, with the batch taken by its view.
pub open spec fn fetched_view(fetched: Result<Vec<Transfer>, FetchError>) -> Result<
    Seq<Transfer>,
    FetchError,
> {
    match fetched {
        Ok(batch) => Ok(batch@),
        Err(e) => Err(e),
    }
}

impl Transfer {
    /// The whole-dollar value of this transfer, rounded towards zero.
    pub fn dollars(&self) -> (r: i64)
        ensures
            r == whole_units(self.amount_cents as int),
    {
        self.amount_cents / 100
    }

    /// Whether this transfer is small enough to belong to a batch.
    pub fn is_within_limit(&self) -> (r: bool)
        ensures
            r == within_limit(*self),
    {
        self.dollars() <= DOLLAR_LIMIT
    }
}

/// Keeps the transfers that are within the limit and drops the others,
/// without changing the order of those that stay.
pub fn retain_within_limit(all: Vec<Transfer>) -> (batch: Vec<Transfer>)
    ensures
        batch@ == batch_of(all@),
{
    let mut batch: Vec<Transfer> = Vec::new();
    let mut i: usize = 0;
    while i < all.len()
        invariant
            i <= all.len(),
            batch@ == batch_of(all@.take(i as int)),
        decreases all.len() - i,
    {
        let t = all[i];
        proof {
            let before = all@.take(i as int);
            assert(all@.take(i + 1) =~= before.push(t));
            assert(before.push(t).drop_last() =~= before);
            reveal(Seq::filter);
        }
        if t.is_within_limit() {
            batch.push(t);
        }
        i += 1;
    }
    proof {
        assert(all@.take(all.len() as int) =~= all@);
    }
    batch
}

/// The number of transfers that a fetch yielded: the length of the batch, or
/// zero where the fetch failed.
pub fn count_transfers(transfers: &Result<Vec<Transfer>, FetchError>) -> (r: usize)
    ensures
        r == count_of(fetched_view(*transfers)),
{
    match transfers {
        Ok(batch) => batch.len(),
        Err(_) => 0,
    }
}

/// The cents of a batch add up to no less than its length times a lower
/// bound of its amounts, and to no more than its length times an upper one.
proof fn lemma_cents_sum_bounds(batch: Seq<Transfer>, lo: int, hi: int)
    requires
        forall|i: int| 0 <= i < batch.len() ==> lo <= (#[trigger] batch[i]).amount_cents <= hi,
    ensures
        lo * batch.len() <= cents_sum(batch) <= hi * batch.len(),
    decreases batch.len(),
{
    if batch.len() > 0 {
        let rest = batch.drop_last();
        assert forall|i: int| 0 <= i < rest.len() implies lo <= (#[trigger] rest[i]).amount_cents
            <= hi by {
            assert(rest[i] == batch[i]);
        }
        lemma_cents_sum_bounds(rest, lo, hi);
        assert(lo <= batch.last().amount_cents <= hi);
        assert(lo * batch.len() == lo * rest.len() + lo) by (nonlinear_arith)
            requires
                batch.len() == rest.len() + 1,
        ;
        assert(hi * batch.len() == hi * rest.len() + hi) by (nonlinear_arith)
            requires
                batch.len() == rest.len() + 1,
        ;
    }
}

/// The mean amount of what a fetch yielded, in dollars, as a fraction: the
/// sum of the cents over a hundred times the number of transfers. Where the
/// fetch failed, and for an empty batch, the mean is zero over one.
pub fn avg_grant(transfers: &Result<Vec<Transfer>, FetchError>) -> (r: Average)
    ensures
        (r.numerator as int, r.denominator as int) == average_of(fetched_view(*transfers)),
        r.denominator >= 1,
{
    match transfers {
        Ok(batch) => {
            if batch.len() == 0 {
                return Average { numerator: 0, denominator: 1 };
            }
            let mut total: i128 = 0;
            let mut i: usize = 0;
            while i < batch.len()
                invariant
                    i <= batch.len(),
                    total == cents_sum(batch@.take(i as int)),
                    -(i as int) * 0x8000_0000_0000_0000 <= total <= (i as int)
                        * 0x8000_0000_0000_0000,
                decreases batch.len() - i,
            {
                let cents: i64 = batch[i].amount_cents;
                proof {
                    assert(batch@.take(i + 1).drop_last() =~= batch@.take(i as int));
                }
                total = total + cents as i128;
                i += 1;
            }
            proof {
                assert(batch@.take(batch.len() as int) =~= batch@);
            }
            Average { numerator: total, denominator: 100 * (batch.len() as u128) }
        },
        Err(_) => Average { numerator: 0, denominator: 1 },
    }
}

/// The mean of a batch lies between its least and its greatest amount:
/// where every amount of a batch that is not empty is at least `lo` cents
/// and at most `hi` cents, the mean is at least `lo` over a hundred and at
/// most `hi` over a hundred.
pub proof fn average_between_least_and_greatest(batch: Seq<Transfer>, lo: int, hi: int)
    requires
        batch.len() > 0,
        forall|i: int| 0 <= i < batch.len() ==> lo <= (#[trigger] batch[i]).amount_cents <= hi,
    ensures
        average_of(Ok(batch)).1 > 0,
        lo * average_of(Ok(batch)).1 <= 100 * average_of(Ok(batch)).0,
        100 * average_of(Ok(batch)).0 <= hi * average_of(Ok(batch)).1,
{
    lemma_cents_sum_bounds(batch, lo, hi);
    let n = batch.len() as int;
    let total = cents_sum(batch);
    assert(lo * (100 * n) <= 100 * total && 100 * total <= hi * (100 * n)) by (nonlinear_arith)
        requires
            lo * n <= total <= hi * n,
    ;
}

/// The mean of a batch that holds only transfers within the limit is below
/// a hundred and one dollars.
pub proof fn average_of_batch_is_below_limit(all: Seq<Transfer>)
    requires
        batch_of(all).len() > 0,
    ensures
        100 * average_of(Ok(batch_of(all))).0 < 101 * 100 * average_of(Ok(batch_of(all))).1,
{
    let batch = batch_of(all);
    let lo = i64::MIN as int;
    assert forall|i: int| 0 <= i < batch.len() implies lo <= (#[trigger] batch[i]).amount_cents
        <= 10099 by {
        all.lemma_filter_pred(|t: Transfer| within_limit(t), i);
        assert(within_limit(batch[i]));
    }
    average_between_least_and_greatest(batch, lo, 10099);
    let d = average_of(Ok(batch)).1;
    assert(10099 * d < 101 * 100 * d) by (nonlinear_arith)
        requires
            d > 0,
    ;
}

} // verus!
