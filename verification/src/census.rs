//! The directory census: a subtree of the projects repository is fetched
//! into a scratch directory, the directories directly under it are counted,
//! and the scratch directory is removed again, however the rest went.

use vstd::prelude::*;

verus! {

/// The repository that holds the submitted projects.
pub const PROJECTS_REPOSITORY: &'static str = "https://github.com/hackclub/OnBoard";

/// The branch that is fetched.
pub const PROJECTS_BRANCH: &'static str = "main";

/// The subtree of the repository that is fetched.
pub const PROJECTS_SUBTREE: &'static str = "projects/";

/// The scratch directory that receives the subtree.
pub const SCRATCH_PATH: &'static str = "projects/";

/// What one child of the scratch directory turned out to be.
#[derive(Clone, Copy, Debug, PartialEq, Eq, Structural)]
pub enum Entry {
    Directory,
    /// A file, or anything else that is no directory.
    Other,
    /// A child that could not be read.
    Unreadable,
}

/// How far a census has come.
#[derive(Clone, Copy, Debug, PartialEq, Eq, Structural)]
pub enum Census {
    /// The subtree is to be fetched into the scratch directory.
    Fetching,
    /// The children of the scratch directory are to be listed.
    Listing,
    /// The scratch directory is to be removed. The count is held where the
    /// listing gave one; without one the census halts after the removal.
    Removing(Option<usize>),
    /// The census is over, with the number of directories.
    Counted(usize),
    /// The census is over without a count: nothing can be reported.
    Halted,
}

/// How the task that a census asked for went.
#[derive(Debug, PartialEq, Eq)]
pub enum Outcome {
    /// The task failed.
    Failed,
    /// The task was done and has nothing to hand back.
    Done,
    /// The children of the scratch directory, one entry for each.
    Listed(Vec<Entry>),
}

/// What a census asks its caller to do.
#[derive(Clone, Copy, Debug, PartialEq, Eq, Structural)]
pub enum Task {
    /// Fetch the subtree into the scratch directory, over what is there.
    Fetch,
    /// List the children of the scratch directory.
    List,
    /// Remove the scratch directory and everything under it.
    Remove,
    /// Report the count.
    Report(usize),
    /// Stop: the census has failed, and with it the whole cycle.
    Halt,
}

/// The number of directories among `entries`.
pub open spec fn directories_among(entries: Seq<Entry>) -> nat {
    entries.filter(|e: Entry| e is Directory).len()
}

/// Whether a census is over.
pub open spec fn is_over(state: Census) -> bool {
    state is Counted || state is Halted
}

/// What a census asks for in a given state.
pub open spec fn task_of(state: Census) -> Task {
    match state {
        Census::Fetching => Task::Fetch,
        Census::Listing => Task::List,
        Census::Removing(_) => Task::Remove,
        Census::Counted(n) => Task::Report(n),
        Census::Halted => Task::Halt,
    }
}

/// The census after the outcome of the task it asked for. A failed fetch and
/// a failed listing both lead to the removal, without a count; a listing
/// leads to it with the count. After the removal the census is over, and
/// whether the removal itself succeeded makes no difference. A listing that
/// hands back no entries counts as failed.
pub open spec fn census_after(state: Census, outcome: Outcome) -> Census {
    match state {
        Census::Fetching => match outcome {
            Outcome::Failed => Census::Removing(None),
            _ => Census::Listing,
        },
        Census::Listing => match outcome {
            Outcome::Listed(entries) => Census::Removing(
                Some(directories_among(entries@) as usize),
            ),
            _ => Census::Removing(None),
        },
        Census::Removing(Some(n)) => Census::Counted(n),
        Census::Removing(None) => Census::Halted,
        Census::Counted(_) => state,
        Census::Halted => state,
    }
}

/// Counts the directories among the children of the scratch directory.
/// Files and unreadable children are passed over.
pub fn count_dirs(entries: &Vec<Entry>) -> (r: usize)
    ensures
        r == directories_among(entries@),
{
    let mut count: usize = 0;
    let mut i: usize = 0;
    proof {
        assert(entries@.take(0) =~= Seq::empty());
    }
    while i < entries.len()
        invariant
            i <= entries.len(),
            count <= i,
            count == directories_among(entries@.take(i as int)),
        decreases entries.len() - i,
    {
        proof {
            let before = entries@.take(i as int);
            assert(entries@.take(i + 1) =~= before.push(entries@[i as int]));
            assert(before.push(entries@[i as int]).drop_last() =~= before);
            reveal(Seq::filter);
        }
        match entries[i] {
            Entry::Directory => {
                count += 1;
            },
            _ => {},
        }
        i += 1;
    }
    proof {
        assert(entries@.take(entries.len() as int) =~= entries@);
    }
    count
}

impl Census {
    /// A census before its first task.
    pub fn begin() -> (r: Census)
        ensures
            r == Census::Fetching,
    {
        Census::Fetching
    }

    /// What the census asks for now.
    pub fn task(&self) -> (r: Task)
        ensures
            r == task_of(*self),
    {
        match self {
            Census::Fetching => Task::Fetch,
            Census::Listing => Task::List,
            Census::Removing(_) => Task::Remove,
            Census::Counted(n) => Task::Report(*n),
            Census::Halted => Task::Halt,
        }
    }

    /// The census after the outcome of the task it asked for.
    pub fn step(self, outcome: &Outcome) -> (r: Census)
        ensures
            r == census_after(self, *outcome),
    {
        match self {
            Census::Fetching => match outcome {
                Outcome::Failed => Census::Removing(None),
                _ => Census::Listing,
            },
            Census::Listing => match outcome {
                Outcome::Listed(entries) => Census::Removing(Some(count_dirs(entries))),
                _ => Census::Removing(None),
            },
            Census::Removing(Some(n)) => Census::Counted(n),
            Census::Removing(None) => Census::Halted,
            Census::Counted(n) => Census::Counted(n),
            Census::Halted => Census::Halted,
        }
    }
}

/// A census comes to its end only by way of the removal: whenever a step
/// takes a census that is not over to one that is, the task it had asked for
/// was to remove the scratch directory.
pub proof fn census_ends_after_removal(state: Census, outcome: Outcome)
    requires
        !is_over(state),
        is_over(census_after(state, outcome)),
    ensures
        task_of(state) == Task::Remove,
{
}

/// A census whose fetch fails reports no count: it asks for the removal of
/// the scratch directory and then halts, however the removal went.
pub proof fn failed_fetch_halts(removal: Outcome)
    ensures
        task_of(census_after(Census::Fetching, Outcome::Failed)) == Task::Remove,
        census_after(census_after(Census::Fetching, Outcome::Failed), removal) == Census::Halted,
        task_of(census_after(census_after(Census::Fetching, Outcome::Failed), removal))
            == Task::Halt,
{
}

/// A census whose listing fails after a fetch that did not reports no
/// count: it asks for the removal of the scratch directory and then halts,
/// however the removal went.
pub proof fn failed_listing_halts(fetch: Outcome, listing: Outcome, removal: Outcome)
    requires
        !(fetch is Failed),
        !(listing is Listed),
    ensures
        task_of(census_after(Census::Fetching, fetch)) == Task::List,
        task_of(census_after(census_after(Census::Fetching, fetch), listing)) == Task::Remove,
        census_after(census_after(census_after(Census::Fetching, fetch), listing), removal)
            == Census::Halted,
{
}

/// A halted census stays halted and never reports a count, whatever is
/// handed to it.
pub proof fn halted_census_reports_nothing(outcome: Outcome)
    ensures
        census_after(Census::Halted, outcome) == Census::Halted,
        task_of(Census::Halted) == Task::Halt,
{
}

/// Every census is over after three steps, however its tasks went: after
/// the fetch, the listing and the removal where the fetch succeeded, and
/// already after the fetch and the removal where it failed.
pub proof fn census_is_over_after_three(first: Outcome, second: Outcome, third: Outcome)
    ensures
        is_over(census_after(census_after(census_after(Census::Fetching, first), second), third)),
{
}

/// A census reports a count exactly where the fetch did not fail and the
/// listing handed back entries, and the count is the number of directories
/// among them; the outcome of the removal changes nothing.
pub proof fn census_counts_listing(first: Outcome, second: Outcome, third: Outcome)
    ensures
        census_after(census_after(census_after(Census::Fetching, first), second), third) == (
        if !(first is Failed) && second is Listed {
            Census::Counted(directories_among(second->Listed_0@) as usize)
        } else {
            Census::Halted
        }),
{
}

} // verus!
