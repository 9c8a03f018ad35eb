//! The jobs that this session has started and not yet cancelled.

use vstd::prelude::*;
use vstd::multiset::group_multiset_axioms;
use vstd::seq_lib::{to_multiset_build, to_multiset_remove};

verus! {

/// The handles of `jobs`, each as the text it holds.
pub open spec fn handle_texts(jobs: Seq<String>) -> Seq<Seq<char>> {
    jobs.map_values(|job: String| job@)
}

/// The list of job handles, in the order in which the jobs were started.
///
/// It starts empty and changes in two ways only, neither of them open to
/// other crates: a handle enters when a submission ends with the backend's
/// acceptance, and the first handle equal to a cancelled one leaves when the
/// backend has confirmed the cancellation. So every handle held was issued
/// to this session, and is held at most as often as it was issued. A handle
/// may occur more than once: the registry does not look for duplicates.
#[derive(Debug, PartialEq, Eq)]
pub struct JobRegistry {
    jobs: Vec<String>,
}

impl View for JobRegistry {
    type V = Seq<Seq<char>>;

    closed spec fn view(&self) -> Seq<Seq<char>> {
        handle_texts(self.jobs@)
    }
}

impl JobRegistry {
    /// A registry without jobs.
    pub fn new() -> (registry: JobRegistry)
        ensures
            registry@ == Seq::<Seq<char>>::empty(),
    {
        JobRegistry { jobs: Vec::new() }
    }

    /// The number of handles held.
    pub fn len(&self) -> (len: usize)
        ensures
            len == self@.len(),
    {
        self.jobs.len()
    }

    /// The handles held, oldest first.
    pub fn handles(&self) -> (handles: &Vec<String>)
        ensures
            handle_texts(handles@) == self@,
    {
        &self.jobs
    }

    /// Appends `job_id` to the handles held.
    pub(crate) fn record(&mut self, job_id: String)
        ensures
            final(self)@ == old(self)@.push(job_id@),
    {
        self.jobs.push(job_id);
    }

    /// Removes the first handle equal to `job_id`, if there is one.
    pub(crate) fn forget(&mut self, job_id: &String)
        ensures
            final(self)@ == old(self)@.remove_value(job_id@),
    {
        let ghost before = self@;
        let mut i: usize = 0;
        while i < self.jobs.len()
            invariant
                i <= self.jobs.len(),
                self@ == before,
                before == old(self)@,
                forall|j: int| 0 <= j < i ==> before[j] != job_id@,
            decreases self.jobs.len() - i,
        {
            if self.jobs[i] == *job_id {
                proof {
                    lemma_first_match_leaves(before, job_id@, i as int);
                }
                self.jobs.remove(i);
                return;
            }
            i += 1;
        }
        proof {
            before.index_of_first_ensures(job_id@);
        }
    }
}

/// No update is lost. When two submissions end, each appends its handle, one
/// after the other in either order. Both orders leave the registry with the
/// same handles, each as often: those it held, and the two new ones.
pub proof fn lemma_records_in_either_order(
    jobs: Seq<Seq<char>>,
    first: Seq<char>,
    second: Seq<char>,
)
    ensures
        jobs.push(first).push(second).to_multiset() == jobs.push(second).push(first).to_multiset(),
        jobs.push(first).push(second).to_multiset() == jobs.to_multiset().insert(first).insert(
            second,
        ),
        jobs.push(first).push(second).contains(first),
        jobs.push(first).push(second).contains(second),
        jobs.push(second).push(first).contains(first),
        jobs.push(second).push(first).contains(second),
{
    broadcast use group_multiset_axioms;

    to_multiset_build(jobs, first);
    to_multiset_build(jobs, second);
    to_multiset_build(jobs.push(first), second);
    to_multiset_build(jobs.push(second), first);
    let one = jobs.push(first).push(second);
    let other = jobs.push(second).push(first);
    let n = jobs.len() as int;
    assert(one[n] == first && one[n + 1] == second);
    assert(other[n] == second && other[n + 1] == first);
}

/// Which handle a cancellation takes: the first one equal to `job_id`, the
/// one at `first`, after which the handles behind it move up by one place.
pub proof fn lemma_first_match_leaves(jobs: Seq<Seq<char>>, job_id: Seq<char>, first: int)
    requires
        0 <= first < jobs.len(),
        jobs[first] == job_id,
        forall|j: int| 0 <= j < first ==> jobs[j] != job_id,
    ensures
        jobs.remove_value(job_id) == jobs.remove(first),
{
    jobs.index_of_first_ensures(job_id);
}

/// A cancellation takes at most one handle. Forgetting `job_id` takes one
/// occurrence of it out of the registry where there is one, and leaves the
/// registry as it was where there is none. No other handle is touched.
pub proof fn lemma_forget_takes_one(jobs: Seq<Seq<char>>, job_id: Seq<char>)
    ensures
        jobs.remove_value(job_id).to_multiset() == jobs.to_multiset().remove(job_id),
        jobs.contains(job_id) ==> jobs.remove_value(job_id).len() == jobs.len() - 1,
        !jobs.contains(job_id) ==> jobs.remove_value(job_id) == jobs,
{
    broadcast use group_multiset_axioms;

    jobs.index_of_first_ensures(job_id);
    jobs.to_multiset_ensures();
    if let Some(i) = jobs.index_of_first(job_id) {
        to_multiset_remove(jobs, i);
    }
}

/// One change to the registry: the handle of a submission that the backend
/// accepted, or of a cancellation that it confirmed.
pub ghost enum RegistryEvent {
    Accepted { job_id: Seq<char> },
    Cancelled { job_id: Seq<char> },
}

/// The handles held after the changes of `history`, starting from none.
pub open spec fn replay(history: Seq<RegistryEvent>) -> Seq<Seq<char>>
    decreases history.len(),
{
    if history.len() == 0 {
        Seq::empty()
    } else {
        let before = replay(history.drop_last());
        match history.last() {
            RegistryEvent::Accepted { job_id } => before.push(job_id),
            RegistryEvent::Cancelled { job_id } => before.remove_value(job_id),
        }
    }
}

/// How many submissions of `history` were accepted with the handle `job_id`.
pub open spec fn accepted(history: Seq<RegistryEvent>, job_id: Seq<char>) -> nat
    decreases history.len(),
{
    if history.len() == 0 {
        0
    } else {
        accepted(history.drop_last(), job_id) + if history.last() == (RegistryEvent::Accepted {
            job_id,
        }) {
            1nat
        } else {
            0nat
        }
    }
}

/// How many cancellations of `history` were confirmed for the handle
/// `job_id`.
pub open spec fn cancelled(history: Seq<RegistryEvent>, job_id: Seq<char>) -> nat
    decreases history.len(),
{
    if history.len() == 0 {
        0
    } else {
        cancelled(history.drop_last(), job_id) + if history.last() == (RegistryEvent::Cancelled {
            job_id,
        }) {
            1nat
        } else {
            0nat
        }
    }
}

/// What the registry holds goes back to what the session did. A handle is
/// held no more often than submissions were accepted with it, so a handle
/// that is held was issued; and no less often than that number less the
/// cancellations confirmed for it, so nothing but a cancellation takes a
/// handle out.
pub proof fn lemma_held_handles_were_issued(history: Seq<RegistryEvent>, job_id: Seq<char>)
    ensures
        replay(history).to_multiset().count(job_id) <= accepted(history, job_id),
        accepted(history, job_id) <= replay(history).to_multiset().count(job_id) + cancelled(
            history,
            job_id,
        ),
        replay(history).contains(job_id) ==> accepted(history, job_id) > 0,
    decreases history.len(),
{
    broadcast use group_multiset_axioms;

    replay(history).to_multiset_ensures();
    if history.len() > 0 {
        let before = replay(history.drop_last());
        lemma_held_handles_were_issued(history.drop_last(), job_id);
        match history.last() {
            RegistryEvent::Accepted { job_id: entered } => {
                to_multiset_build(before, entered);
            },
            RegistryEvent::Cancelled { job_id: left } => {
                lemma_forget_takes_one(before, left);
            },
        }
    }
}

} // verus!
