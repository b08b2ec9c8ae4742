//! The rules of a batch: how many workers it gets, when a check is tried
//! again, and how the results come back in the order of the targets.
//!
//! Nothing here waits or runs in parallel. The caller hands out the jobs of a
//! [`Batch`] to its workers, lets each worker try its target as often as
//! [`Attempts`] says, and records what each of them settled on.

use crate::status::{CheckStatus, CheckStatusView, WebsiteStatus, WebsiteStatusView};
use vstd::prelude::*;

verus! {

/// The number of workers for `targets` targets where `workers` were asked
/// for: no more than there are targets, and never fewer than one.
pub open spec fn worker_count(workers: nat, targets: nat) -> nat {
    let capped = if workers <= targets {
        workers
    } else {
        targets
    };
    if capped >= 1 {
        capped
    } else {
        1
    }
}

/// The number of workers that a batch of `targets` targets runs on.
pub fn effective_workers(workers: usize, targets: usize) -> (count: usize)
    ensures
        count == worker_count(workers as nat, targets as nat),
{
    let capped = if workers <= targets {
        workers
    } else {
        targets
    };
    if capped >= 1 {
        capped
    } else {
        1
    }
}

/// With no worker asked for, a batch still runs on one.
pub proof fn lemma_no_worker_means_one(targets: nat)
    ensures
        worker_count(0, targets) == 1,
{
}

/// With more workers asked for than there are targets, a batch that has a
/// target runs on one worker for each.
pub proof fn lemma_workers_capped_by_targets(workers: nat, targets: nat)
    requires
        targets >= 1,
        workers > targets,
    ensures
        worker_count(workers, targets) == targets,
{
}

/// A batch runs on at least one worker, and on no more than it has targets
/// unless it has none.
pub proof fn lemma_worker_count_bounds(workers: nat, targets: nat)
    ensures
        1 <= worker_count(workers, targets),
        targets >= 1 ==> worker_count(workers, targets) <= targets,
        worker_count(workers, targets) <= workers || worker_count(workers, targets) == 1,
{
}

/// A check is tried again exactly when it ended as a transport error and
/// fewer than `max_retries` attempts were given up before it.
pub open spec fn tries_again(status: CheckStatusView, retried: nat, max_retries: nat) -> bool {
    status is Transport && retried < max_retries
}

/// The attempts on one target. It belongs to the one worker that holds the
/// target; no two targets share a count.
pub struct Attempts {
    retried: usize,
    max_retries: usize,
}

impl Attempts {
    #[verifier::type_invariant]
    spec fn within_budget(self) -> bool {
        self.retried <= self.max_retries
    }

    /// How many attempts were given up and tried again so far.
    pub closed spec fn retried(&self) -> nat {
        self.retried as nat
    }

    /// How many attempts may be given up at most.
    pub closed spec fn max_retries(&self) -> nat {
        self.max_retries as nat
    }

    /// The state before the first attempt.
    pub fn new(max_retries: usize) -> (attempts: Attempts)
        ensures
            attempts.retried() == 0,
            attempts.max_retries() == max_retries,
    {
        Attempts { retried: 0, max_retries }
    }

    /// Decides what follows an attempt that ended as `status`: `true` to try
    /// the target again at once, `false` to keep this result as the final one.
    /// Only a transport error is tried again, and only while the budget lasts.
    pub fn try_again(&mut self, status: &CheckStatus) -> (again: bool)
        ensures
            again == tries_again(status@, old(self).retried(), old(self).max_retries()),
            final(self).retried() == old(self).retried() + if again {
                1nat
            } else {
                0nat
            },
            final(self).max_retries() == old(self).max_retries(),
    {
        if status.is_transport() && self.retried < self.max_retries {
            self.retried = self.retried + 1;
            true
        } else {
            false
        }
    }
}

/// The number, from 0, of the attempt whose result is kept, where the attempts
/// on a target would end as `ends` in turn and `retried` of them were given up
/// already.
pub open spec fn kept_attempt(ends: Seq<CheckStatusView>, max_retries: nat, retried: nat) -> nat
    decreases max_retries - retried,
{
    if retried < ends.len() && tries_again(ends[retried as int], retried, max_retries) {
        kept_attempt(ends, max_retries, retried + 1)
    } else {
        retried
    }
}

/// A target of which every attempt ends as a transport error is tried
/// `max_retries + 1` times, and the result of the last attempt is the one
/// kept.
pub proof fn lemma_transport_errors_use_up_the_budget(
    ends: Seq<CheckStatusView>,
    max_retries: nat,
)
    requires
        ends.len() > max_retries,
        forall|k: int| 0 <= k < ends.len() ==> ends[k] is Transport,
    ensures
        kept_attempt(ends, max_retries, 0) == max_retries,
{
    lemma_transport_errors_from(ends, max_retries, 0);
}

proof fn lemma_transport_errors_from(ends: Seq<CheckStatusView>, max_retries: nat, retried: nat)
    requires
        ends.len() > max_retries,
        retried <= max_retries,
        forall|k: int| 0 <= k < ends.len() ==> ends[k] is Transport,
    ensures
        kept_attempt(ends, max_retries, retried) == max_retries,
    decreases max_retries - retried,
{
    if retried < max_retries {
        lemma_transport_errors_from(ends, max_retries, retried + 1);
    }
}

/// A target whose first attempt brings a response, of whatever status, is
/// tried once, whatever the budget.
pub proof fn lemma_response_is_final(ends: Seq<CheckStatusView>, max_retries: nat)
    requires
        ends.len() > 0,
        !(ends[0] is Transport),
    ensures
        kept_attempt(ends, max_retries, 0) == 0,
{
}

/// No target is tried more than `max_retries + 1` times; every attempt before
/// the kept one ended as a transport error; and the kept one is a response or
/// the last that the budget allows.
pub proof fn lemma_kept_attempt(ends: Seq<CheckStatusView>, max_retries: nat, retried: nat)
    requires
        retried <= max_retries,
        ends.len() > max_retries,
    ensures
        retried <= kept_attempt(ends, max_retries, retried) <= max_retries,
        forall|k: int|
            retried <= k < kept_attempt(ends, max_retries, retried) ==> ends[k] is Transport,
        !(ends[kept_attempt(ends, max_retries, retried) as int] is Transport) || kept_attempt(
            ends,
            max_retries,
            retried,
        ) == max_retries,
    decreases max_retries - retried,
{
    if retried < ends.len() && tries_again(ends[retried as int], retried, max_retries) {
        lemma_kept_attempt(ends, max_retries, retried + 1);
    }
}

/// What a slot of a batch holds, as sequences.
pub open spec fn slot_view(slot: Option<WebsiteStatus>) -> Option<WebsiteStatusView> {
    match slot {
        Some(ws) => Some(ws@),
        None => None,
    }
}

/// One run over a list of targets: the jobs still to hand out and one slot
/// for the result of each target, in the order of the targets.
pub struct Batch {
    urls: Vec<String>,
    slots: Vec<Option<WebsiteStatus>>,
    next: usize,
}

impl Batch {
    /// There is one slot for each target, no more jobs are handed out than
    /// there are targets, and a recorded result is one for the target of its
    /// slot.
    pub closed spec fn well_formed(&self) -> bool {
        &&& self.slots@.len() == self.urls@.len()
        &&& self.next <= self.urls@.len()
        &&& forall|i: int|
            0 <= i < self.slots@.len() ==> (#[trigger] self.slots@[i] matches Some(ws) ==> ws.url@
                == self.urls@[i]@)
    }

    /// The targets, in the order given.
    pub closed spec fn targets(&self) -> Seq<Seq<char>> {
        self.urls.deep_view()
    }

    /// How many jobs were handed out.
    pub closed spec fn handed_out(&self) -> nat {
        self.next as nat
    }

    /// The result recorded for each target, or none yet.
    pub closed spec fn results(&self) -> Seq<Option<WebsiteStatusView>> {
        self.slots@.map_values(|slot: Option<WebsiteStatus>| slot_view(slot))
    }

    /// Every target has its result.
    pub open spec fn spec_is_complete(&self) -> bool {
        forall|i: int| 0 <= i < self.results().len() ==> (#[trigger] self.results()[i]) is Some
    }

    /// A batch over `urls` of which no job is handed out and no result is in.
    pub fn new(urls: Vec<String>) -> (batch: Batch)
        ensures
            batch.well_formed(),
            batch.targets() == urls.deep_view(),
            batch.handed_out() == 0,
            batch.results() == Seq::new(urls@.len(), |i: int| None::<WebsiteStatusView>),
    {
        let n: usize = urls.len();
        let mut slots: Vec<Option<WebsiteStatus>> = Vec::new();
        let mut i: usize = 0;
        while i < n
            invariant
                n == urls@.len(),
                i <= n,
                slots@.len() == i,
                forall|k: int| 0 <= k < i ==> (#[trigger] slots@[k]) is None,
            decreases n - i,
        {
            slots.push(None);
            i += 1;
        }
        let batch = Batch { urls, slots, next: 0 };
        batch
    }

    /// How many targets the batch has.
    pub fn len(&self) -> (n: usize)
        ensures
            n == self.targets().len(),
    {
        self.urls.len()
    }

    /// Hands out the next job: the place of a target in the list and the
    /// target. Every target is handed out once, in the order of the list;
    /// after the last there is none.
    pub fn next_job(&mut self) -> (job: Option<(usize, String)>)
        requires
            old(self).well_formed(),
        ensures
            final(self).well_formed(),
            final(self).targets() == old(self).targets(),
            final(self).results() == old(self).results(),
            match job {
                Some((index, url)) => {
                    &&& index == old(self).handed_out()
                    &&& index < old(self).targets().len()
                    &&& url@ == old(self).targets()[index as int]
                    &&& final(self).handed_out() == old(self).handed_out() + 1
                },
                None => {
                    &&& old(self).handed_out() == old(self).targets().len()
                    &&& final(self).handed_out() == old(self).handed_out()
                },
            },
    {
        if self.next < self.urls.len() {
            let index = self.next;
            let url = self.urls[index].clone();
            self.next = index + 1;
            Some((index, url))
        } else {
            None
        }
    }

    /// Records `ws` as the result of the target at `index`. It is taken only
    /// if the batch has such a target and `ws` is a result for it; a result
    /// recorded earlier for the same target gives way. What is not taken
    /// changes nothing.
    pub fn record(&mut self, index: usize, ws: WebsiteStatus) -> (taken: bool)
        requires
            old(self).well_formed(),
        ensures
            final(self).well_formed(),
            taken == (index < old(self).targets().len() && ws.url@ == old(
                self,
            ).targets()[index as int]),
            final(self).results() == if taken {
                old(self).results().update(index as int, Some(ws@))
            } else {
                old(self).results()
            },
            final(self).targets() == old(self).targets(),
            final(self).handed_out() == old(self).handed_out(),
    {
        if index < self.urls.len() && ws.url == self.urls[index] {
            self.slots.set(index, Some(ws));
            true
        } else {
            false
        }
    }

    /// Whether every target has its result.
    #[verifier::when_used_as_spec(spec_is_complete)]
    pub fn is_complete(&self) -> (complete: bool)
        ensures
            complete == self.spec_is_complete(),
    {
        let n: usize = self.slots.len();
        let mut i: usize = 0;
        while i < n
            invariant
                n == self.slots@.len(),
                i <= n,
                forall|k: int| 0 <= k < i ==> (#[trigger] self.results()[k]) is Some,
            decreases n - i,
        {
            if self.slots[i].is_none() {
                return false;
            }
            assert(self.results()[i as int] is Some);
            i += 1;
        }
        true
    }

    /// The results in the order of the targets, whatever the order in which
    /// they came in; `None` while a target lacks its result.
    pub fn into_results(self) -> (results: Option<Vec<WebsiteStatus>>)
        requires
            self.well_formed(),
        ensures
            results is Some <==> self.is_complete(),
            results matches Some(list) ==> {
                &&& list@.len() == self.targets().len()
                &&& forall|i: int|
                    0 <= i < list@.len() ==> self.results()[i] == Some((#[trigger] list@[i])@)
                &&& forall|i: int|
                    0 <= i < list@.len() ==> (#[trigger] list@[i]).url@ == self.targets()[i]
            },
    {
        let ghost before = self.results();
        let ghost held = self.slots@;
        let mut list: Vec<WebsiteStatus> = Vec::new();
        for slot in it: self.slots
            invariant
                held == it.seq(),
                before == held.map_values(|slot: Option<WebsiteStatus>| slot_view(slot)),
                it.history() == list@.map_values(|ws: WebsiteStatus| Some(ws)),
        {
            let ghost at = it.index();
            match slot {
                Some(ws) => {
                    list.push(ws);
                },
                None => {
                    assert(before[at] is None);
                    return None;
                },
            }
        }
        assert(held == list@.map_values(|ws: WebsiteStatus| Some(ws)));
        assert forall|i: int| 0 <= i < list@.len() implies before[i] == Some(
            (#[trigger] list@[i])@,
        ) && list@[i].url@ == self.targets()[i] by {
        }
        Some(list)
    }
}

} // verus!
