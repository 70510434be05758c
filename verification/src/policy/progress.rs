//! What has happened so far in one evaluation: the calls made for each
//! condition, the calls under way, and the reports on the actions.

use vstd::prelude::*;
use crate::policy::condition::{history_view, Attempt, AttemptView};

verus! {

/// The log of one evaluation. The host keeps it and writes down each call
/// it starts, each reply it gets and each side effect it has tried; the
/// engine reads it to decide what comes next.
pub struct Progress {
    histories: Vec<Vec<Attempt>>,
    in_flight: Vec<bool>,
    reports: Vec<Option<bool>>,
    cancelled: bool,
}

/// The log as plain values.
pub struct ProgressView {
    /// For each condition, the calls made for it, oldest first.
    pub histories: Seq<Seq<AttemptView>>,
    /// For each condition, whether a call for it is under way.
    pub in_flight: Seq<bool>,
    /// For each action, whether its side effect succeeded, once it was tried.
    pub reports: Seq<Option<bool>>,
    /// Whether the caller has given the evaluation up.
    pub cancelled: bool,
}

impl View for Progress {
    type V = ProgressView;

    closed spec fn view(&self) -> ProgressView {
        ProgressView {
            histories: Seq::new(self.histories@.len(), |i: int| history_view(self.histories@[i]@)),
            in_flight: self.in_flight@,
            reports: self.reports@,
            cancelled: self.cancelled,
        }
    }
}

impl ProgressView {
    /// Room for the same number of conditions in both lists.
    pub open spec fn well_formed(self) -> bool {
        self.histories.len() == self.in_flight.len()
    }

    /// The calls made so far for condition `i`; none for one out of range.
    pub open spec fn history(self, i: int) -> Seq<AttemptView> {
        if 0 <= i < self.histories.len() {
            self.histories[i]
        } else {
            Seq::empty()
        }
    }

    /// Whether a call for condition `i` is under way.
    pub open spec fn flying(self, i: int) -> bool {
        0 <= i < self.in_flight.len() && self.in_flight[i]
    }

    /// The report on action `j`, once there is one.
    pub open spec fn report(self, j: int) -> Option<bool> {
        if 0 <= j < self.reports.len() {
            self.reports[j]
        } else {
            None
        }
    }

    /// The log before anything has happened.
    pub open spec fn fresh(conditions: nat, actions: nat) -> ProgressView {
        ProgressView {
            histories: Seq::new(conditions, |i: int| Seq::<AttemptView>::empty()),
            in_flight: Seq::new(conditions, |i: int| false),
            reports: Seq::new(actions, |j: int| None::<bool>),
            cancelled: false,
        }
    }

    /// Whether a call for condition `i` can be written down as started.
    pub open spec fn can_dispatch(self, i: int) -> bool {
        0 <= i < self.in_flight.len() && !self.in_flight[i]
    }

    /// The log after a call for condition `i` was started.
    pub open spec fn after_dispatch(self, i: int) -> ProgressView {
        if self.can_dispatch(i) {
            ProgressView { in_flight: self.in_flight.update(i, true), ..self }
        } else {
            self
        }
    }

    /// Whether a reply for condition `i` can be written down.
    pub open spec fn can_complete(self, i: int) -> bool {
        0 <= i < self.histories.len() && self.flying(i)
    }

    /// The log after the call for condition `i` came back with `attempt`.
    pub open spec fn after_completion(self, i: int, attempt: AttemptView) -> ProgressView {
        if self.can_complete(i) {
            ProgressView {
                histories: self.histories.update(i, self.histories[i].push(attempt)),
                in_flight: self.in_flight.update(i, false),
                ..self
            }
        } else {
            self
        }
    }

    /// Whether a report on action `j` can be written down.
    pub open spec fn can_report(self, j: int) -> bool {
        0 <= j < self.reports.len() && self.reports[j] is None
    }

    /// The log after the side effect of action `j` was tried.
    pub open spec fn after_report(self, j: int, succeeded: bool) -> ProgressView {
        if self.can_report(j) {
            ProgressView { reports: self.reports.update(j, Some(succeeded)), ..self }
        } else {
            self
        }
    }

    /// The log after the caller gave the evaluation up.
    pub open spec fn after_cancel(self) -> ProgressView {
        ProgressView { cancelled: true, ..self }
    }
}

impl Progress {
    /// An empty log with room for the given numbers of conditions and actions.
    pub fn new(conditions: usize, actions: usize) -> (r: Progress)
        ensures
            r@ == ProgressView::fresh(conditions as nat, actions as nat),
            r@.well_formed(),
    {
        let mut histories: Vec<Vec<Attempt>> = Vec::new();
        let mut in_flight: Vec<bool> = Vec::new();
        let mut i: usize = 0;
        while i < conditions
            invariant
                i <= conditions,
                histories.len() == i,
                in_flight.len() == i,
                forall|k: int| 0 <= k < i ==> (#[trigger] histories[k])@.len() == 0,
                forall|k: int| 0 <= k < i ==> !#[trigger] in_flight[k],
            decreases conditions - i,
        {
            histories.push(Vec::new());
            in_flight.push(false);
            i += 1;
        }
        let mut reports: Vec<Option<bool>> = Vec::new();
        let mut j: usize = 0;
        while j < actions
            invariant
                j <= actions,
                reports.len() == j,
                forall|k: int| 0 <= k < j ==> #[trigger] reports[k] is None,
            decreases actions - j,
        {
            reports.push(None);
            j += 1;
        }
        let r = Progress { histories, in_flight, reports, cancelled: false };
        proof {
            let fresh = ProgressView::fresh(conditions as nat, actions as nat);
            assert forall|k: int| 0 <= k < conditions implies #[trigger] r@.histories[k]
                == fresh.histories[k] by {
                assert(r.histories[k]@.len() == 0);
                assert(history_view(r.histories[k]@) =~= Seq::<AttemptView>::empty());
            }
            assert(r@.histories =~= fresh.histories);
            assert(r@.in_flight =~= fresh.in_flight);
            assert(r@.reports =~= fresh.reports);
        }
        r
    }

    /// The calls made so far for a condition, oldest first.
    pub fn history(&self, condition: usize) -> (r: Option<&Vec<Attempt>>)
        ensures
            match r {
                Some(h) => condition < self@.histories.len() && history_view(h@) == self@.history(
                    condition as int,
                ),
                None => condition >= self@.histories.len(),
            },
    {
        if condition < self.histories.len() {
            Some(&self.histories[condition])
        } else {
            None
        }
    }

    /// Whether a call for a condition is under way.
    pub fn is_in_flight(&self, condition: usize) -> (r: bool)
        ensures
            r == self@.flying(condition as int),
    {
        condition < self.in_flight.len() && self.in_flight[condition]
    }

    /// The report on an action, once there is one.
    pub fn report(&self, action: usize) -> (r: Option<bool>)
        ensures
            r == self@.report(action as int),
    {
        if action < self.reports.len() {
            self.reports[action]
        } else {
            None
        }
    }

    /// Whether the caller has given the evaluation up.
    pub fn is_cancelled(&self) -> (r: bool)
        ensures
            r == self@.cancelled,
    {
        self.cancelled
    }

    /// Writes down that a call for a condition was started. Returns false,
    /// and changes nothing, where the condition is out of range or a call
    /// for it is under way already.
    pub fn dispatched(&mut self, condition: usize) -> (accepted: bool)
        ensures
            accepted == old(self)@.can_dispatch(condition as int),
            final(self)@ == old(self)@.after_dispatch(condition as int),
    {
        if condition < self.in_flight.len() && !self.in_flight[condition] {
            self.in_flight.set(condition, true);
            assert(self@.histories =~= old(self)@.histories);
            true
        } else {
            false
        }
    }

    /// Writes down the reply to the call that was under way for a
    /// condition. Returns false, and changes nothing, where no call for it
    /// was under way.
    pub fn completed(&mut self, condition: usize, attempt: Attempt) -> (accepted: bool)
        ensures
            accepted == old(self)@.can_complete(condition as int),
            final(self)@ == old(self)@.after_completion(condition as int, attempt@),
    {
        if condition < self.histories.len() && condition < self.in_flight.len()
            && self.in_flight[condition] {
            let mut history = self.histories.remove(condition);
            let ghost before = history_view(history@);
            history.push(attempt);
            assert(history_view(history@) =~= before.push(attempt@));
            self.histories.insert(condition, history);
            self.in_flight.set(condition, false);
            proof {
                let want = old(self)@.after_completion(condition as int, attempt@);
                assert(self@.histories.len() == want.histories.len());
                assert forall|k: int| 0 <= k < self@.histories.len() implies #[trigger] self@.histories[k]
                    == want.histories[k] by {
                    if k < condition {
                        assert(self.histories@[k] == old(self).histories@[k]);
                    } else if k > condition {
                        assert(self.histories@[k] == old(self).histories@[k]);
                    }
                }
                assert(self@.histories =~= want.histories);
            }
            true
        } else {
            false
        }
    }

    /// Writes down how the side effect of an action went. Returns false,
    /// and changes nothing, where the action is out of range or has a
    /// report already.
    pub fn performed(&mut self, action: usize, succeeded: bool) -> (accepted: bool)
        ensures
            accepted == old(self)@.can_report(action as int),
            final(self)@ == old(self)@.after_report(action as int, succeeded),
    {
        if action < self.reports.len() && self.reports[action].is_none() {
            self.reports.set(action, Some(succeeded));
            assert(self@.histories =~= old(self)@.histories);
            true
        } else {
            false
        }
    }

    /// Writes down that the caller gave the evaluation up.
    pub fn cancel(&mut self)
        ensures
            final(self)@ == old(self)@.after_cancel(),
    {
        self.cancelled = true;
        assert(self@.histories =~= old(self)@.histories);
    }
}

/// Replies for two different conditions can be written down in either
/// order: the log comes out the same.
pub proof fn lemma_completions_commute(
    log: ProgressView,
    i: int,
    first: AttemptView,
    j: int,
    second: AttemptView,
)
    requires
        i != j,
    ensures
        log.after_completion(i, first).after_completion(j, second) == log.after_completion(
            j,
            second,
        ).after_completion(i, first),
{
    let a = log.after_completion(i, first).after_completion(j, second);
    let b = log.after_completion(j, second).after_completion(i, first);
    assert(a.histories =~= b.histories);
    assert(a.in_flight =~= b.in_flight);
}

/// A reply changes the history of its own condition only.
pub proof fn lemma_completion_is_local(log: ProgressView, i: int, attempt: AttemptView, k: int)
    requires
        k != i,
    ensures
        log.after_completion(i, attempt).history(k) == log.history(k),
        log.after_completion(i, attempt).flying(k) == log.flying(k),
        log.after_completion(i, attempt).reports == log.reports,
{
}

/// An accepted reply is added at the end of its condition's history, and
/// the call is no longer under way.
pub proof fn lemma_completion_appends(log: ProgressView, i: int, attempt: AttemptView)
    requires
        log.well_formed(),
        log.can_complete(i),
    ensures
        log.after_completion(i, attempt).history(i) == log.history(i).push(attempt),
        !log.after_completion(i, attempt).flying(i),
        log.after_completion(i, attempt).well_formed(),
{
}

} // verus!
