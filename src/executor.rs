use vstd::prelude::*;

verus! {

/// How a minimize request for one window went.
#[derive(Clone, Copy, Debug, PartialEq, Eq, Structural)]
pub enum HideOutcome {
    Hidden,
    /// The handle no longer resolved, or the request was refused.
    Failed,
}

/// What the caller does next for a run.
#[derive(Clone, Copy, Debug, PartialEq, Eq, Structural)]
pub enum HideAction {
    /// Minimize this window without activating it, then report the outcome.
    Minimize(usize),
    /// Every window has been requested once.
    Finished,
}

/// The state of one hide pass, as a mathematical value.
pub struct HideRunView {
    pub targets: Seq<usize>,
    /// How many targets have been handed out.
    pub next: nat,
    /// How many reported outcomes were failures.
    pub failures: nat,
}

/// One pass over a set of windows to minimize: each window is handed out
/// once, in order, and a failed request never stops the ones after it.
#[derive(Debug)]
pub struct HideRun {
    targets: Vec<usize>,
    next: usize,
    failures: usize,
}

impl View for HideRun {
    type V = HideRunView;

    closed spec fn view(&self) -> HideRunView {
        HideRunView { targets: self.targets@, next: self.next as nat, failures: self.failures as nat }
    }
}

impl HideRunView {
    pub open spec fn wf(self) -> bool {
        self.next <= self.targets.len() && self.failures <= self.next
    }

    /// A fresh run over `targets`.
    pub open spec fn start(targets: Seq<usize>) -> HideRunView {
        HideRunView { targets, next: 0, failures: 0 }
    }

    pub open spec fn action(self) -> HideAction {
        if self.next < self.targets.len() {
            HideAction::Minimize(self.targets[self.next as int])
        } else {
            HideAction::Finished
        }
    }

    pub open spec fn advance(self) -> HideRunView {
        if self.next < self.targets.len() {
            HideRunView { next: self.next + 1, ..self }
        } else {
            self
        }
    }

    /// Only the diagnostic count sees an outcome; a failure is counted at
    /// most once for each window handed out.
    pub open spec fn report(self, outcome: HideOutcome) -> HideRunView {
        if outcome == HideOutcome::Failed && self.failures < self.next {
            HideRunView { failures: self.failures + 1, ..self }
        } else {
            self
        }
    }

    /// The actions a caller receives when it asks for an action and then
    /// reports the next outcome of `outcomes`, once per outcome.
    pub open spec fn drive(self, outcomes: Seq<HideOutcome>) -> Seq<HideAction>
        decreases outcomes.len(),
    {
        if outcomes.len() == 0 {
            Seq::empty()
        } else {
            seq![self.action()] + self.advance().report(outcomes[0]).drive(outcomes.drop_first())
        }
    }

    /// The state after `drive` on the same outcomes.
    pub open spec fn driven(self, outcomes: Seq<HideOutcome>) -> HideRunView
        decreases outcomes.len(),
    {
        if outcomes.len() == 0 {
            self
        } else {
            self.advance().report(outcomes[0]).driven(outcomes.drop_first())
        }
    }
}

impl HideRun {
    /// A run that will minimize `targets`, in order.
    pub fn new(targets: Vec<usize>) -> (r: HideRun)
        ensures
            r@ == HideRunView::start(targets@),
            r@.wf(),
    {
        HideRun { targets, next: 0, failures: 0 }
    }

    /// The next window to minimize, or `Finished`.
    pub fn next_action(&mut self) -> (a: HideAction)
        requires
            old(self)@.wf(),
        ensures
            a == old(self)@.action(),
            final(self)@ == old(self)@.advance(),
            final(self)@.wf(),
    {
        if self.next < self.targets.len() {
            let h = self.targets[self.next];
            self.next = self.next + 1;
            HideAction::Minimize(h)
        } else {
            HideAction::Finished
        }
    }

    /// Records how the last minimize request went.
    pub fn report(&mut self, outcome: HideOutcome)
        requires
            old(self)@.wf(),
        ensures
            final(self)@ == old(self)@.report(outcome),
            final(self)@.wf(),
    {
        match outcome {
            HideOutcome::Failed => {
                if self.failures < self.next {
                    self.failures = self.failures + 1;
                }
            },
            HideOutcome::Hidden => {},
        }
    }

    /// How many requests were reported as failed.
    pub fn failures(&self) -> (r: usize)
        ensures
            r == self@.failures,
    {
        self.failures
    }

    /// The windows this run minimizes, in order.
    pub fn targets(&self) -> (r: &Vec<usize>)
        ensures
            r@ == self@.targets,
    {
        &self.targets
    }
}

proof fn lemma_drive_from(v: HideRunView, outcomes: Seq<HideOutcome>)
    requires
        v.wf(),
        v.next + outcomes.len() <= v.targets.len(),
    ensures
        v.drive(outcomes) == v.targets.subrange(v.next as int, v.next + outcomes.len() as int).map_values(
            |h: usize| HideAction::Minimize(h),
        ),
        v.driven(outcomes).next == v.next + outcomes.len(),
        v.driven(outcomes).targets == v.targets,
        v.driven(outcomes).wf(),
    decreases outcomes.len(),
{
    let end: int = v.next + outcomes.len() as int;
    if outcomes.len() > 0 {
        let w = v.advance().report(outcomes[0]);
        lemma_drive_from(w, outcomes.drop_first());
    }
    assert(v.drive(outcomes) =~= v.targets.subrange(v.next as int, end).map_values(
        |h: usize| HideAction::Minimize(h),
    ));
}

/// Whatever the outcome of each minimize request, failures included, a run
/// over `targets` hands out every target once, in order, and then finishes.
pub proof fn lemma_failures_do_not_stop_run(targets: Seq<usize>, outcomes: Seq<HideOutcome>)
    requires
        outcomes.len() == targets.len(),
    ensures
        HideRunView::start(targets).drive(outcomes) == targets.map_values(
            |h: usize| HideAction::Minimize(h),
        ),
        HideRunView::start(targets).driven(outcomes).action() == HideAction::Finished,
{
    let v = HideRunView::start(targets);
    lemma_drive_from(v, outcomes);
    assert(targets.subrange(0, targets.len() as int) =~= targets);
}

} // verus!
