//! One run of the poller over all issues.
//!
//! A run visits the issues that the table held when it began, in the order
//! of the table, one at a time, and every one of them whatever the others
//! came to. The run hands out what is to be done and is handed back what
//! came of it:
//!
//! - `Run::next` says whether the run is finished, and else what to ask the
//!   tracker about the next issue;
//! - `Asking::answered` takes the tracker's answer, and says whether a
//!   notice is to be sent;
//! - `Delivering::delivered` takes the result of sending it.
//!
//! Each of these takes the state by value and hands the next state back, so
//! that no step can be left out or taken twice.

use vstd::prelude::*;
use crate::conf::Configuration;
use crate::cron::{
    check,
    check_issue,
    checked,
    checked_rows,
    comments_request,
    comments_request_view,
    delivered,
    delivered_result,
    delivered_rows,
    delivery_view,
    failures,
    polled_view,
    polled_views,
    status,
    updates,
    Checked,
    CheckedView,
    Summary,
};
use crate::error::{Error, ErrorView};
use crate::issue::{Issue, IssueView};
use crate::mail::{Mail, MailView};
use crate::store::{distinct, issue_views, never_back, Store};
use crate::tracker::{answer_view, Request, Response};

verus! {

/// A run between two issues: the issues to visit, and what the visited ones
/// came to.
#[derive(Debug)]
pub struct Run {
    issues: Vec<Issue>,
    outcomes: Vec<Result<bool, Error>>,
}

/// A run that waits for the tracker's answer about an issue.
#[derive(Debug)]
pub struct Asking {
    run: Run,
    request: Request,
}

/// A run that waits for the notifier to send the notice on an issue.
#[derive(Debug)]
pub struct Delivering {
    run: Run,
    notice: Mail,
    watermark: String,
}

/// What a run does next.
#[derive(Debug)]
pub enum Next {
    /// The tracker is to be asked about the next issue.
    Ask(Asking),
    /// Every issue was visited: the counts, and the run's status, which is
    /// the first failure where any issue failed.
    Finished { summary: Summary, status: Result<(), Error> },
}

/// What a run does once the tracker answered.
#[derive(Debug)]
pub enum Answered {
    /// The issue is done, and the run goes on.
    Next(Run),
    /// A notice is to be sent.
    Deliver(Delivering),
}

impl Run {
    #[verifier::type_invariant]
    spec fn inv(&self) -> bool {
        self.outcomes@.len() <= self.issues@.len()
    }

    /// The issues that the run visits, as they were when it began.
    pub closed spec fn issues(&self) -> Seq<IssueView> {
        issue_views(self.issues@)
    }

    /// What the issues visited so far came to, in their order.
    pub closed spec fn outcomes(&self) -> Seq<Result<bool, ErrorView>> {
        polled_views(self.outcomes@)
    }

    /// Begins a run over the issues of `store`.
    pub fn start(store: &Store) -> (r: Run)
        ensures
            r.issues() == store@,
            r.outcomes() == Seq::<Result<bool, ErrorView>>::empty(),
    {
        let r = Run { issues: store.list_all(), outcomes: Vec::new() };
        assert(r.outcomes() =~= Seq::<Result<bool, ErrorView>>::empty());
        r
    }

    /// Says what the run does next: it is finished once every issue has its
    /// outcome, and else asks for the comments on the first issue without
    /// one.
    pub fn next(self) -> (r: Next)
        ensures
            self.outcomes().len() <= self.issues().len(),
            match r {
                Next::Ask(asking) => {
                    &&& self.outcomes().len() < self.issues().len()
                    &&& asking.issues() == self.issues()
                    &&& asking.outcomes() == self.outcomes()
                },
                Next::Finished { summary, status: first } => {
                    &&& self.outcomes().len() == self.issues().len()
                    &&& summary.updates == updates(self.outcomes())
                    &&& summary.errors == failures(self.outcomes())
                    &&& delivery_view(first) == status(self.outcomes())
                },
            },
    {
        proof {
            use_type_invariant(&self);
        }
        if self.outcomes.len() < self.issues.len() {
            let request = comments_request(&self.issues[self.outcomes.len()]);
            Next::Ask(Asking { run: self, request })
        } else {
            let (summary, first) = check(&self.outcomes);
            Next::Finished { summary, status: first }
        }
    }

    /// Takes note that what the issue visited last came to could not be
    /// kept, for the reason `e`: that failure becomes the issue's outcome.
    /// A run that has visited no issue stays as it is.
    pub fn unwritten(self, e: Error) -> (r: Run)
        ensures
            r.issues() == self.issues(),
            r.outcomes() == if self.outcomes().len() == 0 {
                self.outcomes()
            } else {
                self.outcomes().update(
                    self.outcomes().len() - 1,
                    Err::<bool, ErrorView>(e@),
                )
            },
    {
        proof {
            use_type_invariant(&self);
        }
        let Run { issues, outcomes } = self;
        let mut outcomes = outcomes;
        if outcomes.len() > 0 {
            let last = outcomes.pop();
            outcomes.push(Err(e));
        }
        let r = Run { issues, outcomes };
        assert(r.outcomes() =~= if self.outcomes().len() == 0 {
            self.outcomes()
        } else {
            self.outcomes().update(self.outcomes().len() - 1, Err::<bool, ErrorView>(e@))
        });
        r
    }

    fn record(self, outcome: Result<bool, Error>) -> (r: Run)
        requires
            self.outcomes@.len() < self.issues@.len(),
        ensures
            r.issues() == self.issues(),
            r.outcomes() == self.outcomes().push(polled_view(outcome)),
    {
        let Run { issues, outcomes } = self;
        let mut outcomes = outcomes;
        outcomes.push(outcome);
        let r = Run { issues, outcomes };
        assert(r.outcomes() =~= self.outcomes().push(polled_view(outcome)));
        r
    }
}

impl Asking {
    #[verifier::type_invariant]
    spec fn inv(&self) -> bool {
        &&& self.run.outcomes@.len() < self.run.issues@.len()
        &&& self.request@ == comments_request_view(
            self.run.issues@[self.run.outcomes@.len() as int]@,
        )
    }

    /// The issues that the run visits.
    pub closed spec fn issues(&self) -> Seq<IssueView> {
        self.run.issues()
    }

    /// What the issues visited so far came to.
    pub closed spec fn outcomes(&self) -> Seq<Result<bool, ErrorView>> {
        self.run.outcomes()
    }

    /// The issue that the tracker is asked about: the first without an
    /// outcome.
    pub open spec fn current(&self) -> IssueView {
        self.issues()[self.outcomes().len() as int]
    }

    /// The issue that the tracker is asked about, as it was when the run
    /// began.
    pub fn issue(&self) -> (r: &Issue)
        ensures
            self.outcomes().len() < self.issues().len(),
            r@ == self.current(),
    {
        proof {
            use_type_invariant(self);
        }
        &self.run.issues[self.run.outcomes.len()]
    }

    /// What to ask of the tracker: the comments on the issue since its
    /// watermark.
    pub fn request(&self) -> (r: &Request)
        ensures
            self.outcomes().len() < self.issues().len(),
            r@ == comments_request_view(self.current()),
    {
        proof {
            use_type_invariant(self);
        }
        &self.request
    }

    /// Takes the tracker's answer. The issue is polled with it as by
    /// `check_issue`; where that asks for a notice the run waits for the
    /// delivery, and else the issue has its outcome and the run goes on.
    pub fn answered(
        self,
        store: &mut Store,
        conf: &Configuration,
        answer: Result<Response, Error>,
    ) -> (r: Answered)
        ensures
            distinct(old(store)@),
            distinct(final(store)@),
            never_back(old(store)@, final(store)@),
            self.outcomes().len() < self.issues().len(),
            final(store)@ == checked_rows(
                old(store)@,
                self.current().token,
                answer_view(answer),
                conf.dry_run,
            ),
            match checked(old(store)@, self.current().token, answer_view(answer), conf) {
                CheckedView::Done(outcome) => {
                    &&& r matches Answered::Next(run)
                    &&& run.issues() == self.issues()
                    &&& run.outcomes() == self.outcomes().push(outcome)
                },
                CheckedView::Deliver { notice, watermark } => {
                    &&& r matches Answered::Deliver(delivering)
                    &&& delivering.issues() == self.issues()
                    &&& delivering.outcomes() == self.outcomes()
                    &&& delivering.notice_view() == notice
                    &&& delivering.watermark() == watermark
                },
            },
    {
        proof {
            use_type_invariant(&self);
        }
        let Asking { run, request } = self;
        let token = run.issues[run.outcomes.len()].token;
        match check_issue(store, conf, token, answer) {
            Checked::Done(outcome) => Answered::Next(run.record(outcome)),
            Checked::Deliver { notice, watermark } => Answered::Deliver(
                Delivering { run, notice, watermark },
            ),
        }
    }
}

impl Delivering {
    #[verifier::type_invariant]
    spec fn inv(&self) -> bool {
        self.run.outcomes@.len() < self.run.issues@.len()
    }

    /// The issues that the run visits.
    pub closed spec fn issues(&self) -> Seq<IssueView> {
        self.run.issues()
    }

    /// What the issues visited so far came to.
    pub closed spec fn outcomes(&self) -> Seq<Result<bool, ErrorView>> {
        self.run.outcomes()
    }

    /// The notice that is to be sent.
    pub closed spec fn notice_view(&self) -> MailView {
        self.notice@
    }

    /// The watermark that the issue moves on to once the notice is sent.
    pub closed spec fn watermark(&self) -> Seq<char> {
        self.watermark@
    }

    /// The issue that the notice is about: the first without an outcome.
    pub open spec fn current(&self) -> IssueView {
        self.issues()[self.outcomes().len() as int]
    }

    /// The issue that the notice is about, as it was when the run began.
    pub fn issue(&self) -> (r: &Issue)
        ensures
            self.outcomes().len() < self.issues().len(),
            r@ == self.current(),
    {
        proof {
            use_type_invariant(self);
        }
        &self.run.issues[self.run.outcomes.len()]
    }

    /// The notice that is to be sent.
    pub fn notice(&self) -> (r: &Mail)
        ensures
            r@ == self.notice_view(),
    {
        &self.notice
    }

    /// Takes the result of sending the notice, as `delivered` does: a notice
    /// that was sent moves the watermark on, a failure leaves it and is the
    /// issue's outcome. Either way the run goes on.
    pub fn delivered(
        self,
        store: &mut Store,
        conf: &Configuration,
        delivery: Result<(), Error>,
    ) -> (r: Run)
        ensures
            distinct(old(store)@),
            distinct(final(store)@),
            never_back(old(store)@, final(store)@),
            self.outcomes().len() < self.issues().len(),
            final(store)@ == delivered_rows(
                old(store)@,
                self.current().token,
                self.watermark(),
                delivery_view(delivery),
                conf.dry_run,
            ),
            r.issues() == self.issues(),
            r.outcomes() == self.outcomes().push(
                delivered_result(
                    old(store)@,
                    self.current().token,
                    self.watermark(),
                    delivery_view(delivery),
                ),
            ),
    {
        proof {
            use_type_invariant(&self);
        }
        let Delivering { run, notice, watermark } = self;
        let token = run.issues[run.outcomes.len()].token;
        let outcome = delivered(store, conf, token, watermark, delivery);
        run.record(outcome)
    }
}

} // verus!
