//! The update poller: which comments on an issue are new since its
//! watermark, the one notice that brings them to a subscriber, and the
//! watermark's advance once the notice is delivered.
//!
//! For one issue a caller asks the tracker for comments, hands the answer to
//! `check_issue`, sends the notice where one is asked for and hands the
//! result to `delivered`. `check` sums up what the issues of a run came to.
//! The module `run` takes these steps over all issues.

use vstd::prelude::*;
use vstd::string::*;
use crate::api::{refused, unknown_issue, ISSUE_NOT_FOUND};
use crate::conf::Configuration;
use crate::error::{Error, ErrorKind, ErrorView};
use crate::issue::{Issue, IssueView};
use crate::mail::{mail_view, titled, Mail, MailView};
use crate::store::{
    distinct,
    found,
    law_never_back_reflexive,
    lemma_found,
    lemma_found_id,
    lemma_with_watermark_forward,
    never_back,
    with_watermark,
    Store,
};
use crate::templates::{reply_update, reply_update_text};
use crate::text::{
    at_most,
    before,
    is_before,
    lemma_before_irreflexive,
    lemma_before_total,
    lemma_before_transitive,
    same,
    views,
};
use crate::token::Token;
use crate::tracker::{
    answer_view,
    comment_views,
    comments,
    comments_of,
    mismatch_view,
    Comment,
    CommentView,
    Request,
    RequestView,
    Response,
    ResponseView,
};

verus! {

/// How the subject of a notice begins, behind the tag.
pub const NOTICE_HEAD: &'static str = "new replies in issue `";

/// How the subject of a notice ends.
pub const NOTICE_TAIL: &'static str = "`";

/// The description of a listing that the tracker answered with a failure
/// status.
pub const LIST_REFUSED: &'static str = "Comments cannot be listed due to an internal error.";

/// What stands before the login of a comment's author.
pub const USER: &'static str = "User ";

/// What stands between the author's login and the comment.
pub const REPLIED: &'static str = " replied:\n\n";

/// What polling one issue came to so far.
#[derive(Debug)]
pub enum Checked {
    /// The issue is done for this run: `Ok(true)` where its watermark moved
    /// on, `Ok(false)` where nothing was new.
    Done(Result<bool, Error>),
    /// `notice` is to be sent, and the result handed to `delivered` together
    /// with `watermark`.
    Deliver { notice: Mail, watermark: String },
}

/// `Checked` as a mathematical value.
pub enum CheckedView {
    Done(Result<bool, ErrorView>),
    Deliver { notice: MailView, watermark: Seq<char> },
}

/// Whether an issue moved on, or why it failed, as a mathematical value.
pub open spec fn polled_view(r: Result<bool, Error>) -> Result<bool, ErrorView> {
    match r {
        Ok(updated) => Ok(updated),
        Err(e) => Err(e@),
    }
}

/// What sending a notice came to, as a mathematical value.
pub open spec fn delivery_view(r: Result<(), Error>) -> Result<(), ErrorView> {
    match r {
        Ok(_) => Ok(()),
        Err(e) => Err(e@),
    }
}

impl View for Checked {
    type V = CheckedView;

    open spec fn view(&self) -> CheckedView {
        match self {
            Checked::Done(r) => CheckedView::Done(polled_view(*r)),
            Checked::Deliver { notice, watermark } => CheckedView::Deliver {
                notice: notice@,
                watermark: watermark@,
            },
        }
    }
}

/// The counts that a run reports.
#[derive(Clone, Copy, Debug, PartialEq, Eq, Structural)]
pub struct Summary {
    /// How many issues moved on.
    pub updates: usize,
    /// How many issues failed.
    pub errors: usize,
}

/// The comments of `comments` made after `watermark`, in their order.
pub open spec fn fresh(comments: Seq<CommentView>, watermark: Seq<char>) -> Seq<CommentView> {
    comments.filter(|c: CommentView| before(watermark, c.created_at))
}

/// The latest of `floor` and the times of `comments`.
pub open spec fn newest(comments: Seq<CommentView>, floor: Seq<char>) -> Seq<char>
    decreases comments.len(),
{
    if comments.len() == 0 {
        floor
    } else {
        let rest = newest(comments.drop_last(), floor);
        if before(rest, comments.last().created_at) {
            comments.last().created_at
        } else {
            rest
        }
    }
}

/// A comment as the notice shows it: the bot's own comments as they are,
/// anyone else's under the author's login.
pub open spec fn rendered(c: CommentView, conf: &Configuration) -> Seq<char> {
    if c.login == conf.bot_username@ {
        c.body
    } else {
        USER@ + c.login + REPLIED@ + c.body
    }
}

/// `comments` as the notice shows them, in their order.
pub open spec fn rendered_all(comments: Seq<CommentView>, conf: &Configuration) -> Seq<Seq<char>> {
    Seq::new(comments.len(), |i: int| rendered(comments[i], conf))
}

/// The notice that brings `news` to the submitter of `row`.
pub open spec fn notice_view(row: IssueView, news: Seq<CommentView>, conf: &Configuration) -> MailView {
    mail_view(
        conf,
        row.submitter,
        titled(NOTICE_HEAD@, row.title, NOTICE_TAIL@),
        reply_update_text(row.title, row.token, conf, rendered_all(news, conf)),
    )
}

/// The request for the comments on `row` since its watermark.
pub open spec fn comments_request_view(row: IssueView) -> RequestView {
    RequestView::ListComments { id: row.id, since: row.watermark }
}

/// What polling the issue `row` comes to, given the comments that the
/// tracker lists: nothing where none is after the watermark; else a notice
/// to deliver where the submitter is subscribed, and an update otherwise.
pub open spec fn polled(row: IssueView, comments: Seq<CommentView>, conf: &Configuration) -> CheckedView {
    let news = fresh(comments, row.watermark);
    if news.len() == 0 {
        CheckedView::Done(Ok(false))
    } else if row.subscribed {
        CheckedView::Deliver {
            notice: notice_view(row, news, conf),
            watermark: newest(comments, row.watermark),
        }
    } else {
        CheckedView::Done(Ok(true))
    }
}

/// The table after the issue `row` was polled: the watermark moves on at
/// once only where there is news and nobody to notify.
pub open spec fn polled_rows(
    rows: Seq<IssueView>,
    row: IssueView,
    comments: Seq<CommentView>,
    dry_run: bool,
) -> Seq<IssueView> {
    if fresh(comments, row.watermark).len() > 0 && !row.subscribed && !dry_run {
        with_watermark(rows, row.id, newest(comments, row.watermark))
    } else {
        rows
    }
}

/// What polling the issue of `token` comes to, given the comments listed.
pub open spec fn polled_token(
    rows: Seq<IssueView>,
    token: Token,
    comments: Seq<CommentView>,
    conf: &Configuration,
) -> CheckedView {
    match found(rows, token) {
        None => CheckedView::Done(Err(unknown_issue())),
        Some(row) => polled(row, comments, conf),
    }
}

/// The table after the issue of `token` was polled.
pub open spec fn polled_token_rows(
    rows: Seq<IssueView>,
    token: Token,
    comments: Seq<CommentView>,
    dry_run: bool,
) -> Seq<IssueView> {
    match found(rows, token) {
        None => rows,
        Some(row) => polled_rows(rows, row, comments, dry_run),
    }
}

/// The comments that the tracker's answer lists, or why there are none: the
/// call failed, the answer has a failure status, or its body is no list of
/// comments.
pub open spec fn listed(answer: Result<ResponseView, ErrorView>) -> Result<
    Seq<CommentView>,
    ErrorView,
> {
    match answer {
        Err(e) => Err(e),
        Ok(response) => if !response.success {
            Err(refused(LIST_REFUSED@))
        } else {
            match comments_of(response.text) {
                None => Err(mismatch_view()),
                Some(comments) => Ok(comments),
            }
        },
    }
}

/// What polling the issue of `token` comes to, given the tracker's answer.
pub open spec fn checked(
    rows: Seq<IssueView>,
    token: Token,
    answer: Result<ResponseView, ErrorView>,
    conf: &Configuration,
) -> CheckedView {
    match listed(answer) {
        Err(e) => CheckedView::Done(Err(e)),
        Ok(comments) => polled_token(rows, token, comments, conf),
    }
}

/// The table after the issue of `token` was polled with the tracker's
/// answer.
pub open spec fn checked_rows(
    rows: Seq<IssueView>,
    token: Token,
    answer: Result<ResponseView, ErrorView>,
    dry_run: bool,
) -> Seq<IssueView> {
    match listed(answer) {
        Err(_) => rows,
        Ok(comments) => polled_token_rows(rows, token, comments, dry_run),
    }
}

/// What an issue comes to once its notice was handed to the notifier: the
/// failure where the notifier failed, and else whether `watermark` is ahead
/// of the issue's.
pub open spec fn delivered_result(
    rows: Seq<IssueView>,
    token: Token,
    watermark: Seq<char>,
    delivery: Result<(), ErrorView>,
) -> Result<bool, ErrorView> {
    match delivery {
        Err(e) => Err(e),
        Ok(_) => match found(rows, token) {
            None => Err(unknown_issue()),
            Some(row) => Ok(before(row.watermark, watermark)),
        },
    }
}

/// The table once a notice was handed to the notifier: the watermark moves
/// on to `watermark` only where the notice was delivered, `watermark` is
/// ahead, and the run is no dry run.
pub open spec fn delivered_rows(
    rows: Seq<IssueView>,
    token: Token,
    watermark: Seq<char>,
    delivery: Result<(), ErrorView>,
    dry_run: bool,
) -> Seq<IssueView> {
    match found(rows, token) {
        None => rows,
        Some(row) => if delivery is Ok && before(row.watermark, watermark) && !dry_run {
            with_watermark(rows, row.id, watermark)
        } else {
            rows
        },
    }
}

/// What the issues of a run came to, as mathematical values.
pub open spec fn polled_views(outcomes: Seq<Result<bool, Error>>) -> Seq<Result<bool, ErrorView>> {
    Seq::new(outcomes.len(), |i: int| polled_view(outcomes[i]))
}

/// How many of `outcomes` report an update.
pub open spec fn updates(outcomes: Seq<Result<bool, ErrorView>>) -> nat
    decreases outcomes.len(),
{
    if outcomes.len() == 0 {
        0
    } else {
        updates(outcomes.drop_last()) + if outcomes.last() == Ok::<bool, ErrorView>(true) {
            1nat
        } else {
            0nat
        }
    }
}

/// How many of `outcomes` report a failure.
pub open spec fn failures(outcomes: Seq<Result<bool, ErrorView>>) -> nat
    decreases outcomes.len(),
{
    if outcomes.len() == 0 {
        0
    } else {
        failures(outcomes.drop_last()) + if outcomes.last() is Err {
            1nat
        } else {
            0nat
        }
    }
}

/// The status of a run: the first failure among `outcomes` where there is
/// one.
pub open spec fn status(outcomes: Seq<Result<bool, ErrorView>>) -> Result<(), ErrorView>
    decreases outcomes.len(),
{
    if outcomes.len() == 0 {
        Ok(())
    } else {
        match status(outcomes.drop_last()) {
            Err(e) => Err(e),
            Ok(_) => match outcomes.last() {
                Err(e) => Err(e),
                Ok(_) => Ok(()),
            },
        }
    }
}

/// Taking one more comment into account either adds it to the fresh ones or
/// leaves them as they are.
pub proof fn lemma_fresh_step(comments: Seq<CommentView>, watermark: Seq<char>, i: int)
    requires
        0 <= i < comments.len(),
    ensures
        fresh(comments.take(i + 1), watermark) == if before(watermark, comments[i].created_at) {
            fresh(comments.take(i), watermark).push(comments[i])
        } else {
            fresh(comments.take(i), watermark)
        },
        newest(comments.take(i + 1), watermark) == if before(
            newest(comments.take(i), watermark),
            comments[i].created_at,
        ) {
            comments[i].created_at
        } else {
            newest(comments.take(i), watermark)
        },
{
    reveal(Seq::filter);
    assert(comments.take(i + 1).drop_last() =~= comments.take(i));
    assert(comments.take(i + 1).last() == comments[i]);
}

/// The latest time is not before the floor nor before any of the comments,
/// and it is the floor or the time of one of them.
pub proof fn lemma_newest(comments: Seq<CommentView>, floor: Seq<char>)
    ensures
        at_most(floor, newest(comments, floor)),
        forall|i: int|
            0 <= i < comments.len() ==> at_most(
                (#[trigger] comments[i]).created_at,
                newest(comments, floor),
            ),
        newest(comments, floor) == floor || exists|i: int|
            0 <= i < comments.len() && newest(comments, floor) == (#[trigger] comments[i]).created_at,
    decreases comments.len(),
{
    if comments.len() == 0 {
        lemma_before_irreflexive(floor);
    } else {
        let rest = comments.drop_last();
        let last = comments.last();
        let top = newest(rest, floor);
        lemma_newest(rest, floor);
        if before(top, last.created_at) {
            lemma_before_irreflexive(last.created_at);
            if before(last.created_at, floor) {
                lemma_before_transitive(top, last.created_at, floor);
            }
            assert forall|i: int| 0 <= i < comments.len() implies at_most(
                (#[trigger] comments[i]).created_at,
                last.created_at,
            ) by {
                if i < rest.len() {
                    assert(comments[i] == rest[i]);
                    if before(last.created_at, rest[i].created_at) {
                        lemma_before_transitive(top, last.created_at, rest[i].created_at);
                    }
                }
            }
            assert(newest(comments, floor) == comments[comments.len() - 1].created_at);
        } else {
            assert forall|i: int| 0 <= i < comments.len() implies at_most(
                (#[trigger] comments[i]).created_at,
                top,
            ) by {
                if i < rest.len() {
                    assert(comments[i] == rest[i]);
                }
            }
            if top != floor {
                let k = choose|k: int| 0 <= k < rest.len() && top == (#[trigger] rest[k]).created_at;
                assert(comments[k] == rest[k]);
            }
        }
    }
}

/// The watermark moves on to the latest of the comments that are new: the
/// comments made at or before the watermark have no part in it.
pub proof fn law_newest_of_fresh(comments: Seq<CommentView>, watermark: Seq<char>)
    ensures
        newest(comments, watermark) == newest(fresh(comments, watermark), watermark),
    decreases comments.len(),
{
    reveal(Seq::filter);
    if comments.len() > 0 {
        let rest = comments.drop_last();
        let last = comments.last();
        law_newest_of_fresh(rest, watermark);
        lemma_newest(rest, watermark);
        if before(watermark, last.created_at) {
            assert(fresh(comments, watermark).drop_last() =~= fresh(rest, watermark));
        } else if before(newest(rest, watermark), last.created_at) {
            lemma_before_total(watermark, newest(rest, watermark));
            if watermark != newest(rest, watermark) {
                lemma_before_transitive(watermark, newest(rest, watermark), last.created_at);
            }
        }
    }
}

/// Each row of a table with distinct numbers is the only one with its
/// number.
proof fn lemma_row_by_id(rows: Seq<IssueView>, row: IssueView, i: int)
    requires
        distinct(rows),
        rows.contains(row),
        0 <= i < rows.len(),
        rows[i].id == row.id,
    ensures
        rows[i] == row,
{
    let k = choose|k: int| 0 <= k < rows.len() && rows[k] == row;
    if k < i {
        assert(rows[k].id != rows[i].id);
    } else if i < k {
        assert(rows[i].id != rows[k].id);
    }
}

/// Polling takes no watermark back.
pub proof fn law_poll_never_back(
    rows: Seq<IssueView>,
    token: Token,
    comments: Seq<CommentView>,
    dry_run: bool,
)
    requires
        distinct(rows),
    ensures
        never_back(rows, polled_token_rows(rows, token, comments, dry_run)),
{
    law_never_back_reflexive(rows);
    lemma_found(rows, token);
    if let Some(row) = found(rows, token) {
        let top = newest(comments, row.watermark);
        lemma_newest(comments, row.watermark);
        assert forall|i: int| 0 <= i < rows.len() && (#[trigger] rows[i]).id == row.id implies at_most(
            rows[i].watermark,
            top,
        ) by {
            lemma_row_by_id(rows, row, i);
        }
        lemma_with_watermark_forward(rows, row.id, top);
    }
}

/// Polling with the tracker's answer takes no watermark back.
pub proof fn law_check_never_back(
    rows: Seq<IssueView>,
    token: Token,
    answer: Result<ResponseView, ErrorView>,
    dry_run: bool,
)
    requires
        distinct(rows),
    ensures
        never_back(rows, checked_rows(rows, token, answer, dry_run)),
{
    law_never_back_reflexive(rows);
    if let Ok(comments) = listed(answer) {
        law_poll_never_back(rows, token, comments, dry_run);
    }
}

/// Taking the result of a delivery takes no watermark back, whatever
/// watermark comes with it.
pub proof fn law_delivery_never_back(
    rows: Seq<IssueView>,
    token: Token,
    watermark: Seq<char>,
    delivery: Result<(), ErrorView>,
    dry_run: bool,
)
    requires
        distinct(rows),
    ensures
        never_back(rows, delivered_rows(rows, token, watermark, delivery, dry_run)),
{
    law_never_back_reflexive(rows);
    lemma_found(rows, token);
    if let Some(row) = found(rows, token) {
        if before(row.watermark, watermark) {
            assert forall|i: int|
                0 <= i < rows.len() && (#[trigger] rows[i]).id == row.id implies at_most(
                rows[i].watermark,
                watermark,
            ) by {
                lemma_row_by_id(rows, row, i);
                if before(watermark, row.watermark) {
                    lemma_before_transitive(row.watermark, watermark, row.watermark);
                    lemma_before_irreflexive(row.watermark);
                }
            }
            lemma_with_watermark_forward(rows, row.id, watermark);
        }
    }
}

/// Every comment that goes into a notice was made strictly after the
/// watermark: a comment made at the watermark is never among them.
pub proof fn law_boundary_comment_excluded(comments: Seq<CommentView>, watermark: Seq<char>, i: int)
    requires
        0 <= i < fresh(comments, watermark).len(),
    ensures
        before(watermark, fresh(comments, watermark)[i].created_at),
        fresh(comments, watermark)[i].created_at != watermark,
{
    comments.lemma_filter_pred(|c: CommentView| before(watermark, c.created_at), i);
    lemma_before_irreflexive(watermark);
}

/// Once the watermark has moved on to the latest of the comments listed,
/// none of them is new again: what was delivered is not delivered twice.
pub proof fn law_delivered_not_again(comments: Seq<CommentView>, watermark: Seq<char>)
    ensures
        fresh(comments, newest(comments, watermark)).len() == 0,
{
    let top = newest(comments, watermark);
    let news = fresh(comments, top);
    lemma_newest(comments, watermark);
    if news.len() > 0 {
        let pred = |c: CommentView| before(top, c.created_at);
        comments.lemma_filter_pred(pred, 0);
        assert(news.contains(news[0]));
        comments.lemma_filter_contains_rev(pred, news[0]);
        let k = choose|k: int| 0 <= k < comments.len() && comments[k] == news[0];
        assert(at_most(comments[k].created_at, top));
    }
}

/// While the submitter is subscribed, polling alone moves no watermark: the
/// watermark waits for the delivery.
pub proof fn law_no_advance_without_delivery(
    rows: Seq<IssueView>,
    row: IssueView,
    comments: Seq<CommentView>,
    dry_run: bool,
)
    requires
        row.subscribed,
    ensures
        polled_rows(rows, row, comments, dry_run) == rows,
{
}

/// A notice that could not be delivered leaves the table as it is, so the
/// next poll of the same comments comes to the same notice.
pub proof fn law_failed_delivery_retries(
    rows: Seq<IssueView>,
    token: Token,
    watermark: Seq<char>,
    e: ErrorView,
    dry_run: bool,
    comments: Seq<CommentView>,
    conf: &Configuration,
)
    ensures
        delivered_result(rows, token, watermark, Err(e)) == Err::<bool, ErrorView>(e),
        delivered_rows(rows, token, watermark, Err(e), dry_run) == rows,
        polled_token(delivered_rows(rows, token, watermark, Err(e), dry_run), token, comments, conf)
            == polled_token(rows, token, comments, conf),
{
}

fn render(c: &Comment, conf: &Configuration) -> (r: String)
    ensures
        r@ == rendered(c@, conf),
{
    if same(c.login.as_str(), conf.bot_username.as_str()) {
        c.body.clone()
    } else {
        let mut s = String::from_str(USER);
        s.append(c.login.as_str());
        s.append(REPLIED);
        s.append(c.body.as_str());
        s
    }
}

/// What to ask of the tracker for `issue`: the comments since its watermark.
pub fn comments_request(issue: &Issue) -> (r: Request)
    ensures
        r@ == comments_request_view(issue@),
{
    Request::ListComments { id: issue.id, since: issue.watermark.clone() }
}

/// Polls the issue of `password` with the comments that the tracker lists.
/// Of these only the comments made after the issue's watermark count, so
/// that a comment made at the watermark is not taken again. Where the
/// submitter is subscribed they make up one notice, in the order listed,
/// and the watermark waits for the delivery. Where nobody is subscribed the
/// watermark moves on to the latest of them at once.
pub fn poll(store: &mut Store, conf: &Configuration, password: Token, comments: &Vec<Comment>) -> (r:
    Checked)
    ensures
        distinct(old(store)@),
        distinct(final(store)@),
        r@ == polled_token(old(store)@, password, comment_views(comments@), conf),
        final(store)@ == polled_token_rows(
            old(store)@,
            password,
            comment_views(comments@),
            conf.dry_run,
        ),
        never_back(old(store)@, final(store)@),
{
    proof {
        use_type_invariant(&*store);
        law_poll_never_back(store@, password, comment_views(comments@), conf.dry_run);
    }
    let issue = match store.find_by_token(password) {
        None => {
            return Checked::Done(Err(Error::with_kind(ErrorKind::NotFound, ISSUE_NOT_FOUND)));
        },
        Some(issue) => issue.clone(),
    };
    let ghost all = comment_views(comments@);
    let ghost mark = issue.watermark@;
    let mut latest = issue.watermark.clone();
    let mut parts: Vec<String> = Vec::new();
    let mut i: usize = 0;
    proof {
        reveal(Seq::filter);
        assert(all.take(0) =~= Seq::<CommentView>::empty());
        assert(views(parts@) =~= rendered_all(fresh(all.take(0), mark), conf));
    }
    while i < comments.len()
        invariant
            i <= comments@.len(),
            all == comment_views(comments@),
            mark == issue.watermark@,
            latest@ == newest(all.take(i as int), mark),
            views(parts@) == rendered_all(fresh(all.take(i as int), mark), conf),
            parts@.len() == fresh(all.take(i as int), mark).len(),
        decreases comments@.len() - i,
    {
        let c = &comments[i];
        proof {
            lemma_fresh_step(all, mark, i as int);
            assert(all[i as int] == c@);
        }
        if is_before(issue.watermark.as_str(), c.created_at.as_str()) {
            let ghost shown = views(parts@);
            let text = render(c, conf);
            parts.push(text);
            proof {
                assert(views(parts@) =~= shown.push(rendered(c@, conf)));
                assert(rendered_all(fresh(all.take(i as int), mark).push(c@), conf) =~= shown.push(
                    rendered(c@, conf),
                ));
            }
        }
        if is_before(latest.as_str(), c.created_at.as_str()) {
            latest = c.created_at.clone();
        }
        i = i + 1;
    }
    proof {
        assert(all.take(comments@.len() as int) =~= all);
    }
    if parts.len() == 0 {
        Checked::Done(Ok(false))
    } else if issue.subscribed {
        let body = reply_update(&issue, conf, parts);
        let notice = Mail::titled(
            conf,
            issue.submitter.as_str(),
            NOTICE_HEAD,
            issue.title.as_str(),
            NOTICE_TAIL,
            body,
        );
        Checked::Deliver { notice, watermark: latest }
    } else {
        if !conf.dry_run {
            let rows = store.set_watermark(issue.id, latest);
            proof {
                lemma_found_id(old(store)@, password);
                assert(rows == 1);
            }
        }
        Checked::Done(Ok(true))
    }
}

/// Polls the issue of `password` with the tracker's answer to the request
/// for its comments. A call that failed, an answer with a failure status
/// and an answer that cannot be read each fail the issue and leave its
/// watermark alone.
pub fn check_issue(
    store: &mut Store,
    conf: &Configuration,
    password: Token,
    answer: Result<Response, Error>,
) -> (r: Checked)
    ensures
        distinct(old(store)@),
        distinct(final(store)@),
        r@ == checked(old(store)@, password, answer_view(answer), conf),
        final(store)@ == checked_rows(old(store)@, password, answer_view(answer), conf.dry_run),
        never_back(old(store)@, final(store)@),
{
    proof {
        use_type_invariant(&*store);
        law_check_never_back(store@, password, answer_view(answer), conf.dry_run);
    }
    let response = match answer {
        Err(e) => {
            return Checked::Done(Err(e));
        },
        Ok(response) => response,
    };
    if !response.success {
        return Checked::Done(Err(Error::with_kind(ErrorKind::RemoteCallFailed, LIST_REFUSED)));
    }
    match comments(response.text.as_str()) {
        Err(e) => Checked::Done(Err(e)),
        Ok(list) => poll(store, conf, password, &list),
    }
}

/// Takes the result of sending the notice that `check_issue` asked for.
/// Only a delivered notice moves the watermark of the issue of `password`
/// on to `watermark`; a failed one leaves the table as it is, so that the
/// next run finds the same comments again.
pub fn delivered(
    store: &mut Store,
    conf: &Configuration,
    password: Token,
    watermark: String,
    delivery: Result<(), Error>,
) -> (r: Result<bool, Error>)
    ensures
        distinct(old(store)@),
        distinct(final(store)@),
        polled_view(r) == delivered_result(
            old(store)@,
            password,
            watermark@,
            delivery_view(delivery),
        ),
        final(store)@ == delivered_rows(
            old(store)@,
            password,
            watermark@,
            delivery_view(delivery),
            conf.dry_run,
        ),
        never_back(old(store)@, final(store)@),
{
    proof {
        use_type_invariant(&*store);
        law_delivery_never_back(
            store@,
            password,
            watermark@,
            delivery_view(delivery),
            conf.dry_run,
        );
    }
    let (id, ahead) = match store.find_by_token(password) {
        None => {
            return match delivery {
                Err(e) => Err(e),
                Ok(_) => Err(Error::with_kind(ErrorKind::NotFound, ISSUE_NOT_FOUND)),
            };
        },
        Some(issue) => (issue.id, is_before(issue.watermark.as_str(), watermark.as_str())),
    };
    match delivery {
        Err(e) => Err(e),
        Ok(_) => {
            if ahead && !conf.dry_run {
                let rows = store.set_watermark(id, watermark);
                proof {
                    lemma_found_id(old(store)@, password);
                    assert(rows == 1);
                }
            }
            Ok(ahead)
        },
    }
}

/// Sums a run up: how many issues moved on, how many failed, and the run's
/// status, which is the first failure where any issue failed.
pub fn check(outcomes: &Vec<Result<bool, Error>>) -> (r: (Summary, Result<(), Error>))
    ensures
        r.0.updates == updates(polled_views(outcomes@)),
        r.0.errors == failures(polled_views(outcomes@)),
        delivery_view(r.1) == status(polled_views(outcomes@)),
{
    let ghost all = polled_views(outcomes@);
    let mut summary = Summary { updates: 0, errors: 0 };
    let mut first: Result<(), Error> = Ok(());
    let mut i: usize = 0;
    while i < outcomes.len()
        invariant
            i <= outcomes@.len(),
            all == polled_views(outcomes@),
            summary.updates == updates(all.take(i as int)),
            summary.errors == failures(all.take(i as int)),
            summary.updates + summary.errors <= i,
            delivery_view(first) == status(all.take(i as int)),
        decreases outcomes@.len() - i,
    {
        proof {
            assert(all.take(i + 1).drop_last() =~= all.take(i as int));
            assert(all.take(i + 1).last() == polled_view(outcomes@[i as int]));
        }
        match &outcomes[i] {
            Ok(true) => {
                summary.updates = summary.updates + 1;
            },
            Ok(false) => {},
            Err(e) => {
                summary.errors = summary.errors + 1;
                if first.is_ok() {
                    first = Err(e.clone());
                }
            },
        }
        i = i + 1;
    }
    proof {
        assert(all.take(outcomes@.len() as int) =~= all);
    }
    (summary, first)
}

} // verus!
