//! The actions that a message can ask for: filing an issue, replying to one,
//! closing one, and changing a subscription.
//!
//! Replying, closing and filing need the tracker. Each of them comes in two
//! parts: one that says what to ask of the tracker, and one that takes the
//! tracker's answer and says what the action came to.

use vstd::prelude::*;
use vstd::string::*;
use crate::error::{Error, ErrorKind, ErrorView};
use crate::issue::{Issue, IssueView};
use crate::store::{
    distinct,
    found,
    has_id,
    has_token,
    lemma_found,
    lemma_found_row,
    lemma_push_forward,
    lemma_with_subscribed,
    lemma_with_subscribed_forward,
    law_never_back_reflexive,
    never_back,
    subscribed_as,
    with_subscribed,
    Store,
};
use crate::token::{version_4, Token};
use crate::tracker::{
    answer_view,
    created,
    created_of,
    mismatch_view,
    state,
    state_of,
    Request,
    RequestView,
    Response,
    ResponseView,
};

verus! {

/// The name that stands in for a submitter who is not to be named.
pub const ANONYMOUS: &'static str = "Anonymous";

/// What follows the author's name in the body of a new issue.
pub const REPORTS: &'static str = " reports:\n\n";

/// What follows the author's name in the body of a comment.
pub const REPLIES: &'static str = " replies:\n\n";

/// The description of a reply or a closing on a token that no issue carries.
pub const NOT_FOUND: &'static str = "Not found";

/// The description of a subscription change or a poll on a token that no issue
/// carries.
pub const ISSUE_NOT_FOUND: &'static str = "Issue not found";

/// The description of a comment that the tracker did not accept.
pub const REPLY_REFUSED: &'static str =
    "You can not reply to this issue due to an internal error.";

/// The description of a filing that the tracker answered with a failure
/// status.
pub const CREATE_REFUSED: &'static str = "Issue cannot be created due to an internal error.";

/// The description of a closing that the tracker answered with a failure
/// status or that left the issue in another state.
pub const CLOSE_REFUSED: &'static str = "Issue cannot be closed due to an internal error.";

/// How the description of an unsubscription from an unsubscribed issue begins.
pub const NOT_SUBSCRIBED: &'static str = "You are not subscribed to issue `";

/// How the description of a subscription to a subscribed issue begins.
pub const ALREADY_SUBSCRIBED: &'static str = "You are already subscribed to issue `";

/// The description of an issue that cannot be stored.
pub const STORED_ALREADY: &'static str = "An issue with this number or token is stored already.";

/// The state that the tracker reports of a closed issue.
pub const CLOSED: &'static str = "closed";

/// What an action on an issue came to: on success the issue's title, its
/// number and whether its submitter was subscribed when the action began.
pub open spec fn outcome_view(r: Result<(String, i64, bool), Error>) -> Result<
    (Seq<char>, i64, bool),
    ErrorView,
> {
    match r {
        Ok((title, id, subscribed)) => Ok((title@, id, subscribed)),
        Err(e) => Err(e@),
    }
}

/// A request or the failure to make one, as a mathematical value.
pub open spec fn request_view(r: Result<Request, Error>) -> Result<RequestView, ErrorView> {
    match r {
        Ok(request) => Ok(request@),
        Err(e) => Err(e@),
    }
}

/// The name that the tracker is given for the author of a text.
pub open spec fn author_text(anonymous: bool, submitter: Seq<char>) -> Seq<char> {
    if anonymous {
        ANONYMOUS@
    } else {
        submitter
    }
}

/// The failure of an action on a token that no issue carries.
pub open spec fn not_found() -> ErrorView {
    ErrorView { kind: ErrorKind::NotFound, message: NOT_FOUND@ }
}

/// The failure of a subscription change or a poll on a token that no issue
/// carries.
pub open spec fn unknown_issue() -> ErrorView {
    ErrorView { kind: ErrorKind::NotFound, message: ISSUE_NOT_FOUND@ }
}

/// The failure to store an issue whose token or number is taken.
pub open spec fn stored_already() -> ErrorView {
    ErrorView { kind: ErrorKind::Other, message: STORED_ALREADY@ }
}

/// The request that files an issue.
pub open spec fn issue_request(
    title: Seq<char>,
    body: Seq<char>,
    anonymous: bool,
    submitter: Seq<char>,
) -> RequestView {
    RequestView::CreateIssue { title, body: author_text(anonymous, submitter) + REPORTS@ + body }
}

/// The failure of a call that the tracker answered with a failure status,
/// described by `message`.
pub open spec fn refused(message: Seq<char>) -> ErrorView {
    ErrorView { kind: ErrorKind::RemoteCallFailed, message }
}

/// The number of the issue that the tracker reports as filed, or why there
/// is none: the call failed, the answer has a failure status, or its body
/// does not name the issue.
pub open spec fn filed(answer: Result<ResponseView, ErrorView>) -> Result<i64, ErrorView> {
    match answer {
        Err(e) => Err(e),
        Ok(response) => if !response.success {
            Err(refused(CREATE_REFUSED@))
        } else {
            match created_of(response.text) {
                None => Err(mismatch_view()),
                Some((number, _)) => Ok(number),
            }
        },
    }
}

/// The row that a newly filed issue is stored as: subscribed, with an empty
/// watermark.
pub open spec fn new_row(
    id: i64,
    title: Seq<char>,
    anonymous: bool,
    submitter: Seq<char>,
    token: Token,
    created_at: Seq<char>,
) -> IssueView {
    IssueView {
        id,
        submitter,
        token,
        created_at,
        anonymous,
        subscribed: true,
        title,
        watermark: Seq::empty(),
    }
}

/// Whether a new issue with `id` and `token` can be stored.
pub open spec fn storable(rows: Seq<IssueView>, id: i64, token: Token) -> bool {
    !has_token(rows, token) && !has_id(rows, id)
}

/// What storing a new issue comes to.
pub open spec fn record_result(rows: Seq<IssueView>, id: i64, token: Token) -> Result<
    (Token, i64),
    ErrorView,
> {
    if storable(rows, id, token) {
        Ok((token, id))
    } else {
        Err(stored_already())
    }
}

/// `result` is what storing a new issue with the number `id` comes to for
/// some token that may be drawn: the issue is stored under that token,
/// unless the table holds the token or the number.
pub open spec fn drawn(result: Result<(Token, i64), ErrorView>, rows: Seq<IssueView>, id: i64) -> bool {
    exists|token: Token|
        version_4(token.value) && result == #[trigger] record_result(rows, id, token)
}

/// A stored token and number or a failure, as a mathematical value.
pub open spec fn record_view(r: Result<(Token, i64), Error>) -> Result<(Token, i64), ErrorView> {
    match r {
        Ok(pair) => Ok(pair),
        Err(e) => Err(e@),
    }
}

/// The request that posts `body` as a comment, or why there is none.
pub open spec fn reply_request(
    rows: Seq<IssueView>,
    token: Token,
    body: Seq<char>,
    submitter: Seq<char>,
) -> Result<RequestView, ErrorView> {
    match found(rows, token) {
        None => Err(not_found()),
        Some(row) => Ok(
            RequestView::PostComment {
                id: row.id,
                body: author_text(row.anonymous, submitter) + REPLIES@ + body,
            },
        ),
    }
}

/// What posting a comment came to, given the tracker's answer.
pub open spec fn reply_result(
    rows: Seq<IssueView>,
    token: Token,
    answer: Result<ResponseView, ErrorView>,
) -> Result<(Seq<char>, i64, bool), ErrorView> {
    match found(rows, token) {
        None => Err(not_found()),
        Some(row) => match answer {
            Err(e) => Err(e),
            Ok(response) => if response.success {
                Ok((row.title, row.id, row.subscribed))
            } else {
                Err(refused(REPLY_REFUSED@))
            },
        },
    }
}

/// The request that closes the issue of `token`, or why there is none.
pub open spec fn closing_request(rows: Seq<IssueView>, token: Token) -> Result<
    RequestView,
    ErrorView,
> {
    match found(rows, token) {
        None => Err(not_found()),
        Some(row) => Ok(RequestView::CloseIssue { id: row.id }),
    }
}

/// What closing an issue came to, given the tracker's answer: the issue is
/// closed where the answer has a success status and its body reports the
/// state `closed`.
pub open spec fn close_result(
    rows: Seq<IssueView>,
    token: Token,
    answer: Result<ResponseView, ErrorView>,
) -> Result<(Seq<char>, i64, bool), ErrorView> {
    match found(rows, token) {
        None => Err(not_found()),
        Some(row) => match answer {
            Err(e) => Err(e),
            Ok(response) => if !response.success {
                Err(refused(CLOSE_REFUSED@))
            } else {
                match state_of(response.text) {
                    None => Err(mismatch_view()),
                    Some(s) => if s == CLOSED@ {
                        Ok((row.title, row.id, row.subscribed))
                    } else {
                        Err(refused(CLOSE_REFUSED@))
                    },
                }
            },
        },
    }
}

/// What a change of subscription to `new_val` comes to.
pub open spec fn subscription_result(rows: Seq<IssueView>, token: Token, new_val: bool) -> Result<
    (Seq<char>, i64, bool),
    ErrorView,
> {
    match found(rows, token) {
        None => Err(unknown_issue()),
        Some(row) => if row.subscribed == new_val {
            Err(
                ErrorView {
                    kind: ErrorKind::AlreadyInState,
                    message: (if new_val {
                        ALREADY_SUBSCRIBED@
                    } else {
                        NOT_SUBSCRIBED@
                    }) + row.title + "`"@,
                },
            )
        } else {
            Ok((row.title, row.id, row.subscribed))
        },
    }
}

/// The table after a change of subscription to `new_val` was asked for.
pub open spec fn subscription_rows(rows: Seq<IssueView>, token: Token, new_val: bool) -> Seq<
    IssueView,
> {
    if subscription_result(rows, token, new_val) is Ok {
        with_subscribed(rows, token, new_val)
    } else {
        rows
    }
}

/// An action on a token that no issue carries comes to `NotFound`, whatever
/// the action and whatever the tracker would answer.
pub proof fn law_unknown_token(
    rows: Seq<IssueView>,
    token: Token,
    body: Seq<char>,
    submitter: Seq<char>,
    answer: Result<ResponseView, ErrorView>,
    new_val: bool,
)
    requires
        !has_token(rows, token),
    ensures
        reply_request(rows, token, body, submitter) == Err::<RequestView, ErrorView>(not_found()),
        reply_result(rows, token, answer) == Err::<(Seq<char>, i64, bool), ErrorView>(not_found()),
        closing_request(rows, token) == Err::<RequestView, ErrorView>(not_found()),
        close_result(rows, token, answer) == Err::<(Seq<char>, i64, bool), ErrorView>(not_found()),
        subscription_result(rows, token, new_val) == Err::<(Seq<char>, i64, bool), ErrorView>(
            unknown_issue(),
        ),
        subscription_rows(rows, token, new_val) == rows,
        not_found().kind == ErrorKind::NotFound,
        unknown_issue().kind == ErrorKind::NotFound,
{
    lemma_found(rows, token);
}

/// Asking for the subscription state that an issue is in already is refused
/// as `AlreadyInState`, and the table stays as it is.
pub proof fn law_same_state_refused(rows: Seq<IssueView>, token: Token, new_val: bool)
    requires
        found(rows, token) matches Some(row) && row.subscribed == new_val,
    ensures
        subscription_result(rows, token, new_val) matches Err(e) && e.kind
            == ErrorKind::AlreadyInState,
        subscription_rows(rows, token, new_val) == rows,
{
}

/// A change of subscription that is granted sets the flag of the issue and
/// nothing else.
pub proof fn law_subscription_changed(rows: Seq<IssueView>, token: Token, new_val: bool)
    requires
        distinct(rows),
        found(rows, token) matches Some(row) && row.subscribed != new_val,
    ensures
        subscription_result(rows, token, new_val) is Ok,
        found(subscription_rows(rows, token, new_val), token) == Some(
            subscribed_as(found(rows, token)->0, new_val),
        ),
        forall|i: int|
            0 <= i < rows.len() && (#[trigger] rows[i]).token != token ==> subscription_rows(
                rows,
                token,
                new_val,
            )[i] == rows[i],
{
    let row = found(rows, token)->0;
    lemma_found(rows, token);
    let i = choose|i: int| 0 <= i < rows.len() && rows[i] == row;
    lemma_with_subscribed(rows, i, new_val);
    let after = with_subscribed(rows, token, new_val);
    lemma_found_row(after, i);
}

/// After an issue is stored, exactly one row carries a token that the table
/// did not hold before: the new row, which stands last.
pub proof fn law_created_once(
    rows: Seq<IssueView>,
    id: i64,
    title: Seq<char>,
    anonymous: bool,
    submitter: Seq<char>,
    token: Token,
    created_at: Seq<char>,
)
    requires
        distinct(rows),
        storable(rows, id, token),
    ensures
        ({
            let after = rows.push(new_row(id, title, anonymous, submitter, token, created_at));
            &&& distinct(after)
            &&& found(after, token) == Some(
                new_row(id, title, anonymous, submitter, token, created_at),
            )
            &&& forall|i: int|
                0 <= i < after.len() ==> (!has_token(rows, (#[trigger] after[i]).token) <==> i
                    == rows.len())
        }),
{
    let row = new_row(id, title, anonymous, submitter, token, created_at);
    let after = rows.push(row);
    assert forall|a: int, b: int| 0 <= a < b < after.len() implies after[a].token != after[b].token
        && after[a].id != after[b].id by {
        if b < rows.len() {
            assert(rows[a].token != rows[b].token && rows[a].id != rows[b].id);
        } else {
            assert(rows[a].token != token || !has_token(rows, token));
            assert(rows[a].id != id || !has_id(rows, id));
        }
    }
    lemma_found_row(after, rows.len() as int);
    assert forall|i: int| 0 <= i < after.len() implies (!has_token(rows, (#[trigger] after[i]).token)
        <==> i == rows.len()) by {
        if i < rows.len() {
            assert(rows[i].token == after[i].token);
        }
    }
}

fn author(anonymous: bool, submitter: &str) -> (r: String)
    ensures
        r@ == author_text(anonymous, submitter@),
{
    if anonymous {
        String::from_str(ANONYMOUS)
    } else {
        String::from_str(submitter)
    }
}

fn missing() -> (e: Error)
    ensures
        e@ == not_found(),
{
    Error::with_kind(ErrorKind::NotFound, NOT_FOUND)
}

/// `chrono::Local::now`, written by `to_rfc3339_opts` with milliseconds and
/// `Z` for UTC. The result is the time of the call, so nothing is claimed of
/// it.
#[verifier::external_body]
fn local_time() -> (r: String) {
    chrono::Local::now().to_rfc3339_opts(chrono::SecondsFormat::Millis, true)
}

/// What to ask of the tracker to file an issue: the body names the submitter,
/// or `Anonymous` in place of them.
pub fn new_issue_request(title: &str, body: &str, anonymous: bool, submitter: &str) -> (r:
    Request)
    ensures
        r@ == issue_request(title@, body@, anonymous, submitter@),
{
    let mut text = author(anonymous, submitter);
    text.append(REPORTS);
    text.append(body);
    Request::CreateIssue { title: String::from_str(title), body: text }
}

/// Stores a newly filed issue under `token`, subscribed and with an empty
/// watermark. Where the table holds the token or the number already, nothing
/// is stored.
pub fn record_issue(
    store: &mut Store,
    id: i64,
    title: String,
    anonymous: bool,
    submitter: String,
    token: Token,
    created_at: String,
) -> (r: Result<(Token, i64), Error>)
    ensures
        distinct(old(store)@),
        distinct(final(store)@),
        record_view(r) == record_result(old(store)@, id, token),
        final(store)@ == if storable(old(store)@, id, token) {
            old(store)@.push(new_row(id, title@, anonymous, submitter@, token, created_at@))
        } else {
            old(store)@
        },
        never_back(old(store)@, final(store)@),
{
    proof {
        law_never_back_reflexive(store@);
        lemma_push_forward(
            store@,
            new_row(id, title@, anonymous, submitter@, token, created_at@),
        );
    }
    let issue = Issue {
        id,
        submitter,
        token,
        created_at,
        anonymous,
        subscribed: true,
        title,
        watermark: String::new(),
    };
    if store.insert(issue) {
        Ok((token, id))
    } else {
        Err(Error::with_kind(ErrorKind::Other, STORED_ALREADY))
    }
}

/// Takes the tracker's answer to a request to file an issue. Where the answer
/// has a success status and names the new issue, draws a token for it and stores it with the time of
/// the call; the result is the token and the issue's number. The issue is
/// stored unless the table holds its number or the token drawn.
pub fn new_issue(
    store: &mut Store,
    title: String,
    anonymous: bool,
    submitter: String,
    answer: Result<Response, Error>,
) -> (r: Result<(Token, i64), Error>)
    ensures
        distinct(old(store)@),
        distinct(final(store)@),
        match filed(answer_view(answer)) {
            Err(e) => record_view(r) == Err::<(Token, i64), ErrorView>(e) && final(store)@ == old(
                store,
            )@,
            Ok(id) => match r {
                Ok((token, number)) => {
                    &&& number == id
                    &&& storable(old(store)@, id, token)
                    &&& final(store)@ == old(store)@.push(
                        new_row(
                            id,
                            title@,
                            anonymous,
                            submitter@,
                            token,
                            final(store)@.last().created_at,
                        ),
                    )
                },
                Err(e) => {
                    &&& e@ == stored_already()
                    &&& final(store)@ == old(store)@
                    &&& old(store)@.len() > 0
                },
            },
        },
        filed(answer_view(answer)) matches Ok(id) ==> drawn(record_view(r), old(store)@, id),
        never_back(old(store)@, final(store)@),
{
    proof {
        use_type_invariant(&*store);
        law_never_back_reflexive(store@);
    }
    let response = match answer {
        Ok(response) => response,
        Err(e) => {
            return Err(e);
        },
    };
    if !response.success {
        return Err(Error::with_kind(ErrorKind::RemoteCallFailed, CREATE_REFUSED));
    }
    let id = match created(response.text.as_str()) {
        Ok((number, _)) => number,
        Err(e) => {
            return Err(e);
        },
    };
    let token = Token::fresh();
    let created_at = local_time();
    let r = record_issue(store, id, title, anonymous, submitter, token, created_at);
    proof {
        if r is Err {
            assert(!storable(old(store)@, id, token));
        }
        assert(version_4(token.value) && record_view(r) == record_result(old(store)@, id, token));
        assert(drawn(record_view(r), old(store)@, id));
    }
    r
}

/// What to ask of the tracker to post `body` as a comment on the issue of
/// `password`: the body names `submitter`, or `Anonymous` where the issue was
/// filed anonymously.
pub fn new_reply_request(store: &Store, password: Token, body: &str, submitter: &str) -> (r:
    Result<Request, Error>)
    ensures
        request_view(r) == reply_request(store@, password, body@, submitter@),
{
    match store.find_by_token(password) {
        None => Err(missing()),
        Some(issue) => {
            let mut text = author(issue.anonymous, submitter);
            text.append(REPLIES);
            text.append(body);
            Ok(Request::PostComment { id: issue.id, body: text })
        },
    }
}

/// Takes the tracker's answer to a request to post a comment on the issue of
/// `password`.
pub fn new_reply(store: &Store, password: Token, answer: Result<Response, Error>) -> (r: Result<
    (String, i64, bool),
    Error,
>)
    ensures
        outcome_view(r) == reply_result(store@, password, answer_view(answer)),
{
    match store.find_by_token(password) {
        None => Err(missing()),
        Some(issue) => match answer {
            Err(e) => Err(e),
            Ok(response) => if response.success {
                Ok((issue.title.clone(), issue.id, issue.subscribed))
            } else {
                Err(Error::with_kind(ErrorKind::RemoteCallFailed, REPLY_REFUSED))
            },
        },
    }
}

/// What to ask of the tracker to close the issue of `password`.
pub fn close_request(store: &Store, password: Token) -> (r: Result<Request, Error>)
    ensures
        request_view(r) == closing_request(store@, password),
{
    match store.find_by_token(password) {
        None => Err(missing()),
        Some(issue) => Ok(Request::CloseIssue { id: issue.id }),
    }
}

/// Takes the tracker's answer to a request to close the issue of `password`:
/// the issue counts as closed where the answer has a success status and
/// reports the state `closed`.
pub fn close(store: &Store, password: Token, answer: Result<Response, Error>) -> (r: Result<
    (String, i64, bool),
    Error,
>)
    ensures
        outcome_view(r) == close_result(store@, password, answer_view(answer)),
{
    match store.find_by_token(password) {
        None => Err(missing()),
        Some(issue) => match answer {
            Err(e) => Err(e),
            Ok(response) => if !response.success {
                Err(Error::with_kind(ErrorKind::RemoteCallFailed, CLOSE_REFUSED))
            } else {
                match state(response.text.as_str()) {
                    Err(e) => Err(e),
                    Ok(s) => if s == String::from_str(CLOSED) {
                        Ok((issue.title.clone(), issue.id, issue.subscribed))
                    } else {
                        Err(Error::with_kind(ErrorKind::RemoteCallFailed, CLOSE_REFUSED))
                    },
                }
            },
        },
    }
}

/// Subscribes the submitter of the issue of `password` to its comments, or
/// unsubscribes them. Asking for the state the issue is in already is
/// refused, and the table stays as it is.
pub fn change_subscription(store: &mut Store, password: Token, new_val: bool) -> (r: Result<
    (String, i64, bool),
    Error,
>)
    ensures
        distinct(old(store)@),
        distinct(final(store)@),
        outcome_view(r) == subscription_result(old(store)@, password, new_val),
        final(store)@ == subscription_rows(old(store)@, password, new_val),
        never_back(old(store)@, final(store)@),
{
    proof {
        law_never_back_reflexive(store@);
        lemma_with_subscribed_forward(store@, password, new_val);
    }
    let (title, id, subscribed) = match store.find_by_token(password) {
        None => {
            return Err(Error::with_kind(ErrorKind::NotFound, ISSUE_NOT_FOUND));
        },
        Some(issue) => (issue.title.clone(), issue.id, issue.subscribed),
    };
    if subscribed == new_val {
        let mut message = if new_val {
            String::from_str(ALREADY_SUBSCRIBED)
        } else {
            String::from_str(NOT_SUBSCRIBED)
        };
        message.append(title.as_str());
        message.append("`");
        return Err(Error { kind: ErrorKind::AlreadyInState, message });
    }
    let rows = store.set_subscribed(password, new_val);
    proof {
        lemma_found(old(store)@, password);
        assert(rows == 1);
    }
    Ok((title, id, subscribed))
}

} // verus!
