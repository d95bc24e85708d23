//! What the bot asks of the remote tracker, and how it reads the answers.
//!
//! The transport is not here: a caller performs a `Request` and brings the
//! `Response` back.

use vstd::prelude::*;
use vstd::string::*;
use crate::error::{Error, ErrorKind, ErrorView};
use crate::json::{json_document, json_integer, json_items, json_member, json_string, member, parse};

verus! {

/// What the tracker is asked to do.
#[derive(Debug)]
pub enum Request {
    /// File an issue.
    CreateIssue { title: String, body: String },
    /// Post a comment on the issue with the number `id`.
    PostComment { id: i64, body: String },
    /// Close the issue with the number `id`.
    CloseIssue { id: i64 },
    /// List the comments on the issue with the number `id` made at or after
    /// `since`.
    ListComments { id: i64, since: String },
}

/// A request as a mathematical value.
pub enum RequestView {
    CreateIssue { title: Seq<char>, body: Seq<char> },
    PostComment { id: i64, body: Seq<char> },
    CloseIssue { id: i64 },
    ListComments { id: i64, since: Seq<char> },
}

impl View for Request {
    type V = RequestView;

    open spec fn view(&self) -> RequestView {
        match self {
            Request::CreateIssue { title, body } => RequestView::CreateIssue {
                title: title@,
                body: body@,
            },
            Request::PostComment { id, body } => RequestView::PostComment { id: *id, body: body@ },
            Request::CloseIssue { id } => RequestView::CloseIssue { id: *id },
            Request::ListComments { id, since } => RequestView::ListComments {
                id: *id,
                since: since@,
            },
        }
    }
}

/// What the tracker answered: whether its status reports success, and the
/// body of the answer. An answer with a failure status is a failed call,
/// whatever its body holds.
#[derive(Debug)]
pub struct Response {
    pub success: bool,
    pub text: String,
}

/// An answer as a mathematical value.
pub struct ResponseView {
    pub success: bool,
    pub text: Seq<char>,
}

impl View for Response {
    type V = ResponseView;

    open spec fn view(&self) -> ResponseView {
        ResponseView { success: self.success, text: self.text@ }
    }
}

/// What a request came to, as a mathematical value: the tracker's answer, or
/// the failure to get one.
pub open spec fn answer_view(answer: Result<Response, Error>) -> Result<ResponseView, ErrorView> {
    match answer {
        Ok(response) => Ok(response@),
        Err(e) => Err(e@),
    }
}

/// A comment on an issue, as the tracker lists it.
#[derive(Debug)]
pub struct Comment {
    /// When the comment was made.
    pub created_at: String,
    /// The login of its author.
    pub login: String,
    /// What it says.
    pub body: String,
}

/// A comment as a mathematical value.
pub struct CommentView {
    pub created_at: Seq<char>,
    pub login: Seq<char>,
    pub body: Seq<char>,
}

impl View for Comment {
    type V = CommentView;

    open spec fn view(&self) -> CommentView {
        CommentView { created_at: self.created_at@, login: self.login@, body: self.body@ }
    }
}

/// The views of `comments`, in order.
pub open spec fn comment_views(comments: Seq<Comment>) -> Seq<CommentView> {
    Seq::new(comments.len(), |i: int| comments[i]@)
}

/// The description of an answer that lacks what the bot relies on.
pub const API_MISMATCH: &'static str =
    "Gitea API response or API version not matching what was expected.";

/// The text of the member `key` of `v`, where there is such a member and it
/// is a string.
pub open spec fn string_member(v: serde_json::Value, key: Seq<char>) -> Option<Seq<char>> {
    match json_member(v, key) {
        Some(m) => json_string(m),
        None => None,
    }
}

/// The number of the member `key` of `v`, where there is such a member and
/// it is an integer in `i64`.
pub open spec fn integer_member(v: serde_json::Value, key: Seq<char>) -> Option<i64> {
    match json_member(v, key) {
        Some(m) => json_integer(m),
        None => None,
    }
}

/// The number and the creation time of the issue that the answer `text`
/// reports as filed; `None` where the answer is no JSON or lacks one of them.
pub open spec fn created_of(text: Seq<char>) -> Option<(i64, Seq<char>)> {
    match json_document(text) {
        Some(v) => match (integer_member(v, "number"@), string_member(v, "created_at"@)) {
            (Some(number), Some(created_at)) => Some((number, created_at)),
            _ => None,
        },
        None => None,
    }
}

/// The state of the issue that the answer `text` reports; `None` where the
/// answer is no JSON or has no such string.
pub open spec fn state_of(text: Seq<char>) -> Option<Seq<char>> {
    match json_document(text) {
        Some(v) => string_member(v, "state"@),
        None => None,
    }
}

/// The comment that the JSON value `v` describes; `None` where it lacks the
/// time, the author's login or the body.
pub open spec fn comment_of(v: serde_json::Value) -> Option<CommentView> {
    match (string_member(v, "created_at"@), json_member(v, "user"@), string_member(v, "body"@)) {
        (Some(created_at), Some(user), Some(body)) => match string_member(user, "login"@) {
            Some(login) => Some(CommentView { created_at, login, body }),
            None => None,
        },
        _ => None,
    }
}

/// The comments that the JSON values `items` describe; `None` where one of
/// them describes none.
pub open spec fn comments_from(items: Seq<serde_json::Value>) -> Option<Seq<CommentView>> {
    if forall|i: int| 0 <= i < items.len() ==> (#[trigger] comment_of(items[i])) is Some {
        Some(Seq::new(items.len(), |i: int| comment_of(items[i])->0))
    } else {
        None
    }
}

/// The comments that the answer `text` lists, in its order; `None` where the
/// answer is no JSON array or one of its elements lacks a field.
pub open spec fn comments_of(text: Seq<char>) -> Option<Seq<CommentView>> {
    match json_document(text) {
        Some(v) => match json_items(v) {
            Some(items) => comments_from(items),
            None => None,
        },
        None => None,
    }
}

/// The failure that an answer without the expected fields is reported as.
pub open spec fn is_mismatch(e: Error) -> bool {
    e@ == mismatch_view()
}

/// The failure that an answer without the expected fields is reported as.
pub open spec fn mismatch_view() -> ErrorView {
    ErrorView { kind: ErrorKind::MalformedRemoteResponse, message: API_MISMATCH@ }
}

fn mismatch() -> (e: Error)
    ensures
        is_mismatch(e),
{
    Error::with_kind(ErrorKind::MalformedRemoteResponse, API_MISMATCH)
}

fn string_at(v: &serde_json::Value, key: &str) -> (r: Option<String>)
    ensures
        match r {
            Some(s) => string_member(*v, key@) == Some(s@),
            None => string_member(*v, key@) is None,
        },
{
    match member(v, key) {
        Some(m) => match m.as_str() {
            Some(s) => Some(String::from_str(s)),
            None => None,
        },
        None => None,
    }
}

fn integer_at(v: &serde_json::Value, key: &str) -> (r: Option<i64>)
    ensures
        r == integer_member(*v, key@),
{
    match member(v, key) {
        Some(m) => m.as_i64(),
        None => None,
    }
}

/// Reads the answer to a request to file an issue: the issue's number and
/// creation time.
pub fn created(text: &str) -> (r: Result<(i64, String), Error>)
    ensures
        match r {
            Ok((number, created_at)) => created_of(text@) == Some((number, created_at@)),
            Err(e) => created_of(text@) is None && is_mismatch(e),
        },
{
    match parse(text) {
        Some(v) => {
            let number = integer_at(&v, "number");
            let created_at = string_at(&v, "created_at");
            match (number, created_at) {
                (Some(number), Some(created_at)) => Ok((number, created_at)),
                _ => Err(mismatch()),
            }
        },
        None => Err(mismatch()),
    }
}

/// Reads the answer to a request to close an issue: the state the issue is
/// in.
pub fn state(text: &str) -> (r: Result<String, Error>)
    ensures
        match r {
            Ok(s) => state_of(text@) == Some(s@),
            Err(e) => state_of(text@) is None && is_mismatch(e),
        },
{
    match parse(text) {
        Some(v) => match string_at(&v, "state") {
            Some(s) => Ok(s),
            None => Err(mismatch()),
        },
        None => Err(mismatch()),
    }
}

fn comment(v: &serde_json::Value) -> (r: Option<Comment>)
    ensures
        match r {
            Some(c) => comment_of(*v) == Some(c@),
            None => comment_of(*v) is None,
        },
{
    let created_at = string_at(v, "created_at");
    let user = member(v, "user");
    let body = string_at(v, "body");
    match (created_at, user, body) {
        (Some(created_at), Some(user), Some(body)) => match string_at(user, "login") {
            Some(login) => Some(Comment { created_at, login, body }),
            None => None,
        },
        _ => None,
    }
}

/// Reads the answer to a request to list comments: the comments, in the
/// order of the answer. An answer in which any comment lacks a field is
/// refused as a whole.
pub fn comments(text: &str) -> (r: Result<Vec<Comment>, Error>)
    ensures
        match r {
            Ok(list) => comments_of(text@) == Some(comment_views(list@)),
            Err(e) => comments_of(text@) is None && is_mismatch(e),
        },
{
    let document = parse(text);
    let items = match &document {
        Some(v) => match v.as_array() {
            Some(items) => items,
            None => {
                return Err(mismatch());
            },
        },
        None => {
            return Err(mismatch());
        },
    };
    let mut list: Vec<Comment> = Vec::new();
    let mut i: usize = 0;
    while i < items.len()
        invariant
            comments_of(text@) == comments_from(items@),
            i <= items@.len(),
            list@.len() == i,
            forall|k: int| 0 <= k < i ==> comment_of(items@[k]) == Some(#[trigger] list@[k]@),
        decreases items@.len() - i,
    {
        match comment(&items[i]) {
            Some(c) => {
                list.push(c);
            },
            None => {
                assert(comment_of(items@[i as int]) is None);
                return Err(mismatch());
            },
        }
        i = i + 1;
    }
    proof {
        assert forall|k: int| 0 <= k < items@.len() implies (#[trigger] comment_of(
            items@[k],
        )) is Some by {
            assert(comment_of(items@[k]) == Some(list@[k]@));
        }
        assert(comments_from(items@)->0 =~= comment_views(list@));
    }
    Ok(list)
}

} // verus!
