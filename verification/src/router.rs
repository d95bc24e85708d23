//! The command router: from one inbound message to the action it asks for and
//! the one reply it is owed.
//!
//! A message is handled in one step where the tracker is not needed, and in
//! two where it is: `run_request` says what to ask of the tracker, and
//! `finish_request` takes the tracker's answer. Either way exactly one reply
//! comes out.

use vstd::prelude::*;
use vstd::string::*;
use crate::api::{
    change_subscription,
    close,
    close_request,
    close_result,
    closing_request,
    filed,
    issue_request,
    new_issue,
    new_issue_request,
    new_reply,
    new_reply_request,
    new_row,
    not_found,
    outcome_view,
    record_result,
    record_view,
    reply_request,
    reply_result,
    storable,
    stored_already,
    subscription_result,
    subscription_rows,
    unknown_issue,
    ISSUE_NOT_FOUND,
    NOT_FOUND,
};
use crate::conf::Configuration;
use crate::error::{Error, ErrorKind, ErrorView};
use crate::issue::IssueView;
use crate::mail::{mail_view, titled, Mail, MailView};
use crate::store::{
    distinct,
    found,
    has_token,
    law_never_back_reflexive,
    lemma_found,
    lemma_with_subscribed_forward,
    never_back,
    Store,
};
use crate::templates::{
    change_subscription_error,
    change_subscription_error_text,
    change_subscription_failure,
    change_subscription_failure_text,
    change_subscription_success,
    change_subscription_success_text,
    close_failure,
    close_failure_text,
    close_success,
    close_success_text,
    invalid_request,
    invalid_request_text,
    new_issue_failure,
    new_issue_failure_text,
    new_issue_success,
    new_issue_success_text,
    new_reply_failure,
    new_reply_failure_text,
    new_reply_success,
    new_reply_success_text,
};
use crate::text::{same, views};
use crate::token::{token_of, version_4, Token};
use crate::tracker::{answer_view, Request, RequestView, Response};

verus! {

/// The tag that files an issue anonymously.
pub const ANONYMOUS_TAG: &'static str = "anonymous";

/// The word for posting a comment.
pub const REPLY: &'static str = "reply";

/// The word for leaving the discussion.
pub const UNSUBSCRIBE: &'static str = "unsubscribe";

/// The word for joining the discussion.
pub const SUBSCRIBE: &'static str = "subscribe";

/// The word for closing an issue.
pub const CLOSE: &'static str = "close";

/// How the subject of a reply to a new issue begins, behind the tag.
pub const ISSUE_HEAD: &'static str = "Issue `";

/// How the subject ends where the issue was filed.
pub const CREATED_TAIL: &'static str = "` successfully created";

/// How the subject ends where the issue was not filed.
pub const NOT_CREATED_TAIL: &'static str = "` could not be created";

/// How the subject begins where a comment was posted.
pub const REPLIED_HEAD: &'static str = "Your reply on issue `";

/// How the subject ends where a comment was posted.
pub const REPLIED_TAIL: &'static str = "` has been posted";

/// The subject where a comment was not posted.
pub const REPLY_FAILED: &'static str = "Your reply could not be created";

/// How the subject begins where an issue was closed.
pub const CLOSED_HEAD: &'static str = "issue `";

/// How the subject ends where an issue was closed.
pub const CLOSED_TAIL: &'static str = "` has been closed";

/// The subject where an issue was not closed.
pub const CLOSE_FAILED: &'static str = "issue could not be closed";

/// How the subject begins where a subscription was removed.
pub const UNSUBSCRIBED_HEAD: &'static str = "subscription removal to `";

/// How the subject begins where a subscription was added.
pub const SUBSCRIBED_HEAD: &'static str = "subscription to `";

/// How the subject ends where a subscription was changed.
pub const SUCCESSFUL_TAIL: &'static str = "` successful";

/// The subject where a subscription was not removed.
pub const UNSUBSCRIBE_FAILED: &'static str = "could not unsubscribe";

/// The subject where a subscription was not added.
pub const SUBSCRIBE_FAILED: &'static str = "could not subscribe";

/// The subject of the reply to a request that the bot does not know.
pub const INVALID: &'static str = "invalid request";

/// What the logic reads of an inbound message.
#[derive(Debug)]
pub struct Message {
    /// The address the message was sent to, without a display name.
    pub to: String,
    /// The sender, as it is to be named to the tracker and written to.
    pub from: String,
    /// The subject line.
    pub subject: String,
    /// The text of the body.
    pub body: String,
}

/// An action on an issue that exists already.
#[derive(Clone, Copy, Debug, PartialEq, Eq, Structural)]
pub enum Action {
    Reply,
    Unsubscribe,
    Subscribe,
    Close,
}

/// What a recipient address asks for.
#[derive(Clone, Copy, Debug)]
pub enum Command {
    /// File an issue, under the sender's name or anonymously.
    NewIssue { anonymous: bool },
    /// Act on the issue of a token. `token` is `None` where the address holds
    /// something in the token's place that spells none.
    Authenticated { token: Option<Token>, action: Action },
    /// Nothing the bot knows.
    Invalid,
}

/// What handling a message came to.
#[derive(Debug)]
pub enum Outcome {
    Created { token: Token, id: i64 },
    Replied { id: i64 },
    Closed { id: i64 },
    Subscription { token: Token, subscribed: bool },
    /// The action was refused or failed.
    Failed(Error),
    /// The message asked for nothing the bot knows.
    Invalid,
}

/// An outcome as a mathematical value.
pub enum OutcomeView {
    Created { token: Token, id: i64 },
    Replied { id: i64 },
    Closed { id: i64 },
    Subscription { token: Token, subscribed: bool },
    Failed(ErrorView),
    Invalid,
}

impl View for Outcome {
    type V = OutcomeView;

    open spec fn view(&self) -> OutcomeView {
        match self {
            Outcome::Created { token, id } => OutcomeView::Created { token: *token, id: *id },
            Outcome::Replied { id } => OutcomeView::Replied { id: *id },
            Outcome::Closed { id } => OutcomeView::Closed { id: *id },
            Outcome::Subscription { token, subscribed } => OutcomeView::Subscription {
                token: *token,
                subscribed: *subscribed,
            },
            Outcome::Failed(e) => OutcomeView::Failed(e@),
            Outcome::Invalid => OutcomeView::Invalid,
        }
    }
}

/// A handled message: what it came to, and the one reply to send.
#[derive(Debug)]
pub struct Handled {
    pub outcome: Outcome,
    pub reply: Mail,
}

/// A handled message as a mathematical value.
pub struct HandledView {
    pub outcome: OutcomeView,
    pub reply: MailView,
}

impl View for Handled {
    type V = HandledView;

    open spec fn view(&self) -> HandledView {
        HandledView { outcome: self.outcome@, reply: self.reply@ }
    }
}

/// What the router waits for while the tracker is asked.
#[derive(Debug)]
pub enum Pending {
    /// An issue is being filed.
    Create { title: String, anonymous: bool, submitter: String },
    /// A comment is being posted on the issue of `token`.
    Comment { token: Token, sender: String },
    /// The issue of `token` is being closed.
    Close { token: Token, sender: String },
}

/// A pending action as a mathematical value.
pub enum PendingView {
    Create { title: Seq<char>, anonymous: bool, submitter: Seq<char> },
    Comment { token: Token, sender: Seq<char> },
    Close { token: Token, sender: Seq<char> },
}

impl View for Pending {
    type V = PendingView;

    open spec fn view(&self) -> PendingView {
        match self {
            Pending::Create { title, anonymous, submitter } => PendingView::Create {
                title: title@,
                anonymous: *anonymous,
                submitter: submitter@,
            },
            Pending::Comment { token, sender } => PendingView::Comment {
                token: *token,
                sender: sender@,
            },
            Pending::Close { token, sender } => PendingView::Close {
                token: *token,
                sender: sender@,
            },
        }
    }
}

/// The first step on a message.
#[derive(Debug)]
pub enum Step {
    /// The message is handled: the tracker is not asked.
    Done(Handled),
    /// The tracker is to be asked once, and its answer handed to
    /// `finish_request` together with `pending`.
    Call { request: Request, pending: Pending },
}

/// A step as a mathematical value.
pub enum StepView {
    Done(HandledView),
    Call { request: RequestView, pending: PendingView },
}

impl View for Step {
    type V = StepView;

    open spec fn view(&self) -> StepView {
        match self {
            Step::Done(handled) => StepView::Done(handled@),
            Step::Call { request, pending } => StepView::Call {
                request: request@,
                pending: pending@,
            },
        }
    }
}

/// The part of `s` before the first `c`; all of `s` where `c` does not occur.
pub open spec fn until(s: Seq<char>, c: char) -> Seq<char>
    decreases s.len(),
{
    if s.len() == 0 || s[0] == c {
        Seq::empty()
    } else {
        seq![s[0]] + until(s.drop_first(), c)
    }
}

/// The pieces that `c` separates `s` into: one more than `c` occurs in `s`.
pub open spec fn pieces(s: Seq<char>, c: char) -> Seq<Seq<char>>
    decreases s.len(),
{
    let head = until(s, c);
    if head.len() >= s.len() {
        seq![head]
    } else {
        seq![head] + pieces(s.skip(head.len() as int + 1), c)
    }
}

/// The local part of `address`: what stands before the first `@`, and nothing
/// where there is no `@`.
pub open spec fn local_part(address: Seq<char>) -> Seq<char> {
    if address.contains('@') {
        until(address, '@')
    } else {
        Seq::empty()
    }
}

/// The tags of `address`: the pieces that `+` separates its local part into,
/// but for the first.
pub open spec fn tags_of(address: Seq<char>) -> Seq<Seq<char>> {
    pieces(local_part(address), '+').drop_first()
}

/// The action that `word` names.
pub open spec fn action_of(word: Seq<char>) -> Option<Action> {
    if word == REPLY@ {
        Some(Action::Reply)
    } else if word == UNSUBSCRIBE@ {
        Some(Action::Unsubscribe)
    } else if word == SUBSCRIBE@ {
        Some(Action::Subscribe)
    } else if word == CLOSE@ {
        Some(Action::Close)
    } else {
        None
    }
}

/// What an address with the tags `tags` asks for: no tag files an issue, the
/// tag `anonymous` files one anonymously, and two tags of which the second
/// names an action ask for that action on the issue of the first.
pub open spec fn command_of(tags: Seq<Seq<char>>) -> Command {
    if tags.len() == 0 {
        Command::NewIssue { anonymous: false }
    } else if tags.len() == 1 && tags[0] == ANONYMOUS_TAG@ {
        Command::NewIssue { anonymous: true }
    } else if tags.len() == 2 && action_of(tags[1]) is Some {
        Command::Authenticated { token: token_of(tags[0]), action: action_of(tags[1])->0 }
    } else {
        Command::Invalid
    }
}

/// The reply to a message that asks for nothing the bot knows.
pub open spec fn invalid_handled(sender: Seq<char>, conf: &Configuration) -> HandledView {
    HandledView {
        outcome: OutcomeView::Invalid,
        reply: mail_view(conf, sender, INVALID@, invalid_request_text(conf)),
    }
}

/// What filing an issue came to, and the reply.
pub open spec fn create_handled(
    title: Seq<char>,
    sender: Seq<char>,
    result: Result<(Token, i64), ErrorView>,
    conf: &Configuration,
) -> HandledView {
    match result {
        Ok((token, id)) => HandledView {
            outcome: OutcomeView::Created { token, id },
            reply: mail_view(
                conf,
                sender,
                titled(ISSUE_HEAD@, title, CREATED_TAIL@),
                new_issue_success_text(title, token, id, conf),
            ),
        },
        Err(e) => HandledView {
            outcome: OutcomeView::Failed(e),
            reply: mail_view(
                conf,
                sender,
                titled(ISSUE_HEAD@, title, NOT_CREATED_TAIL@),
                new_issue_failure_text(e.message, conf),
            ),
        },
    }
}

/// `handled` is what filing the issue with the number `id` comes to for some
/// token that may be drawn: the issue is stored under that token and the
/// reply carries it, unless the table holds the token or the number.
pub open spec fn filed_as(
    handled: HandledView,
    rows: Seq<IssueView>,
    title: Seq<char>,
    sender: Seq<char>,
    id: i64,
    conf: &Configuration,
) -> bool {
    exists|token: Token|
        version_4(token.value) && handled == create_handled(
            title,
            sender,
            #[trigger] record_result(rows, id, token),
            conf,
        )
}

/// The reply to a comment that could not be posted.
pub open spec fn reply_failed(sender: Seq<char>, e: ErrorView, conf: &Configuration) -> HandledView {
    HandledView {
        outcome: OutcomeView::Failed(e),
        reply: mail_view(conf, sender, REPLY_FAILED@, new_reply_failure_text(e.message, conf)),
    }
}

/// What posting a comment came to, and the reply.
pub open spec fn reply_handled(
    token: Token,
    sender: Seq<char>,
    result: Result<(Seq<char>, i64, bool), ErrorView>,
    conf: &Configuration,
) -> HandledView {
    match result {
        Ok((title, id, subscribed)) => HandledView {
            outcome: OutcomeView::Replied { id },
            reply: mail_view(
                conf,
                sender,
                titled(REPLIED_HEAD@, title, REPLIED_TAIL@),
                new_reply_success_text(title, token, id, subscribed, conf),
            ),
        },
        Err(e) => reply_failed(sender, e, conf),
    }
}

/// What closing an issue came to, and the reply.
pub open spec fn close_handled(
    sender: Seq<char>,
    result: Result<(Seq<char>, i64, bool), ErrorView>,
    conf: &Configuration,
) -> HandledView {
    match result {
        Ok((title, id, _)) => HandledView {
            outcome: OutcomeView::Closed { id },
            reply: mail_view(
                conf,
                sender,
                titled(CLOSED_HEAD@, title, CLOSED_TAIL@),
                close_success_text(title, id, conf),
            ),
        },
        Err(e) => HandledView {
            outcome: OutcomeView::Failed(e),
            reply: mail_view(conf, sender, CLOSE_FAILED@, close_failure_text(e.message, conf)),
        },
    }
}

/// What asking for the subscription state `new_val` came to, and the reply.
pub open spec fn subscription_handled(
    token: Token,
    new_val: bool,
    sender: Seq<char>,
    result: Result<(Seq<char>, i64, bool), ErrorView>,
    conf: &Configuration,
) -> HandledView {
    match result {
        Ok((title, id, _)) => HandledView {
            outcome: OutcomeView::Subscription { token, subscribed: new_val },
            reply: mail_view(
                conf,
                sender,
                titled(
                    if new_val {
                        SUBSCRIBED_HEAD@
                    } else {
                        UNSUBSCRIBED_HEAD@
                    },
                    title,
                    SUCCESSFUL_TAIL@,
                ),
                change_subscription_success_text(title, token, id, new_val, conf),
            ),
        },
        Err(e) => subscription_failed(new_val, sender, e, conf),
    }
}

/// The reply to a request for the subscription state `new_val` that failed
/// with `e`. Where the issue is in that state already the reply says so; any
/// other failure is answered with its description.
pub open spec fn subscription_failed(
    new_val: bool,
    sender: Seq<char>,
    e: ErrorView,
    conf: &Configuration,
) -> HandledView {
    HandledView {
        outcome: OutcomeView::Failed(e),
        reply: mail_view(
            conf,
            sender,
            if new_val {
                SUBSCRIBE_FAILED@
            } else {
                UNSUBSCRIBE_FAILED@
            },
            if e.kind == ErrorKind::AlreadyInState {
                change_subscription_failure_text(!new_val, conf)
            } else {
                change_subscription_error_text(e.message, conf)
            },
        ),
    }
}

/// The first step on `message`, given the table `rows`.
pub open spec fn routed(rows: Seq<IssueView>, message: &Message, conf: &Configuration) -> StepView {
    let sender = message.from@;
    match command_of(tags_of(message.to@)) {
        Command::Invalid => StepView::Done(invalid_handled(sender, conf)),
        Command::NewIssue { anonymous } => StepView::Call {
            request: issue_request(message.subject@, message.body@, anonymous, sender),
            pending: PendingView::Create { title: message.subject@, anonymous, submitter: sender },
        },
        Command::Authenticated { token: None, action } => StepView::Done(
            match action {
                Action::Reply => reply_failed(sender, not_found(), conf),
                Action::Close => close_handled(sender, Err(not_found()), conf),
                Action::Subscribe => subscription_failed(true, sender, unknown_issue(), conf),
                Action::Unsubscribe => subscription_failed(false, sender, unknown_issue(), conf),
            },
        ),
        Command::Authenticated { token: Some(token), action } => match action {
            Action::Reply => match reply_request(rows, token, message.body@, sender) {
                Ok(request) => StepView::Call {
                    request,
                    pending: PendingView::Comment { token, sender },
                },
                Err(e) => StepView::Done(reply_failed(sender, e, conf)),
            },
            Action::Close => match closing_request(rows, token) {
                Ok(request) => StepView::Call {
                    request,
                    pending: PendingView::Close { token, sender },
                },
                Err(e) => StepView::Done(close_handled(sender, Err(e), conf)),
            },
            Action::Subscribe => StepView::Done(
                subscription_handled(
                    token,
                    true,
                    sender,
                    subscription_result(rows, token, true),
                    conf,
                ),
            ),
            Action::Unsubscribe => StepView::Done(
                subscription_handled(
                    token,
                    false,
                    sender,
                    subscription_result(rows, token, false),
                    conf,
                ),
            ),
        },
    }
}

/// The table after the first step on a message sent to `to`: only a change
/// of subscription touches it.
pub open spec fn routed_rows(rows: Seq<IssueView>, to: Seq<char>) -> Seq<IssueView> {
    match command_of(tags_of(to)) {
        Command::Authenticated { token: Some(token), action: Action::Subscribe } => {
            subscription_rows(rows, token, true)
        },
        Command::Authenticated { token: Some(token), action: Action::Unsubscribe } => {
            subscription_rows(rows, token, false)
        },
        _ => rows,
    }
}

/// The first step on a message takes no watermark back.
pub proof fn law_route_never_back(rows: Seq<IssueView>, to: Seq<char>)
    ensures
        never_back(rows, routed_rows(rows, to)),
{
    law_never_back_reflexive(rows);
    match command_of(tags_of(to)) {
        Command::Authenticated { token: Some(token), action } => {
            lemma_with_subscribed_forward(rows, token, true);
            lemma_with_subscribed_forward(rows, token, false);
        },
        _ => {},
    }
}

/// A message that asks for an action on a token that no issue carries is
/// answered with `NotFound` at the first step: the tracker is not asked and
/// the table stays as it is. This holds too where the address holds
/// something in the token's place that spells no token.
pub proof fn law_unknown_token_not_found(
    rows: Seq<IssueView>,
    message: &Message,
    conf: &Configuration,
)
    requires
        command_of(tags_of(message.to@)) matches Command::Authenticated { token, .. } && (token
            matches Some(t) ==> !has_token(rows, t)),
    ensures
        routed(rows, message, conf) matches StepView::Done(handled) && handled.outcome
            matches OutcomeView::Failed(e) && e.kind == ErrorKind::NotFound,
        routed_rows(rows, message.to@) == rows,
{
    match command_of(tags_of(message.to@)) {
        Command::Authenticated { token: Some(token), action } => {
            lemma_found(rows, token);
        },
        _ => {},
    }
}

/// A message that asks to subscribe to an issue that is subscribed, or to
/// unsubscribe from one that is not, is answered with `AlreadyInState`, and
/// the table stays as it is.
pub proof fn law_same_state_rejected(
    rows: Seq<IssueView>,
    message: &Message,
    conf: &Configuration,
    token: Token,
    new_val: bool,
)
    requires
        command_of(tags_of(message.to@)) == (Command::Authenticated {
            token: Some(token),
            action: if new_val {
                Action::Subscribe
            } else {
                Action::Unsubscribe
            },
        }),
        found(rows, token) matches Some(row) && row.subscribed == new_val,
    ensures
        routed(rows, message, conf) matches StepView::Done(handled) && handled.outcome
            matches OutcomeView::Failed(e) && e.kind == ErrorKind::AlreadyInState,
        routed_rows(rows, message.to@) == rows,
{
}

/// `melib::Address::get_tags` with the separator `+`, on the address
/// `address` taken without a display name: the pieces that `+` separates the
/// local part into, but for the first.
#[verifier::external_body]
fn address_tags(address: &str) -> (r: Vec<String>)
    ensures
        views(r@) == tags_of(address@),
{
    melib::Address::new(None, address.to_string()).get_tags('+')
}

fn read_action(word: &str) -> (r: Option<Action>)
    ensures
        r == action_of(word@),
{
    if same(word, REPLY) {
        Some(Action::Reply)
    } else if same(word, UNSUBSCRIBE) {
        Some(Action::Unsubscribe)
    } else if same(word, SUBSCRIBE) {
        Some(Action::Subscribe)
    } else if same(word, CLOSE) {
        Some(Action::Close)
    } else {
        None
    }
}

/// What an address with the tags `tags` asks for.
pub fn command(tags: &Vec<String>) -> (r: Command)
    ensures
        r == command_of(views(tags@)),
{
    if tags.len() == 0 {
        Command::NewIssue { anonymous: false }
    } else if tags.len() == 1 && same(tags[0].as_str(), ANONYMOUS_TAG) {
        Command::NewIssue { anonymous: true }
    } else if tags.len() == 2 {
        match read_action(tags[1].as_str()) {
            Some(action) => Command::Authenticated {
                token: Token::parse(tags[0].as_str()),
                action,
            },
            None => Command::Invalid,
        }
    } else {
        Command::Invalid
    }
}

/// What a message sent to the address `to` asks for.
pub fn parse_command(to: &str) -> (r: Command)
    ensures
        r == command_of(tags_of(to@)),
{
    let tags = address_tags(to);
    command(&tags)
}

fn answer_invalid(sender: &str, conf: &Configuration) -> (r: Handled)
    ensures
        r@ == invalid_handled(sender@, conf),
{
    Handled { outcome: Outcome::Invalid, reply: Mail::new(conf, sender, INVALID, invalid_request(conf)) }
}

fn answer_created(
    title: &str,
    sender: &str,
    result: Result<(Token, i64), Error>,
    conf: &Configuration,
) -> (r: Handled)
    ensures
        r@ == create_handled(title@, sender@, record_view(result), conf),
{
    match result {
        Ok((token, id)) => Handled {
            outcome: Outcome::Created { token, id },
            reply: Mail::titled(
                conf,
                sender,
                ISSUE_HEAD,
                title,
                CREATED_TAIL,
                new_issue_success(String::from_str(title), token, id, conf),
            ),
        },
        Err(e) => {
            let body = new_issue_failure(e.clone(), conf);
            Handled {
                outcome: Outcome::Failed(e),
                reply: Mail::titled(conf, sender, ISSUE_HEAD, title, NOT_CREATED_TAIL, body),
            }
        },
    }
}

fn answer_reply(
    token: Token,
    sender: &str,
    result: Result<(String, i64, bool), Error>,
    conf: &Configuration,
) -> (r: Handled)
    ensures
        r@ == reply_handled(token, sender@, outcome_view(result), conf),
{
    match result {
        Ok((title, id, subscribed)) => {
            let body = new_reply_success(title.clone(), token, id, subscribed, conf);
            Handled {
                outcome: Outcome::Replied { id },
                reply: Mail::titled(conf, sender, REPLIED_HEAD, title.as_str(), REPLIED_TAIL, body),
            }
        },
        Err(e) => answer_reply_failure(sender, e, conf),
    }
}

fn answer_reply_failure(sender: &str, e: Error, conf: &Configuration) -> (r: Handled)
    ensures
        r@ == reply_failed(sender@, e@, conf),
{
    let body = new_reply_failure(e.clone(), conf);
    Handled { outcome: Outcome::Failed(e), reply: Mail::new(conf, sender, REPLY_FAILED, body) }
}

fn answer_close(sender: &str, result: Result<(String, i64, bool), Error>, conf: &Configuration) -> (r:
    Handled)
    ensures
        r@ == close_handled(sender@, outcome_view(result), conf),
{
    match result {
        Ok((title, id, _)) => {
            let body = close_success(title.clone(), id, conf);
            Handled {
                outcome: Outcome::Closed { id },
                reply: Mail::titled(conf, sender, CLOSED_HEAD, title.as_str(), CLOSED_TAIL, body),
            }
        },
        Err(e) => {
            let body = close_failure(e.clone(), conf);
            Handled { outcome: Outcome::Failed(e), reply: Mail::new(conf, sender, CLOSE_FAILED, body) }
        },
    }
}

fn answer_subscription(
    token: Token,
    new_val: bool,
    sender: &str,
    result: Result<(String, i64, bool), Error>,
    conf: &Configuration,
) -> (r: Handled)
    ensures
        r@ == subscription_handled(token, new_val, sender@, outcome_view(result), conf),
{
    match result {
        Ok((title, id, _)) => {
            let body = change_subscription_success(title.clone(), token, id, new_val, conf);
            let head = if new_val {
                SUBSCRIBED_HEAD
            } else {
                UNSUBSCRIBED_HEAD
            };
            Handled {
                outcome: Outcome::Subscription { token, subscribed: new_val },
                reply: Mail::titled(conf, sender, head, title.as_str(), SUCCESSFUL_TAIL, body),
            }
        },
        Err(e) => answer_subscription_failure(new_val, sender, e, conf),
    }
}

fn answer_subscription_failure(new_val: bool, sender: &str, e: Error, conf: &Configuration) -> (r: Handled)
    ensures
        r@ == subscription_failed(new_val, sender@, e@, conf),
{
    let body = match e.kind {
        ErrorKind::AlreadyInState => change_subscription_failure(!new_val, conf),
        _ => change_subscription_error(e.clone(), conf),
    };
    let subject = if new_val {
        SUBSCRIBE_FAILED
    } else {
        UNSUBSCRIBE_FAILED
    };
    Handled { outcome: Outcome::Failed(e), reply: Mail::new(conf, sender, subject, body) }
}

/// Takes the first step on `message`: reads the command off the address it
/// was sent to, looks the token up and applies the action's precondition.
/// The message is either handled at once, with its one reply, or leads to
/// one request to the tracker.
pub fn run_request(store: &mut Store, message: &Message, conf: &Configuration) -> (r: Step)
    ensures
        distinct(old(store)@),
        distinct(final(store)@),
        r@ == routed(old(store)@, message, conf),
        final(store)@ == routed_rows(old(store)@, message.to@),
        never_back(old(store)@, final(store)@),
{
    proof {
        law_route_never_back(store@, message.to@);
    }
    proof {
        use_type_invariant(&*store);
    }
    let sender = message.from.as_str();
    match parse_command(message.to.as_str()) {
        Command::Invalid => Step::Done(answer_invalid(sender, conf)),
        Command::NewIssue { anonymous } => Step::Call {
            request: new_issue_request(
                message.subject.as_str(),
                message.body.as_str(),
                anonymous,
                sender,
            ),
            pending: Pending::Create {
                title: message.subject.clone(),
                anonymous,
                submitter: message.from.clone(),
            },
        },
        Command::Authenticated { token: None, action } => {
            let handled = match action {
                Action::Reply => answer_reply_failure(
                    sender,
                    Error::with_kind(ErrorKind::NotFound, NOT_FOUND),
                    conf,
                ),
                Action::Close => answer_close(
                    sender,
                    Err(Error::with_kind(ErrorKind::NotFound, NOT_FOUND)),
                    conf,
                ),
                Action::Subscribe => answer_subscription_failure(
                    true,
                    sender,
                    Error::with_kind(ErrorKind::NotFound, ISSUE_NOT_FOUND),
                    conf,
                ),
                Action::Unsubscribe => answer_subscription_failure(
                    false,
                    sender,
                    Error::with_kind(ErrorKind::NotFound, ISSUE_NOT_FOUND),
                    conf,
                ),
            };
            Step::Done(handled)
        },
        Command::Authenticated { token: Some(token), action } => match action {
            Action::Reply => match new_reply_request(
                store,
                token,
                message.body.as_str(),
                sender,
            ) {
                Ok(request) => Step::Call {
                    request,
                    pending: Pending::Comment { token, sender: message.from.clone() },
                },
                Err(e) => Step::Done(answer_reply_failure(sender, e, conf)),
            },
            Action::Close => match close_request(store, token) {
                Ok(request) => Step::Call {
                    request,
                    pending: Pending::Close { token, sender: message.from.clone() },
                },
                Err(e) => Step::Done(answer_close(sender, Err(e), conf)),
            },
            Action::Subscribe => {
                let result = change_subscription(store, token, true);
                Step::Done(answer_subscription(token, true, sender, result, conf))
            },
            Action::Unsubscribe => {
                let result = change_subscription(store, token, false);
                Step::Done(answer_subscription(token, false, sender, result, conf))
            },
        },
    }
}

/// Takes the second step: the tracker's answer to the request that
/// `run_request` asked for. Where an issue was filed, it is stored under a
/// newly drawn token, unless the table holds that token or the issue's
/// number; nothing else touches the table.
pub fn finish_request(
    store: &mut Store,
    pending: Pending,
    answer: Result<Response, Error>,
    conf: &Configuration,
) -> (r: Handled)
    ensures
        distinct(old(store)@),
        distinct(final(store)@),
        match pending@ {
            PendingView::Comment { token, sender } => {
                &&& r@ == reply_handled(
                    token,
                    sender,
                    reply_result(old(store)@, token, answer_view(answer)),
                    conf,
                )
                &&& final(store)@ == old(store)@
            },
            PendingView::Close { token, sender } => {
                &&& r@ == close_handled(
                    sender,
                    close_result(old(store)@, token, answer_view(answer)),
                    conf,
                )
                &&& final(store)@ == old(store)@
            },
            PendingView::Create { title, anonymous, submitter } => match filed(
                answer_view(answer),
            ) {
                Err(e) => {
                    &&& r@ == create_handled(title, submitter, Err(e), conf)
                    &&& final(store)@ == old(store)@
                },
                Ok(id) => match r.outcome {
                    Outcome::Created { token, id: number } => {
                        &&& number == id
                        &&& storable(old(store)@, id, token)
                        &&& r@ == create_handled(title, submitter, Ok((token, id)), conf)
                        &&& final(store)@ == old(store)@.push(
                            new_row(
                                id,
                                title,
                                anonymous,
                                submitter,
                                token,
                                final(store)@.last().created_at,
                            ),
                        )
                    },
                    _ => {
                        &&& r@ == create_handled(title, submitter, Err(stored_already()), conf)
                        &&& final(store)@ == old(store)@
                        &&& old(store)@.len() > 0
                    },
                },
            },
        },
        pending@ matches PendingView::Create { title, submitter, .. } ==> (filed(
            answer_view(answer),
        ) matches Ok(id) ==> filed_as(r@, old(store)@, title, submitter, id, conf)),
        never_back(old(store)@, final(store)@),
{
    proof {
        use_type_invariant(&*store);
        law_never_back_reflexive(store@);
    }
    match pending {
        Pending::Create { title, anonymous, submitter } => {
            let result = new_issue(store, title.clone(), anonymous, submitter.clone(), answer);
            let r = answer_created(title.as_str(), submitter.as_str(), result, conf);
            proof {
                if let Ok(id) = filed(answer_view(answer)) {
                    let token = choose|token: Token|
                        version_4(token.value) && record_view(result) == #[trigger] record_result(
                            old(store)@,
                            id,
                            token,
                        );
                    assert(r@ == create_handled(
                        title@,
                        submitter@,
                        record_result(old(store)@, id, token),
                        conf,
                    ));
                }
            }
            r
        },
        Pending::Comment { token, sender } => {
            let result = new_reply(store, token, answer);
            answer_reply(token, sender.as_str(), result, conf)
        },
        Pending::Close { token, sender } => {
            let result = close(store, token, answer);
            answer_close(sender.as_str(), result, conf)
        },
    }
}

/// What a handled message comes to where its change to the table could not
/// be kept: the failure `e` and its reply in place of the success. Only
/// filing and a change of subscription change the table; any other outcome
/// stays as it is.
pub open spec fn unwritten_view(
    handled: HandledView,
    title: Seq<char>,
    e: ErrorView,
    conf: &Configuration,
) -> HandledView {
    match handled.outcome {
        OutcomeView::Created { .. } => create_handled(title, handled.reply.to, Err(e), conf),
        OutcomeView::Subscription { subscribed, .. } => subscription_failed(
            subscribed,
            handled.reply.to,
            e,
            conf,
        ),
        _ => handled,
    }
}

/// Takes note that the change that `handled` made to the table could not be
/// kept, for the reason `e`: the sender of the message is told of the
/// failure in place of the success. `title` is the subject of the message.
pub fn unwritten(handled: Handled, title: &str, e: Error, conf: &Configuration) -> (r: Handled)
    ensures
        r@ == unwritten_view(handled@, title@, e@, conf),
{
    match handled.outcome {
        Outcome::Created { .. } => answer_created(title, handled.reply.to.as_str(), Err(e), conf),
        Outcome::Subscription { subscribed, .. } => answer_subscription_failure(
            subscribed,
            handled.reply.to.as_str(),
            e,
            conf,
        ),
        _ => handled,
    }
}

} // verus!
