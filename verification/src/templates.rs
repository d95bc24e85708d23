//! The bodies of the mails that the bot sends.
//!
//! Every body is given twice: as a `*_text` function, which says over
//! sequences of characters what the mail reads, and as the function that
//! builds the `String`.

use vstd::prelude::*;
use vstd::string::*;
use crate::conf::Configuration;
use crate::error::Error;
use crate::issue::Issue;
use crate::text::{decimal, integer_text, join, joined, views};
use crate::token::{token_text, Token};

verus! {

/// How every mail begins.
pub const GREETING: &'static str = "Hello,\n\n";

/// How the closing line begins.
pub const SIGNATURE_HEAD: &'static str = "This is an automated email from ";

/// What follows the reason in a mail about a failure.
pub const ASSISTANCE: &'static str =
    "`. Please contact the repository's owners for assistance.\n\n";

/// What leads to the reason where an issue was not filed.
pub const NEW_ISSUE_FAILURE: &'static str =
    "Unfortunately we were not able to create your issue. The reason was: `";

/// What leads to the reason where a comment was not posted.
pub const NEW_REPLY_FAILURE: &'static str =
    "Unfortunately we were not able to post your reply. The reason was: `";

/// What leads to the reason where an issue was not closed.
pub const CLOSE_FAILURE: &'static str =
    "Unfortunately we were not able to close this issue. The reason was: `";

/// What leads to the reason where a subscription was not changed.
pub const SUBSCRIPTION_ERROR: &'static str =
    "Unfortunately we were not able to change your subscription. The reason was: `";

/// What leads to the title where an issue was filed.
pub const NEW_ISSUE_SUCCESS: &'static str = "You have successfully submitted an issue titled \"";

/// What stands between the title of a filed issue and its place.
pub const FOUND_AT: &'static str = "\". Your issue can be found at\n\n";

/// What leads to the title where a comment was posted.
pub const NEW_REPLY_SUCCESS: &'static str = "Your reply to issue \"";

/// What stands between the title and the place where a comment was posted.
pub const POSTED: &'static str =
    "\" has been successfully posted. You can view the discussion here:\n\n";

/// What leads to the title where an issue was closed.
pub const CLOSE_SUCCESS: &'static str = "Your issue \"";

/// What stands between the title and the place where an issue was closed.
pub const CLOSED: &'static str =
    "\" has been successfully closed. You can view the discussion here:\n\n";

/// What leads to the title where a subscription was changed.
pub const SUBSCRIPTION_SUCCESS: &'static str = "Your subscription change to issue \"";

/// What stands between the title and the place where a subscription was
/// changed.
pub const PERFORMED: &'static str =
    "\" has been successfully performed. You can view the discussion here:\n\n";

/// What a subscribed submitter is told, up to the address that unsubscribes.
pub const WILL_RECEIVE: &'static str =
    "You will receive replies from other users. To unsubscribe from the conversation, send an email to ";

/// What an unsubscribed submitter is told, up to the address that subscribes.
pub const WILL_NOT_RECEIVE: &'static str =
    "You will not receive replies from other users. To subscribe to the conversation, send an email to ";

/// What a newly subscribed submitter is told, up to the address that
/// unsubscribes.
pub const NOW_RECEIVE: &'static str =
    "You will receive replies from other users. To unsubscribe to the conversation, send an email to ";

/// What leads to the address that posts a comment.
pub const TO_REPLY: &'static str =
    "To reply to other users or post new comments, send your text to ";

/// What leads to the address that closes the issue.
pub const TO_CLOSE: &'static str = "To close the issue, send an email to ";

/// The advice to keep the mail.
pub const KEEP: &'static str =
    "Please keep this email in order to be able to keep in touch with your issue.\n\n";

/// The end of a sentence that ends a paragraph.
pub const SENTENCE_END: &'static str = ".\n\n";

/// The space between two paragraphs.
pub const PARAGRAPH: &'static str = "\n\n";

/// The help on requests, up to the address that files an issue.
pub const INVALID_HEAD: &'static str =
    "Your request was not correct. Here are the valid requests you can ask from this bot:\n\n- post a new issue eponymously: send an e-mail with the issue title as the subject and the issue body as the email body to ";

/// The help on requests, up to the address that files an issue anonymously.
pub const INVALID_ON_SUCCESS: &'static str =
    ". On success a password will be given that allows you to reply, close the issue, and also change your subscription to the discussion.\n- post a new issue anonymously: send an email as above to the address ";

/// The help on requests, from the bot's name up to the address that posts a
/// comment.
pub const INVALID_REPLACE: &'static str =
    " will replace your name with 'Anonymous'\n\nIf p is the given password, you may perform actions on your issue as follows:\n\n- reply: ";

/// The help on requests, up to the address that closes an issue.
pub const INVALID_CLOSE: &'static str = ". Subject value can be anything.\n- close issue: ";

/// The help on requests, up to the addresses that change a subscription.
pub const INVALID_SUBSCRIPTION: &'static str =
    " email content can be anything\n- change subscription: ";

/// What stands between the two addresses that change a subscription.
pub const INVALID_AND: &'static str = " and ";

/// What is said where a subscription was asked for twice.
pub const ALREADY_SUBSCRIBED: &'static str =
    "Your subscription change was unsuccessful. You are already subscribed.\n\n";

/// What is said where an unsubscription was asked for twice.
pub const ALREADY_UNSUBSCRIBED: &'static str =
    "Your subscription change was unsuccessful. You are already unsubscribed.\n\n";

/// What leads to the title in a notice of new comments.
pub const UPDATE_HEAD: &'static str = "There have been new replies in issue `";

/// What stands between the title and the address that unsubscribes in a
/// notice.
pub const UPDATE_REASON: &'static str =
    "`. You are receiving this notice because you are subscribed to the discussion. To unsubscribe, send an email to ";

/// The line between two comments in a notice.
pub const RULE: &'static str =
    "\n\n-------------------------------------------------------------------------\n\n";

/// The line that every mail ends with.
pub open spec fn signature_text(conf: &Configuration) -> Seq<char> {
    SIGNATURE_HEAD@ + conf.bot_name@ + " <"@ + conf.local_part@ + "+help@"@ + conf.domain@ + ">"@
}

/// The bot's own address.
pub open spec fn bot_address_text(conf: &Configuration) -> Seq<char> {
    conf.local_part@ + "@"@ + conf.domain@
}

/// The address that stands for `tag`: the bot's address with `+` and `tag`
/// behind its local part.
pub open spec fn tagged_address_text(tag: Seq<char>, conf: &Configuration) -> Seq<char> {
    conf.local_part@ + "+"@ + tag + "@"@ + conf.domain@
}

/// The address that runs `command` on the issue of the token written
/// `token`.
pub open spec fn command_address_text(
    token: Seq<char>,
    command: Seq<char>,
    conf: &Configuration,
) -> Seq<char> {
    conf.local_part@ + "+"@ + token + "+"@ + command + "@"@ + conf.domain@
}

/// Where the tracker shows the issue with the number `issue_id`.
pub open spec fn issue_url_text(issue_id: i64, conf: &Configuration) -> Seq<char> {
    conf.base_url@ + "/"@ + conf.repo@ + "/issues/"@ + integer_text(issue_id as int)
}

/// How to reply to and to close an issue, and the closing line.
pub open spec fn instructions_text(token: Seq<char>, conf: &Configuration) -> Seq<char> {
    TO_REPLY@ + command_address_text(token, "reply"@, conf) + SENTENCE_END@ + TO_CLOSE@
        + command_address_text(token, "close"@, conf) + SENTENCE_END@ + KEEP@ + signature_text(
        conf,
    )
}

/// A mail that gives `reason` for a failure introduced by `head`.
pub open spec fn failure_text(head: Seq<char>, reason: Seq<char>, conf: &Configuration) -> Seq<
    char,
> {
    GREETING@ + head + reason + ASSISTANCE@ + signature_text(conf)
}

/// What the mail reads that says an issue could not be filed for `reason`.
pub open spec fn new_issue_failure_text(reason: Seq<char>, conf: &Configuration) -> Seq<char> {
    failure_text(NEW_ISSUE_FAILURE@, reason, conf)
}

/// What the mail reads that says a comment could not be posted for `reason`.
pub open spec fn new_reply_failure_text(reason: Seq<char>, conf: &Configuration) -> Seq<char> {
    failure_text(NEW_REPLY_FAILURE@, reason, conf)
}

/// What the mail reads that says an issue could not be closed for `reason`.
pub open spec fn close_failure_text(reason: Seq<char>, conf: &Configuration) -> Seq<char> {
    failure_text(CLOSE_FAILURE@, reason, conf)
}

/// What the mail reads that says a subscription could not be changed for
/// `reason`.
pub open spec fn change_subscription_error_text(reason: Seq<char>, conf: &Configuration) -> Seq<
    char,
> {
    failure_text(SUBSCRIPTION_ERROR@, reason, conf)
}

/// What the mail reads that says an issue was filed: where the tracker shows
/// it, and the addresses that unsubscribe, reply and close.
pub open spec fn new_issue_success_text(
    title: Seq<char>,
    token: Token,
    issue_id: i64,
    conf: &Configuration,
) -> Seq<char> {
    GREETING@ + NEW_ISSUE_SUCCESS@ + title + FOUND_AT@ + issue_url_text(issue_id, conf)
        + PARAGRAPH@ + WILL_RECEIVE@ + command_address_text(
        token_text(token.value),
        "unsubscribe"@,
        conf,
    ) + SENTENCE_END@ + instructions_text(token_text(token.value), conf)
}

/// What the mail reads that says a comment was posted: where the tracker
/// shows the issue, whether the submitter is subscribed and how to change
/// that, and the addresses that reply and close.
pub open spec fn new_reply_success_text(
    title: Seq<char>,
    token: Token,
    issue_id: i64,
    is_subscribed: bool,
    conf: &Configuration,
) -> Seq<char> {
    GREETING@ + NEW_REPLY_SUCCESS@ + title + POSTED@ + issue_url_text(issue_id, conf) + PARAGRAPH@
        + (if is_subscribed {
        WILL_RECEIVE@ + command_address_text(token_text(token.value), "unsubscribe"@, conf)
    } else {
        WILL_NOT_RECEIVE@ + command_address_text(token_text(token.value), "subscribe"@, conf)
    }) + SENTENCE_END@ + instructions_text(token_text(token.value), conf)
}

/// What the mail reads that says an issue was closed.
pub open spec fn close_success_text(title: Seq<char>, issue_id: i64, conf: &Configuration) -> Seq<
    char,
> {
    GREETING@ + CLOSE_SUCCESS@ + title + CLOSED@ + issue_url_text(issue_id, conf) + PARAGRAPH@
        + signature_text(conf)
}

/// What the mail reads that lists the requests the bot knows.
pub open spec fn invalid_request_text(conf: &Configuration) -> Seq<char> {
    GREETING@ + INVALID_HEAD@ + bot_address_text(conf) + INVALID_ON_SUCCESS@ + tagged_address_text(
        "anonymous"@,
        conf,
    ) + ". "@ + conf.bot_name@ + INVALID_REPLACE@ + tagged_address_text("p+reply"@, conf)
        + INVALID_CLOSE@ + tagged_address_text("p+close"@, conf) + INVALID_SUBSCRIPTION@
        + tagged_address_text("p+unsubscribe"@, conf) + INVALID_AND@ + tagged_address_text(
        "p+subscribe"@,
        conf,
    ) + PARAGRAPH@ + signature_text(conf)
}

/// What the mail reads that says a subscription was changed; `is_subscribed`
/// is the state the issue is in now.
pub open spec fn change_subscription_success_text(
    title: Seq<char>,
    token: Token,
    issue_id: i64,
    is_subscribed: bool,
    conf: &Configuration,
) -> Seq<char> {
    GREETING@ + SUBSCRIPTION_SUCCESS@ + title + PERFORMED@ + issue_url_text(issue_id, conf)
        + PARAGRAPH@ + (if is_subscribed {
        NOW_RECEIVE@ + command_address_text(token_text(token.value), "unsubscribe"@, conf)
    } else {
        WILL_NOT_RECEIVE@ + command_address_text(token_text(token.value), "subscribe"@, conf)
    }) + SENTENCE_END@ + instructions_text(token_text(token.value), conf)
}

/// What the mail reads that says a subscription was left as it is: that the
/// submitter is unsubscribed already where `unsubscribed` is set, and that
/// they are subscribed already where it is not.
pub open spec fn change_subscription_failure_text(
    unsubscribed: bool,
    conf: &Configuration,
) -> Seq<char> {
    GREETING@ + (if unsubscribed {
        ALREADY_UNSUBSCRIBED@
    } else {
        ALREADY_SUBSCRIBED@
    }) + signature_text(conf)
}

/// What the notice reads that brings `comments`, each as it is to be shown,
/// to the subscriber: the comments stand in their order with a line between
/// neighbours.
pub open spec fn reply_update_text(
    title: Seq<char>,
    token: Token,
    conf: &Configuration,
    comments: Seq<Seq<char>>,
) -> Seq<char> {
    GREETING@ + UPDATE_HEAD@ + title + UPDATE_REASON@ + command_address_text(
        token_text(token.value),
        "unsubscribe"@,
        conf,
    ) + PARAGRAPH@ + joined(comments, RULE@) + PARAGRAPH@ + signature_text(conf)
}

fn push_signature(s: &mut String, conf: &Configuration)
    ensures
        final(s)@ == old(s)@ + signature_text(conf),
{
    s.append(SIGNATURE_HEAD);
    s.append(conf.bot_name.as_str());
    s.append(" <");
    s.append(conf.local_part.as_str());
    s.append("+help@");
    s.append(conf.domain.as_str());
    s.append(">");
    assert(s@ =~= old(s)@ + signature_text(conf));
}

fn push_bot_address(s: &mut String, conf: &Configuration)
    ensures
        final(s)@ == old(s)@ + bot_address_text(conf),
{
    s.append(conf.local_part.as_str());
    s.append("@");
    s.append(conf.domain.as_str());
    assert(s@ =~= old(s)@ + bot_address_text(conf));
}

fn push_tagged_address(s: &mut String, tag: &str, conf: &Configuration)
    ensures
        final(s)@ == old(s)@ + tagged_address_text(tag@, conf),
{
    s.append(conf.local_part.as_str());
    s.append("+");
    s.append(tag);
    s.append("@");
    s.append(conf.domain.as_str());
    assert(s@ =~= old(s)@ + tagged_address_text(tag@, conf));
}

fn push_command_address(s: &mut String, token: &str, command: &str, conf: &Configuration)
    ensures
        final(s)@ == old(s)@ + command_address_text(token@, command@, conf),
{
    s.append(conf.local_part.as_str());
    s.append("+");
    s.append(token);
    s.append("+");
    s.append(command);
    s.append("@");
    s.append(conf.domain.as_str());
    assert(s@ =~= old(s)@ + command_address_text(token@, command@, conf));
}

fn push_issue_url(s: &mut String, issue_id: i64, conf: &Configuration)
    ensures
        final(s)@ == old(s)@ + issue_url_text(issue_id, conf),
{
    s.append(conf.base_url.as_str());
    s.append("/");
    s.append(conf.repo.as_str());
    s.append("/issues/");
    let number = decimal(issue_id);
    s.append(number.as_str());
    assert(s@ =~= old(s)@ + issue_url_text(issue_id, conf));
}

fn push_instructions(s: &mut String, token: &str, conf: &Configuration)
    ensures
        final(s)@ == old(s)@ + instructions_text(token@, conf),
{
    let ghost start = s@;
    s.append(TO_REPLY);
    push_command_address(s, token, "reply", conf);
    s.append(SENTENCE_END);
    s.append(TO_CLOSE);
    push_command_address(s, token, "close", conf);
    s.append(SENTENCE_END);
    s.append(KEEP);
    push_signature(s, conf);
    assert(s@ =~= start + instructions_text(token@, conf));
}

fn failure(head: &str, reason: &str, conf: &Configuration) -> (r: String)
    ensures
        r@ == failure_text(head@, reason@, conf),
{
    let mut s = String::from_str(GREETING);
    s.append(head);
    s.append(reason);
    s.append(ASSISTANCE);
    push_signature(&mut s, conf);
    s
}

/// The mail that says an issue could not be filed, and why.
pub fn new_issue_failure(e: Error, conf: &Configuration) -> (r: String)
    ensures
        r@ == new_issue_failure_text(e.message@, conf),
{
    failure(NEW_ISSUE_FAILURE, e.message.as_str(), conf)
}

/// The mail that says an issue was filed: where it is, and the addresses that
/// act on it.
pub fn new_issue_success(title: String, password: Token, issue_id: i64, conf: &Configuration) -> (r:
    String)
    ensures
        r@ == new_issue_success_text(title@, password, issue_id, conf),
{
    let token = password.to_string();
    let mut s = String::from_str(GREETING);
    s.append(NEW_ISSUE_SUCCESS);
    s.append(title.as_str());
    s.append(FOUND_AT);
    push_issue_url(&mut s, issue_id, conf);
    s.append(PARAGRAPH);
    s.append(WILL_RECEIVE);
    push_command_address(&mut s, token.as_str(), "unsubscribe", conf);
    s.append(SENTENCE_END);
    push_instructions(&mut s, token.as_str(), conf);
    s
}

/// The mail that says a reply could not be posted, and why.
pub fn new_reply_failure(e: Error, conf: &Configuration) -> (r: String)
    ensures
        r@ == new_reply_failure_text(e.message@, conf),
{
    failure(NEW_REPLY_FAILURE, e.message.as_str(), conf)
}

/// The mail that says a reply was posted, and whether the submitter is
/// subscribed.
pub fn new_reply_success(
    title: String,
    password: Token,
    issue_id: i64,
    is_subscribed: bool,
    conf: &Configuration,
) -> (r: String)
    ensures
        r@ == new_reply_success_text(title@, password, issue_id, is_subscribed, conf),
{
    let token = password.to_string();
    let mut s = String::from_str(GREETING);
    s.append(NEW_REPLY_SUCCESS);
    s.append(title.as_str());
    s.append(POSTED);
    push_issue_url(&mut s, issue_id, conf);
    s.append(PARAGRAPH);
    let ghost start = s@;
    if is_subscribed {
        s.append(WILL_RECEIVE);
        push_command_address(&mut s, token.as_str(), "unsubscribe", conf);
        assert(s@ =~= start + (WILL_RECEIVE@ + command_address_text(
            token@,
            "unsubscribe"@,
            conf,
        )));
    } else {
        s.append(WILL_NOT_RECEIVE);
        push_command_address(&mut s, token.as_str(), "subscribe", conf);
        assert(s@ =~= start + (WILL_NOT_RECEIVE@ + command_address_text(
            token@,
            "subscribe"@,
            conf,
        )));
    }
    s.append(SENTENCE_END);
    push_instructions(&mut s, token.as_str(), conf);
    s
}

/// The mail that says an issue was closed.
pub fn close_success(title: String, issue_id: i64, conf: &Configuration) -> (r: String)
    ensures
        r@ == close_success_text(title@, issue_id, conf),
{
    let mut s = String::from_str(GREETING);
    s.append(CLOSE_SUCCESS);
    s.append(title.as_str());
    s.append(CLOSED);
    push_issue_url(&mut s, issue_id, conf);
    s.append(PARAGRAPH);
    push_signature(&mut s, conf);
    s
}

/// The mail that says an issue could not be closed, and why.
pub fn close_failure(e: Error, conf: &Configuration) -> (r: String)
    ensures
        r@ == close_failure_text(e.message@, conf),
{
    failure(CLOSE_FAILURE, e.message.as_str(), conf)
}

/// The mail that answers a request the bot does not understand: it lists the
/// requests that it does.
pub fn invalid_request(conf: &Configuration) -> (r: String)
    ensures
        r@ == invalid_request_text(conf),
{
    let mut s = String::from_str(GREETING);
    s.append(INVALID_HEAD);
    push_bot_address(&mut s, conf);
    s.append(INVALID_ON_SUCCESS);
    push_tagged_address(&mut s, "anonymous", conf);
    s.append(". ");
    s.append(conf.bot_name.as_str());
    s.append(INVALID_REPLACE);
    push_tagged_address(&mut s, "p+reply", conf);
    s.append(INVALID_CLOSE);
    push_tagged_address(&mut s, "p+close", conf);
    s.append(INVALID_SUBSCRIPTION);
    push_tagged_address(&mut s, "p+unsubscribe", conf);
    s.append(INVALID_AND);
    push_tagged_address(&mut s, "p+subscribe", conf);
    s.append(PARAGRAPH);
    push_signature(&mut s, conf);
    s
}

/// The mail that says a subscription was changed; `is_subscribed` is the
/// state the issue is in now.
pub fn change_subscription_success(
    title: String,
    password: Token,
    issue_id: i64,
    is_subscribed: bool,
    conf: &Configuration,
) -> (r: String)
    ensures
        r@ == change_subscription_success_text(title@, password, issue_id, is_subscribed, conf),
{
    let token = password.to_string();
    let mut s = String::from_str(GREETING);
    s.append(SUBSCRIPTION_SUCCESS);
    s.append(title.as_str());
    s.append(PERFORMED);
    push_issue_url(&mut s, issue_id, conf);
    s.append(PARAGRAPH);
    let ghost start = s@;
    if is_subscribed {
        s.append(NOW_RECEIVE);
        push_command_address(&mut s, token.as_str(), "unsubscribe", conf);
        assert(s@ =~= start + (NOW_RECEIVE@ + command_address_text(
            token@,
            "unsubscribe"@,
            conf,
        )));
    } else {
        s.append(WILL_NOT_RECEIVE);
        push_command_address(&mut s, token.as_str(), "subscribe", conf);
        assert(s@ =~= start + (WILL_NOT_RECEIVE@ + command_address_text(
            token@,
            "subscribe"@,
            conf,
        )));
    }
    s.append(SENTENCE_END);
    push_instructions(&mut s, token.as_str(), conf);
    s
}

/// The mail that says a subscription was left as it is: that the submitter
/// is unsubscribed already where `unsubscribed` is set, and that they are
/// subscribed already where it is not.
pub fn change_subscription_failure(unsubscribed: bool, conf: &Configuration) -> (r: String)
    ensures
        r@ == change_subscription_failure_text(unsubscribed, conf),
{
    let mut s = String::from_str(GREETING);
    if unsubscribed {
        s.append(ALREADY_UNSUBSCRIBED);
    } else {
        s.append(ALREADY_SUBSCRIBED);
    }
    push_signature(&mut s, conf);
    s
}

/// The mail that says a subscription could not be changed, and why.
pub fn change_subscription_error(e: Error, conf: &Configuration) -> (r: String)
    ensures
        r@ == change_subscription_error_text(e.message@, conf),
{
    failure(SUBSCRIPTION_ERROR, e.message.as_str(), conf)
}

/// The mail that brings a subscriber the new comments on `issue`, each
/// already rendered, in the order given.
pub fn reply_update(issue: &Issue, conf: &Configuration, comments: Vec<String>) -> (r: String)
    requires
        comments@.len() > 0,
    ensures
        r@ == reply_update_text(issue.title@, issue.token, conf, views(comments@)),
{
    let token = issue.token.to_string();
    let digest = join(&comments, RULE);
    let mut s = String::from_str(GREETING);
    s.append(UPDATE_HEAD);
    s.append(issue.title.as_str());
    s.append(UPDATE_REASON);
    push_command_address(&mut s, token.as_str(), "unsubscribe", conf);
    s.append(PARAGRAPH);
    s.append(digest.as_str());
    s.append(PARAGRAPH);
    push_signature(&mut s, conf);
    s
}

} // verus!
