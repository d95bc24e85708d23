//! Mails, as they are handed to the notifier.

use vstd::prelude::*;
use vstd::string::*;
use crate::conf::Configuration;
use crate::templates::bot_address_text;

verus! {

/// A finished mail.
#[derive(Debug)]
pub struct Mail {
    pub from: String,
    pub to: String,
    pub subject: String,
    pub body: String,
}

/// A mail as a mathematical value.
pub struct MailView {
    pub from: Seq<char>,
    pub to: Seq<char>,
    pub subject: Seq<char>,
    pub body: Seq<char>,
}

impl View for Mail {
    type V = MailView;

    open spec fn view(&self) -> MailView {
        MailView { from: self.from@, to: self.to@, subject: self.subject@, body: self.body@ }
    }
}

/// A subject line: the configured tag in square brackets, then `rest`.
pub open spec fn subject_text(conf: &Configuration, rest: Seq<char>) -> Seq<char> {
    "["@ + conf.tag@ + "] "@ + rest
}

/// The mail from the bot to `to` with the subject `rest` behind the tag.
pub open spec fn mail_view(
    conf: &Configuration,
    to: Seq<char>,
    rest: Seq<char>,
    body: Seq<char>,
) -> MailView {
    MailView { from: bot_address_text(conf), to, subject: subject_text(conf, rest), body }
}

/// A subject that is `head`, `title` and `tail` behind the tag.
pub open spec fn titled(head: Seq<char>, title: Seq<char>, tail: Seq<char>) -> Seq<char> {
    head + title + tail
}

impl Mail {
    /// The mail from the bot to `to` with the subject `rest` behind the tag.
    pub fn new(conf: &Configuration, to: &str, rest: &str, body: String) -> (r: Mail)
        ensures
            r@ == mail_view(conf, to@, rest@, body@),
    {
        let mut from = String::from_str(conf.local_part.as_str());
        from.append("@");
        from.append(conf.domain.as_str());
        let mut subject = String::from_str("[");
        subject.append(conf.tag.as_str());
        subject.append("] ");
        subject.append(rest);
        Mail { from, to: String::from_str(to), subject, body }
    }

    /// The mail from the bot to `to` whose subject is `head`, `title` and
    /// `tail` behind the tag.
    pub fn titled(
        conf: &Configuration,
        to: &str,
        head: &str,
        title: &str,
        tail: &str,
        body: String,
    ) -> (r: Mail)
        ensures
            r@ == mail_view(conf, to@, titled(head@, title@, tail@), body@),
    {
        let mut rest = String::from_str(head);
        rest.append(title);
        rest.append(tail);
        Mail::new(conf, to, rest.as_str(), body)
    }
}

} // verus!
