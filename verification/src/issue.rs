//! Issues as the bot remembers them.

use vstd::prelude::*;
use crate::token::Token;

verus! {

/// One issue that was filed through the bot.
#[derive(Debug)]
pub struct Issue {
    /// The tracker's number of the issue.
    pub id: i64,
    /// The address of whoever filed the issue.
    pub submitter: String,
    /// The secret that authorises actions on the issue.
    pub token: Token,
    /// When the issue was filed.
    pub created_at: String,
    /// Whether the submitter is hidden from the tracker.
    pub anonymous: bool,
    /// Whether the submitter is mailed new comments.
    pub subscribed: bool,
    /// The issue's title.
    pub title: String,
    /// The timestamp of the newest comment that was delivered; empty at first.
    pub watermark: String,
}

/// An issue as a mathematical value.
pub struct IssueView {
    pub id: i64,
    pub submitter: Seq<char>,
    pub token: Token,
    pub created_at: Seq<char>,
    pub anonymous: bool,
    pub subscribed: bool,
    pub title: Seq<char>,
    pub watermark: Seq<char>,
}

impl View for Issue {
    type V = IssueView;

    open spec fn view(&self) -> IssueView {
        IssueView {
            id: self.id,
            submitter: self.submitter@,
            token: self.token,
            created_at: self.created_at@,
            anonymous: self.anonymous,
            subscribed: self.subscribed,
            title: self.title@,
            watermark: self.watermark@,
        }
    }
}

impl Clone for Issue {
    fn clone(&self) -> (r: Issue)
        ensures
            r == *self,
    {
        Issue {
            id: self.id,
            submitter: self.submitter.clone(),
            token: self.token,
            created_at: self.created_at.clone(),
            anonymous: self.anonymous,
            subscribed: self.subscribed,
            title: self.title.clone(),
            watermark: self.watermark.clone(),
        }
    }
}

} // verus!
