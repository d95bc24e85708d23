//! The bot's configuration, handed to every component as an immutable value.

use vstd::prelude::*;

verus! {

/// Settings of one deployment of the bot.
#[derive(Debug)]
pub struct Configuration {
    /// Short name put in square brackets in front of every subject line.
    pub tag: String,
    /// The bot's authentication token at the tracker.
    pub auth_token: String,
    /// Local part of the bot's address: `issues` for `issues@example.com`.
    pub local_part: String,
    /// Domain of the bot's address: `example.com` for `issues@example.com`.
    pub domain: String,
    /// Base URL of the tracker, without a trailing slash.
    pub base_url: String,
    /// Repository path at the tracker, `owner/name`.
    pub repo: String,
    /// The name the bot signs its mails with.
    pub bot_name: String,
    /// The bot's login at the tracker.
    pub bot_username: String,
    /// The command that outgoing mail is piped to.
    pub mailer: String,
    /// File that the log is written to.
    pub log_file: String,
    /// When set, nothing is mailed and no watermark is stored.
    pub dry_run: bool,
}

} // verus!
