//! Issue tracking by email.
//!
//! People file issues on a remote tracker by writing to the bot, and act on
//! their issues by writing to addresses that carry a token: the bot's local
//! part, then `+`, the token, `+` and one of `reply`, `close`, `subscribe`
//! and `unsubscribe`. Whoever holds the token of an issue may act on it;
//! nothing else is asked. A poller brings new comments back to subscribers,
//! one notice per issue and run.
//!
//! This library holds every decision of the bot and none of its input or
//! output. A program around it reads the mail, performs the `Request`s that
//! the library hands out, sends the `Mail`s, and keeps the `Store` on disk.
//!
//! - [`router`] takes a message to the action it asks for and to its one
//!   reply, in one step or in two with the tracker's answer in between.
//! - [`api`] holds the actions themselves.
//! - [`cron`] is the poller: it picks the comments made after an issue's
//!   watermark, renders the notice, and moves the watermark on only when
//!   the notice was delivered.
//! - [`run`] takes the poller over all issues, one after the other and
//!   every one whatever the others came to.
//! - [`store`] is the table of issues, in which tokens and numbers are
//!   unique.
//! - [`tracker`] reads the tracker's answers.
//! - [`templates`] and [`mail`] say what the bot writes.
//!
//! # What is proved
//!
//! Every function states what it returns and what it does to the store, over
//! sequences of characters and rows; the functions named `law_` state what
//! follows for every input: an unknown token is never acted on, a request
//! for the state an issue is in changes nothing, a filed issue adds exactly
//! one row, no watermark ever goes back, what was delivered is not delivered
//! again, and what could not be delivered is tried again.
//!
//! # What is taken on trust
//!
//! Four crates do work that is not proved here, each behind a contract that
//! says what is relied on:
//!
//! - `uuid` reads, writes and draws tokens ([`token`]);
//! - `serde_json` reads the tracker's answers ([`json`]);
//! - `melib` takes the tags off an address ([`router`]);
//! - `chrono` tells the time at which an issue is stored ([`api`]).
//!
//! Of the standard library the contracts of `vstd` are relied on.

pub mod api;
pub mod conf;
pub mod cron;
pub mod error;
pub mod issue;
pub mod json;
pub mod mail;
pub mod router;
pub mod run;
pub mod store;
pub mod templates;
pub mod text;
pub mod token;
pub mod tracker;
