//! Announces the album of the day of a listening group to a group chat.
//!
//! A run fetches the group's current album from the album generator, writes a
//! short announcement, and posts it to the chat. Both remote calls run under
//! one retry policy: a bounded number of retries, the same delay before each.
//!
//! The crate makes no request, reads no setting and prints nothing itself. It
//! is handed functions that make one exchange each, wait, and log; it decides
//! what is called when, judges the answers, and writes every text.
//!
//! - [`policy`]: the retry policy.
//! - [`retry`]: the retry rule, its model and laws, and the loop that applies it.
//! - [`transport`]: one exchange with a service, and how it is judged.
//! - [`json`]: what is assumed of the JSON decoder.
//! - [`album`]: the album, and how the body of an answer becomes one.
//! - [`fetch`]: fetching the album.
//! - [`message`]: the announcement and its date.
//! - [`notify`]: posting the announcement.
//! - [`config`]: the settings of a run and the addresses they give.
//! - [`announce`]: one run, from the settings to the delivery.
//! - [`text`]: decimal numerals.

pub mod album;
pub mod announce;
pub mod config;
pub mod fetch;
pub mod json;
pub mod message;
pub mod notify;
pub mod policy;
pub mod retry;
pub mod text;
pub mod transport;
