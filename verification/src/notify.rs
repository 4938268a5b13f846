//! Posting the announcement to the group chat.
//!
//! A post is retried like any other call, and nothing tells the chat service
//! that two posts are the same message. Where an answer is lost after the
//! service has taken the post, the retry posts it again: a message is
//! delivered at least once, not exactly once.

use crate::policy::RetryPolicy;
use crate::retry::{announces, execute, RetryNotice};
use crate::transport::{
    failure_text, settle, settled, settled_view, Exchange, TransportError, TransportErrorView,
};
use vstd::prelude::*;
use vstd::string::StringExecFns;

verus! {

/// The address that takes posts for the group chat.
pub const GROUPME_API_URL: &'static str = "https://api.groupme.com/v3/bots/post";

/// What is posted: the bot that speaks, and what it says.
#[derive(Debug, PartialEq, Eq)]
pub struct Message {
    pub bot_id: String,
    pub text: String,
}

/// A message as plain text.
pub struct MessageView {
    pub bot_id: Seq<char>,
    pub text: Seq<char>,
}

impl View for Message {
    type V = MessageView;

    open spec fn view(&self) -> MessageView {
        MessageView { bot_id: self.bot_id@, text: self.text@ }
    }
}

impl Message {
    /// The message of the given bot with the given text.
    pub fn new(bot_id: &str, text: &str) -> (message: Message)
        ensures
            message@ == (MessageView { bot_id: bot_id@, text: text@ }),
    {
        Message { bot_id: String::from_str(bot_id), text: String::from_str(text) }
    }
}

/// Why a message was not delivered.
#[derive(Debug, PartialEq, Eq)]
pub enum SendError {
    /// Every permitted attempt failed in the transport; this is the last failure.
    DeliveryExhausted(TransportError),
}

/// Why a message was not delivered, as plain values.
pub enum SendErrorView {
    DeliveryExhausted(TransportErrorView),
}

impl View for SendError {
    type V = SendErrorView;

    open spec fn view(&self) -> SendErrorView {
        match *self {
            SendError::DeliveryExhausted(failure) => SendErrorView::DeliveryExhausted(failure@),
        }
    }
}

/// The words for a failed delivery.
pub open spec fn send_error_text(error: SendErrorView) -> Seq<char> {
    match error {
        SendErrorView::DeliveryExhausted(failure) => failure_text(failure),
    }
}

impl SendError {
    /// The error in words.
    pub fn describe(&self) -> (words: String)
        ensures
            words@ == send_error_text(self@),
    {
        match self {
            SendError::DeliveryExhausted(failure) => failure.describe(),
        }
    }
}

/// The result of a delivery, as plain values.
pub open spec fn send_view(sent: Result<(), SendError>) -> Result<(), SendErrorView> {
    match sent {
        Ok(_) => Ok(()),
        Err(error) => Err(error@),
    }
}

/// What a delivery comes to, given what its retried call came to: success
/// where an exchange succeeded, whatever its body, and exhaustion otherwise.
pub open spec fn delivered_from(outcome: Result<Seq<u8>, TransportErrorView>) -> Result<
    (),
    SendErrorView,
> {
    match outcome {
        Ok(_) => Ok(()),
        Err(failure) => Err(SendErrorView::DeliveryExhausted(failure)),
    }
}

/// The lines that confirm a delivery.
pub open spec fn confirmation_text(message: Seq<char>) -> Seq<char> {
    "Message sent:\n"@ + message
}

/// Writes the lines that confirm the delivery of `message`.
pub fn confirmation(message: &str) -> (lines: String)
    ensures
        lines@ == confirmation_text(message@),
{
    let mut lines = String::from_str("Message sent:\n");
    lines.append(message);
    lines
}

/// Turns what the retried call came to into the result of the delivery.
pub fn delivery_from_outcome(outcome: Result<Vec<u8>, TransportError>) -> (sent: Result<
    (),
    SendError,
>)
    ensures
        send_view(sent) == delivered_from(settled_view(outcome)),
{
    match outcome {
        Ok(_) => Ok(()),
        Err(failure) => Err(SendError::DeliveryExhausted(failure)),
    }
}

/// Posts `message` as the bot `bot_id`. `post` makes one POST request with the
/// message to the address it is handed and reports the exchange; it is called
/// under `policy`, with `wait` before each retry, until an exchange succeeds or
/// the policy is exhausted. After a success `log` is handed the lines that
/// confirm the delivery.
pub fn send_message<Post, Wait, Log>(
    post: Post,
    bot_id: &str,
    message: &str,
    policy: RetryPolicy,
    wait: Wait,
    log: Log,
) -> (sent: Result<(), SendError>) where
    Post: Fn(&str, &Message) -> Exchange,
    Wait: Fn(RetryNotice, &TransportError),
    Log: Fn(&str),

    requires
        forall|outbound: &Message|
            outbound@ == (MessageView { bot_id: bot_id@, text: message@ }) ==> #[trigger] post.requires(
                (GROUPME_API_URL, outbound),
            ),
        forall|notice: RetryNotice, failure: &TransportError|
            announces(policy, notice) ==> #[trigger] wait.requires((notice, failure)),
        forall|lines: &str|
            lines@ == confirmation_text(message@) ==> #[trigger] log.requires((lines,)),
    ensures
        exists|outbound: Message, answer: Exchange|
            outbound@ == (MessageView { bot_id: bot_id@, text: message@ }) && #[trigger] post.ensures(
                (GROUPME_API_URL, &outbound),
                answer,
            ) && send_view(sent) == delivered_from(settled(answer@)),
{
    let outbound = Message::new(bot_id, message);
    let post = &post;
    let outbound_ref = &outbound;
    let attempt = || -> (outcome: Result<Vec<u8>, TransportError>)
        requires
            post.requires((GROUPME_API_URL, outbound_ref)),
        ensures
            exists|answer: Exchange|
                post.ensures((GROUPME_API_URL, outbound_ref), answer) && settled_view(outcome)
                    == settled(answer@),
        { settle(post(GROUPME_API_URL, outbound_ref)) };
    let finished = execute(policy, attempt, wait);
    let sent = delivery_from_outcome(finished.outcome);
    if sent.is_ok() {
        log(confirmation(message).as_str());
    }
    sent
}

} // verus!
