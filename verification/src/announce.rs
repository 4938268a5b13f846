//! One run: fetch the album, write the announcement, post it.

use crate::album::AlbumView;
use crate::config::{api_address, group_address, Config, ConfigView};
use crate::fetch::{
    fetch_error_text, fetch_view, fetched_from, get_album, FetchError, FetchErrorView,
};
use crate::message::{announcement_text, get_message, in_range, DateView};
use crate::notify::{
    delivered_from, send_error_text, send_message, send_view, Message, MessageView, SendError,
    SendErrorView, GROUPME_API_URL,
};
use crate::policy::RetryPolicy;
use crate::retry::{announces, RetryNotice};
use crate::transport::{failure_text, settled, Exchange, ExchangeView, TransportError};
use vstd::prelude::*;
use vstd::string::StringExecFns;

verus! {

/// The two remote calls of a run.
#[derive(Clone, Copy, Debug, PartialEq, Eq, Structural)]
pub enum Stage {
    /// Fetching the album from the generator.
    Fetch,
    /// Posting the announcement to the chat.
    Send,
}

/// Why a run ended without a delivery.
#[derive(Debug, PartialEq, Eq)]
pub enum RunError {
    Fetch(FetchError),
    Send(SendError),
}

/// Why a run ended without a delivery, as plain values.
pub enum RunErrorView {
    Fetch(FetchErrorView),
    Send(SendErrorView),
}

impl View for RunError {
    type V = RunErrorView;

    open spec fn view(&self) -> RunErrorView {
        match *self {
            RunError::Fetch(error) => RunErrorView::Fetch(error@),
            RunError::Send(error) => RunErrorView::Send(error@),
        }
    }
}

/// The result of a run, as plain values.
pub open spec fn run_view(done: Result<String, RunError>) -> Result<Seq<char>, RunErrorView> {
    match done {
        Ok(text) => Ok(text@),
        Err(error) => Err(error@),
    }
}

/// What is said of a stage that failed.
pub open spec fn stage_text(stage: Stage) -> Seq<char> {
    match stage {
        Stage::Fetch => "Could not get album"@,
        Stage::Send => "Could not send message"@,
    }
}

/// The line that tells of a failure in a stage.
pub open spec fn failure_line(stage: Stage, failure: Seq<char>) -> Seq<char> {
    stage_text(stage) + ": "@ + failure
}

/// The line that tells why a run ended without a delivery.
pub open spec fn run_error_text(error: RunErrorView) -> Seq<char> {
    match error {
        RunErrorView::Fetch(error) => failure_line(Stage::Fetch, fetch_error_text(error)),
        RunErrorView::Send(error) => failure_line(Stage::Send, send_error_text(error)),
    }
}

/// What a run comes to once the album is there, given the date of the
/// announcement and the exchange that ended the posting: the text that was
/// delivered, or the failure of the delivery.
pub open spec fn announced_from(
    config: ConfigView,
    album: AlbumView,
    date: DateView,
    reply: ExchangeView,
) -> Result<Seq<char>, RunErrorView> {
    match delivered_from(settled(reply)) {
        Ok(_) => Ok(announcement_text(album, date, group_address(config.group))),
        Err(error) => Err(RunErrorView::Send(error)),
    }
}

impl Stage {
    /// What is said of the stage when it fails.
    pub fn describe(&self) -> (words: &'static str)
        ensures
            words@ == stage_text(*self),
    {
        match self {
            Stage::Fetch => "Could not get album",
            Stage::Send => "Could not send message",
        }
    }

    /// The line that tells of a failure of the transport in this stage.
    pub fn report(&self, failure: &TransportError) -> (line: String)
        ensures
            line@ == failure_line(*self, failure_text(failure@)),
    {
        let mut line = String::from_str(self.describe());
        line.append(": ");
        line.append(failure.describe().as_str());
        line
    }
}

impl RunError {
    /// The line that tells why the run ended without a delivery.
    pub fn describe(&self) -> (line: String)
        ensures
            line@ == run_error_text(self@),
    {
        let (stage, words) = match self {
            RunError::Fetch(error) => (Stage::Fetch, error.describe()),
            RunError::Send(error) => (Stage::Send, error.describe()),
        };
        let mut line = String::from_str(stage.describe());
        line.append(": ");
        line.append(words.as_str());
        line
    }
}

/// Runs once: fetches the group's album of the day through `get`, writes
/// today's announcement of it, and posts the announcement through `post`, each
/// call under `policy`. `wait` is called before every retry, with the stage
/// that failed; `log` is handed the confirmation after the delivery. The first
/// stage that fails ends the run. A run that delivers returns the text it
/// delivered.
pub fn announce<Get, Post, Wait, Log>(
    config: &Config,
    policy: RetryPolicy,
    get: Get,
    post: Post,
    wait: Wait,
    log: Log,
) -> (done: Result<String, RunError>) where
    Get: Fn(&str) -> Exchange,
    Post: Fn(&str, &Message) -> Exchange,
    Wait: Fn(Stage, RetryNotice, &TransportError),
    Log: Fn(&str),

    requires
        forall|address: &str|
            address@ == api_address(config@.group) ==> #[trigger] get.requires((address,)),
        forall|outbound: &Message|
            outbound@.bot_id == config@.bot_id ==> #[trigger] post.requires(
                (GROUPME_API_URL, outbound),
            ),
        forall|stage: Stage, notice: RetryNotice, failure: &TransportError|
            announces(policy, notice) ==> #[trigger] wait.requires((stage, notice, failure)),
        forall|lines: &str| #[trigger] log.requires((lines,)),
    ensures
        exists|address: &str, answer: Exchange|
            address@ == api_address(config@.group) && #[trigger] get.ensures((address,), answer)
                && match fetched_from(settled(answer@)) {
                Err(error) => run_view(done) == Err::<Seq<char>, RunErrorView>(
                    RunErrorView::Fetch(error),
                ),
                Ok(album) => exists|date: DateView, outbound: Message, reply: Exchange|
                    #![trigger in_range(date), post.ensures((GROUPME_API_URL, &outbound), reply)]
                    in_range(date) && outbound@ == (MessageView {
                        bot_id: config@.bot_id,
                        text: announcement_text(album, date, group_address(config@.group)),
                    }) && post.ensures((GROUPME_API_URL, &outbound), reply) && run_view(done)
                        == announced_from(config@, album, date, reply@),
            },
{
    let api_url = config.generator_api_url();
    let wait = &wait;
    let wait_for_fetch = |notice: RetryNotice, failure: &TransportError|
        requires
            wait.requires((Stage::Fetch, notice, failure)),
        { wait(Stage::Fetch, notice, failure) };
    let address = api_url.as_str();
    let fetched = get_album(get, address, policy, wait_for_fetch);
    let ghost answer = choose|answer: Exchange|
        get.ensures((address,), answer) && fetch_view(fetched) == fetched_from(settled(answer@));
    let album = match fetched {
        Ok(album) => album,
        Err(error) => {
            return Err(RunError::Fetch(error));
        },
    };
    let group_url = config.generator_group_url();
    let text = get_message(&album, group_url.as_str());
    let ghost date = choose|date: DateView|
        in_range(date) && text@ == #[trigger] announcement_text(album@, date, group_url@);
    let wait_for_send = |notice: RetryNotice, failure: &TransportError|
        requires
            wait.requires((Stage::Send, notice, failure)),
        { wait(Stage::Send, notice, failure) };
    let sent = send_message(
        post,
        config.bot_id.as_str(),
        text.as_str(),
        policy,
        wait_for_send,
        log,
    );
    proof {
        let (outbound, reply) = choose|outbound: Message, reply: Exchange|
            outbound@ == (MessageView { bot_id: config.bot_id@, text: text@ })
                && #[trigger] post.ensures((GROUPME_API_URL, &outbound), reply) && send_view(sent)
                == delivered_from(settled(reply@));
        assert(in_range(date) && post.ensures((GROUPME_API_URL, &outbound), reply));
    }
    match sent {
        Ok(_) => Ok(text),
        Err(error) => Err(RunError::Send(error)),
    }
}

} // verus!
