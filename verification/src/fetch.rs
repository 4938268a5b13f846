//! Fetching the album of the day from the generator.

use crate::album::{
    album_of_body, defect_text, parse_album, Album, AlbumView, Defect, ALBUM_KEY, ARTIST_KEY,
};
use crate::json::{json_document, lookup};
use crate::policy::RetryPolicy;
use crate::retry::{announces, execute, RetryNotice};
use crate::transport::{
    failure_text, settle, settled, settled_view, Exchange, TransportError, TransportErrorView,
};
use vstd::prelude::*;
use vstd::string::StringExecFns;

verus! {

/// Why no album was fetched.
#[derive(Debug, PartialEq, Eq)]
pub enum FetchError {
    /// Every permitted attempt failed in the transport; this is the last failure.
    TransportExhausted(TransportError),
    /// The generator answered, and the answer does not hold an album.
    MalformedResponse(Defect),
}

/// Why no album was fetched, as plain values.
pub enum FetchErrorView {
    TransportExhausted(TransportErrorView),
    MalformedResponse(Defect),
}

impl View for FetchError {
    type V = FetchErrorView;

    open spec fn view(&self) -> FetchErrorView {
        match *self {
            FetchError::TransportExhausted(failure) => FetchErrorView::TransportExhausted(failure@),
            FetchError::MalformedResponse(defect) => FetchErrorView::MalformedResponse(defect),
        }
    }
}

/// The words for a failed fetch.
pub open spec fn fetch_error_text(error: FetchErrorView) -> Seq<char> {
    match error {
        FetchErrorView::TransportExhausted(failure) => failure_text(failure),
        FetchErrorView::MalformedResponse(defect) => "malformed response: "@ + defect_text(defect),
    }
}

impl FetchError {
    /// The error in words.
    pub fn describe(&self) -> (words: String)
        ensures
            words@ == fetch_error_text(self@),
    {
        match self {
            FetchError::TransportExhausted(failure) => failure.describe(),
            FetchError::MalformedResponse(defect) => {
                let mut words = String::from_str("malformed response: ");
                words.append(defect.describe().as_str());
                words
            },
        }
    }
}

/// The result of a fetch, as plain values.
pub open spec fn fetch_view(fetched: Result<Album, FetchError>) -> Result<
    AlbumView,
    FetchErrorView,
> {
    match fetched {
        Ok(album) => Ok(album@),
        Err(error) => Err(error@),
    }
}

/// What a fetch comes to, given what its retried call came to: the album of the
/// body, a malformed response where the body holds none, and exhaustion where
/// the call ended in a failure of the transport.
pub open spec fn fetched_from(outcome: Result<Seq<u8>, TransportErrorView>) -> Result<
    AlbumView,
    FetchErrorView,
> {
    match outcome {
        Ok(body) => match album_of_body(body) {
            Ok(album) => Ok(album),
            Err(defect) => Err(FetchErrorView::MalformedResponse(defect)),
        },
        Err(failure) => Err(FetchErrorView::TransportExhausted(failure)),
    }
}

/// A body that is a JSON document without a string for the artist is a
/// malformed response, whatever else it holds.
pub proof fn law_missing_artist_is_malformed(body: Seq<u8>)
    requires
        json_document(body) matches Some(texts) && lookup(texts, seq![ALBUM_KEY@, ARTIST_KEY@])
            is None,
    ensures
        fetched_from(Ok(body)) matches Err(FetchErrorView::MalformedResponse(_)),
{
}

/// Turns what the retried call came to into the result of the fetch. This
/// step is taken once, after the retries: a malformed answer is not asked for
/// again.
pub fn album_from_outcome(outcome: Result<Vec<u8>, TransportError>) -> (fetched: Result<
    Album,
    FetchError,
>)
    ensures
        fetch_view(fetched) == fetched_from(settled_view(outcome)),
{
    match outcome {
        Ok(body) => match parse_album(body.as_slice()) {
            Ok(album) => Ok(album),
            Err(defect) => Err(FetchError::MalformedResponse(defect)),
        },
        Err(failure) => Err(FetchError::TransportExhausted(failure)),
    }
}

/// Fetches the album of the day. `get` makes one GET request to the address it
/// is handed and reports the exchange; it is called under `policy`, with `wait`
/// before each retry, until an exchange succeeds or the policy is exhausted.
/// The body of the successful exchange is then read, once.
pub fn get_album<Get, Wait>(
    get: Get,
    generator_api_url: &str,
    policy: RetryPolicy,
    wait: Wait,
) -> (fetched: Result<Album, FetchError>) where
    Get: Fn(&str) -> Exchange,
    Wait: Fn(RetryNotice, &TransportError),

    requires
        get.requires((generator_api_url,)),
        forall|notice: RetryNotice, failure: &TransportError|
            announces(policy, notice) ==> #[trigger] wait.requires((notice, failure)),
    ensures
        exists|answer: Exchange|
            get.ensures((generator_api_url,), answer) && fetch_view(fetched) == fetched_from(
                settled(answer@),
            ),
{
    let get = &get;
    let attempt = || -> (outcome: Result<Vec<u8>, TransportError>)
        requires
            get.requires((generator_api_url,)),
        ensures
            exists|answer: Exchange|
                get.ensures((generator_api_url,), answer) && settled_view(outcome) == settled(
                    answer@,
                ),
        { settle(get(generator_api_url)) };
    let finished = execute(policy, attempt, wait);
    album_from_outcome(finished.outcome)
}

} // verus!
