//! One exchange with a remote service, and how it is judged.
//!
//! An HTTP status from 200 to 299 is a success and hands on the body. Any other
//! status, and an exchange that did not complete, is a failure of the
//! transport: the kind that a retry may cure.

use crate::text::{decimal, render_unsigned};
use vstd::prelude::*;
use vstd::string::StringExecFns;

verus! {

/// What one attempt to reach a service came to.
#[derive(Debug, PartialEq, Eq)]
pub enum Exchange {
    /// The service answered with a status and a body.
    Answered { status: u16, body: Vec<u8> },
    /// No answer arrived; `reason` says why, in words.
    Failed { reason: String },
}

/// An exchange as plain values.
pub enum ExchangeView {
    Answered { status: u16, body: Seq<u8> },
    Failed { reason: Seq<char> },
}

impl View for Exchange {
    type V = ExchangeView;

    open spec fn view(&self) -> ExchangeView {
        match *self {
            Exchange::Answered { status, body } => ExchangeView::Answered { status, body: body@ },
            Exchange::Failed { reason } => ExchangeView::Failed { reason: reason@ },
        }
    }
}

/// A failure of the transport.
#[derive(Debug, PartialEq, Eq)]
pub enum TransportError {
    /// No answer arrived; `reason` says why, in words.
    Unreachable { reason: String },
    /// The service answered with a status outside 200 to 299.
    Rejected { status: u16 },
}

/// A failure of the transport as plain values.
pub enum TransportErrorView {
    Unreachable { reason: Seq<char> },
    Rejected { status: u16 },
}

impl View for TransportError {
    type V = TransportErrorView;

    open spec fn view(&self) -> TransportErrorView {
        match *self {
            TransportError::Unreachable { reason } => TransportErrorView::Unreachable {
                reason: reason@,
            },
            TransportError::Rejected { status } => TransportErrorView::Rejected { status },
        }
    }
}

/// Whether a status reports success.
pub open spec fn is_success(status: u16) -> bool {
    200 <= status <= 299
}

/// The body of a successful exchange, or the failure that the exchange is.
pub open spec fn settled(exchange: ExchangeView) -> Result<Seq<u8>, TransportErrorView> {
    match exchange {
        ExchangeView::Answered { status, body } => if is_success(status) {
            Ok(body)
        } else {
            Err(TransportErrorView::Rejected { status })
        },
        ExchangeView::Failed { reason } => Err(TransportErrorView::Unreachable { reason }),
    }
}

/// A body or a failure, as plain values.
pub open spec fn settled_view(outcome: Result<Vec<u8>, TransportError>) -> Result<
    Seq<u8>,
    TransportErrorView,
> {
    match outcome {
        Ok(body) => Ok(body@),
        Err(failure) => Err(failure@),
    }
}

/// The words for a failure of the transport.
pub open spec fn failure_text(failure: TransportErrorView) -> Seq<char> {
    match failure {
        TransportErrorView::Unreachable { reason } => reason,
        TransportErrorView::Rejected { status } => "HTTP status "@ + decimal(status as nat),
    }
}

/// Whether a status reports success.
pub fn succeeded(status: u16) -> (success: bool)
    ensures
        success == is_success(status),
{
    200 <= status && status <= 299
}

/// Judges one exchange: the body where the service answered with success, the
/// failure otherwise.
pub fn settle(exchange: Exchange) -> (outcome: Result<Vec<u8>, TransportError>)
    ensures
        settled_view(outcome) == settled(exchange@),
{
    match exchange {
        Exchange::Answered { status, body } => {
            if succeeded(status) {
                Ok(body)
            } else {
                Err(TransportError::Rejected { status })
            }
        },
        Exchange::Failed { reason } => Err(TransportError::Unreachable { reason }),
    }
}

impl TransportError {
    /// The failure in words.
    pub fn describe(&self) -> (words: String)
        ensures
            words@ == failure_text(self@),
    {
        match self {
            TransportError::Unreachable { reason } => reason.clone(),
            TransportError::Rejected { status } => {
                let mut words = String::from_str("HTTP status ");
                words.append(render_unsigned(*status as u64).as_str());
                words
            },
        }
    }
}

} // verus!
