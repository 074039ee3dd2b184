//! What can go wrong while a pipeline runs, and how it reads.

use vstd::prelude::*;
use vstd::string::*;

verus! {

/// A failure of the pipeline or of one of its collaborators.
///
/// `details` says what was being attempted. `source`, where there is one, is
/// the text of the underlying failure.
#[derive(Clone, Debug, PartialEq, Eq)]
pub enum Error {
    IOError { details: String, source: String },
    ReqwestError { details: String, source: String },
    MiscError { details: String },
    URLError { details: String, source: String },
    SerdeJSONError { details: String, source: String },
    TokioJoinError { details: String, source: String },
    ZMQError { details: String, source: String },
    ZMQSubscribeError { details: String, source: String },
    ZMQSocketError { details: String, source: String },
    ZMQRecvError { details: String, source: String },
    ZMQSendError { details: String, source: String },
}

/// The mathematical value of an [`Error`].
pub enum ErrorView {
    IOError { details: Seq<char>, source: Seq<char> },
    ReqwestError { details: Seq<char>, source: Seq<char> },
    MiscError { details: Seq<char> },
    URLError { details: Seq<char>, source: Seq<char> },
    SerdeJSONError { details: Seq<char>, source: Seq<char> },
    TokioJoinError { details: Seq<char>, source: Seq<char> },
    ZMQError { details: Seq<char>, source: Seq<char> },
    ZMQSubscribeError { details: Seq<char>, source: Seq<char> },
    ZMQSocketError { details: Seq<char>, source: Seq<char> },
    ZMQRecvError { details: Seq<char>, source: Seq<char> },
    ZMQSendError { details: Seq<char>, source: Seq<char> },
}

impl View for Error {
    type V = ErrorView;

    open spec fn view(&self) -> ErrorView {
        match *self {
            Error::IOError { details, source } => ErrorView::IOError {
                details: details@,
                source: source@,
            },
            Error::ReqwestError { details, source } => ErrorView::ReqwestError {
                details: details@,
                source: source@,
            },
            Error::MiscError { details } => ErrorView::MiscError { details: details@ },
            Error::URLError { details, source } => ErrorView::URLError {
                details: details@,
                source: source@,
            },
            Error::SerdeJSONError { details, source } => ErrorView::SerdeJSONError {
                details: details@,
                source: source@,
            },
            Error::TokioJoinError { details, source } => ErrorView::TokioJoinError {
                details: details@,
                source: source@,
            },
            Error::ZMQError { details, source } => ErrorView::ZMQError {
                details: details@,
                source: source@,
            },
            Error::ZMQSubscribeError { details, source } => ErrorView::ZMQSubscribeError {
                details: details@,
                source: source@,
            },
            Error::ZMQSocketError { details, source } => ErrorView::ZMQSocketError {
                details: details@,
                source: source@,
            },
            Error::ZMQRecvError { details, source } => ErrorView::ZMQRecvError {
                details: details@,
                source: source@,
            },
            Error::ZMQSendError { details, source } => ErrorView::ZMQSendError {
                details: details@,
                source: source@,
            },
        }
    }
}

impl ErrorView {
    /// What the error is called at the head of its message.
    pub open spec fn label(self) -> Seq<char> {
        match self {
            ErrorView::IOError { .. } => "IOError"@,
            ErrorView::ReqwestError { .. } => "ReqwestError"@,
            ErrorView::MiscError { .. } => "Miscellaneous Error"@,
            ErrorView::URLError { .. } => "URL Error"@,
            ErrorView::SerdeJSONError { .. } => "Serde JSON Error"@,
            ErrorView::TokioJoinError { .. } => "Tokio Task Error"@,
            ErrorView::ZMQError { .. } => "ZeroMQ Error"@,
            ErrorView::ZMQSubscribeError { .. } => "ZeroMQ Subscribe Error"@,
            ErrorView::ZMQSocketError { .. } => "ZeroMQ Socket Error"@,
            ErrorView::ZMQRecvError { .. } => "ZeroMQ Receive Error"@,
            ErrorView::ZMQSendError { .. } => "ZeroMQ Send Error"@,
        }
    }

    /// What was being attempted.
    pub open spec fn details(self) -> Seq<char> {
        match self {
            ErrorView::IOError { details, .. } => details,
            ErrorView::ReqwestError { details, .. } => details,
            ErrorView::MiscError { details } => details,
            ErrorView::URLError { details, .. } => details,
            ErrorView::SerdeJSONError { details, .. } => details,
            ErrorView::TokioJoinError { details, .. } => details,
            ErrorView::ZMQError { details, .. } => details,
            ErrorView::ZMQSubscribeError { details, .. } => details,
            ErrorView::ZMQSocketError { details, .. } => details,
            ErrorView::ZMQRecvError { details, .. } => details,
            ErrorView::ZMQSendError { details, .. } => details,
        }
    }

    /// The text of the underlying failure, where there is one.
    pub open spec fn source(self) -> Option<Seq<char>> {
        match self {
            ErrorView::IOError { source, .. } => Some(source),
            ErrorView::ReqwestError { source, .. } => Some(source),
            ErrorView::MiscError { .. } => None,
            ErrorView::URLError { source, .. } => Some(source),
            ErrorView::SerdeJSONError { source, .. } => Some(source),
            ErrorView::TokioJoinError { source, .. } => Some(source),
            ErrorView::ZMQError { source, .. } => Some(source),
            ErrorView::ZMQSubscribeError { source, .. } => Some(source),
            ErrorView::ZMQSocketError { source, .. } => Some(source),
            ErrorView::ZMQRecvError { source, .. } => Some(source),
            ErrorView::ZMQSendError { source, .. } => Some(source),
        }
    }

    /// The message of the error: its label and details and, where it has a
    /// source, a colon and the source.
    pub open spec fn message(self) -> Seq<char> {
        match self.source() {
            Some(source) => self.label() + " "@ + self.details() + ": "@ + source,
            None => self.label() + " "@ + self.details(),
        }
    }
}

impl Error {
    fn label(&self) -> (r: &'static str)
        ensures
            r@ == self@.label(),
    {
        match self {
            Error::IOError { .. } => "IOError",
            Error::ReqwestError { .. } => "ReqwestError",
            Error::MiscError { .. } => "Miscellaneous Error",
            Error::URLError { .. } => "URL Error",
            Error::SerdeJSONError { .. } => "Serde JSON Error",
            Error::TokioJoinError { .. } => "Tokio Task Error",
            Error::ZMQError { .. } => "ZeroMQ Error",
            Error::ZMQSubscribeError { .. } => "ZeroMQ Subscribe Error",
            Error::ZMQSocketError { .. } => "ZeroMQ Socket Error",
            Error::ZMQRecvError { .. } => "ZeroMQ Receive Error",
            Error::ZMQSendError { .. } => "ZeroMQ Send Error",
        }
    }

    /// What was being attempted.
    pub fn details(&self) -> (r: &str)
        ensures
            r@ == self@.details(),
    {
        match self {
            Error::IOError { details, .. } => details.as_str(),
            Error::ReqwestError { details, .. } => details.as_str(),
            Error::MiscError { details } => details.as_str(),
            Error::URLError { details, .. } => details.as_str(),
            Error::SerdeJSONError { details, .. } => details.as_str(),
            Error::TokioJoinError { details, .. } => details.as_str(),
            Error::ZMQError { details, .. } => details.as_str(),
            Error::ZMQSubscribeError { details, .. } => details.as_str(),
            Error::ZMQSocketError { details, .. } => details.as_str(),
            Error::ZMQRecvError { details, .. } => details.as_str(),
            Error::ZMQSendError { details, .. } => details.as_str(),
        }
    }

    /// The text of the underlying failure, where there is one.
    pub fn source(&self) -> (r: Option<&str>)
        ensures
            match r {
                Some(text) => self@.source() == Some(text@),
                None => self@.source() is None,
            },
    {
        match self {
            Error::IOError { source, .. } => Some(source.as_str()),
            Error::ReqwestError { source, .. } => Some(source.as_str()),
            Error::MiscError { .. } => None,
            Error::URLError { source, .. } => Some(source.as_str()),
            Error::SerdeJSONError { source, .. } => Some(source.as_str()),
            Error::TokioJoinError { source, .. } => Some(source.as_str()),
            Error::ZMQError { source, .. } => Some(source.as_str()),
            Error::ZMQSubscribeError { source, .. } => Some(source.as_str()),
            Error::ZMQSocketError { source, .. } => Some(source.as_str()),
            Error::ZMQRecvError { source, .. } => Some(source.as_str()),
            Error::ZMQSendError { source, .. } => Some(source.as_str()),
        }
    }

    /// The message of the error, as it is shown to an operator.
    pub fn message(&self) -> (r: String)
        ensures
            r@ == self@.message(),
    {
        let mut text = String::from_str(self.label());
        text.append(" ");
        text.append(self.details());
        match self.source() {
            Some(source) => {
                text.append(": ");
                text.append(source);
            },
            None => {},
        }
        text
    }
}

} // verus!
