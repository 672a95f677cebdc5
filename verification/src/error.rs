//! Faults that a dispatch or a workflow can end in.

use vstd::prelude::*;
use vstd::string::*;

verus! {

/// A message did not fit into the buffer that it was to be written to.
#[derive(Clone, Copy, Debug, PartialEq, Eq, Structural)]
pub struct EncodeError {
    /// Number of bytes that the encoded message takes.
    pub required: usize,
    /// Number of bytes that the buffer had left.
    pub remaining: usize,
}

/// Why a reply could not be read as the value that was expected.
#[derive(Clone, Debug, PartialEq, Eq)]
pub enum DecodeError {
    Utf8Error,
    ProtoDecodeError,
    JsonDecodeError,
    Base64DecodeError,
    SigningKeyDecodeError { msg: String },
}

/// Mathematical model of a [`DecodeError`].
pub enum DecodeErrorView {
    Utf8Error,
    ProtoDecodeError,
    JsonDecodeError,
    Base64DecodeError,
    SigningKeyDecodeError { msg: Seq<char> },
}

impl View for DecodeError {
    type V = DecodeErrorView;

    open spec fn view(&self) -> DecodeErrorView {
        match *self {
            DecodeError::Utf8Error => DecodeErrorView::Utf8Error,
            DecodeError::ProtoDecodeError => DecodeErrorView::ProtoDecodeError,
            DecodeError::JsonDecodeError => DecodeErrorView::JsonDecodeError,
            DecodeError::Base64DecodeError => DecodeErrorView::Base64DecodeError,
            DecodeError::SigningKeyDecodeError { msg } => DecodeErrorView::SigningKeyDecodeError {
                msg: msg@,
            },
        }
    }
}

impl DeepView for DecodeError {
    type V = DecodeErrorView;

    open spec fn deep_view(&self) -> DecodeErrorView {
        self@
    }
}

/// The kinds of fault that an operation against the chain can end in.
#[derive(Clone, Debug, PartialEq, Eq)]
pub enum RunnerError {
    /// The request could not be put on the wire; nothing was sent.
    EncodeError(EncodeError),
    /// The chain answered, but the answer is not of the expected shape.
    DecodeError(DecodeError),
    /// The chain refused a query; `msg` is its diagnostic text, verbatim.
    QueryError { msg: String },
    /// The chain refused or reverted a transaction; `msg` is its
    /// diagnostic text, verbatim.
    ExecuteError { msg: String },
    /// The chain has no handler for the query route `path`.
    RouteNotFound { path: String },
}

/// Mathematical model of a [`RunnerError`].
pub enum RunnerErrorView {
    EncodeError(EncodeError),
    DecodeError(DecodeErrorView),
    QueryError { msg: Seq<char> },
    ExecuteError { msg: Seq<char> },
    RouteNotFound { path: Seq<char> },
}

impl View for RunnerError {
    type V = RunnerErrorView;

    open spec fn view(&self) -> RunnerErrorView {
        match *self {
            RunnerError::EncodeError(e) => RunnerErrorView::EncodeError(e),
            RunnerError::DecodeError(e) => RunnerErrorView::DecodeError(e@),
            RunnerError::QueryError { msg } => RunnerErrorView::QueryError { msg: msg@ },
            RunnerError::ExecuteError { msg } => RunnerErrorView::ExecuteError { msg: msg@ },
            RunnerError::RouteNotFound { path } => RunnerErrorView::RouteNotFound { path: path@ },
        }
    }
}

impl DeepView for RunnerError {
    type V = RunnerErrorView;

    open spec fn deep_view(&self) -> RunnerErrorView {
        self@
    }
}

/// The model of a result whose fault is a [`RunnerError`].
pub open spec fn result_view<T: View>(r: Result<T, RunnerError>) -> Result<T::V, RunnerErrorView> {
    match r {
        Ok(t) => Ok(t@),
        Err(e) => Err(e@),
    }
}

/// What encoding a message came to: its bytes, or why there are none.
pub type Encoded = Result<Vec<u8>, EncodeError>;

/// The model of the result of an encoding.
pub open spec fn encoded_view(msg: Encoded) -> Result<Seq<u8>, EncodeError> {
    match msg {
        Ok(bytes) => Ok(bytes@),
        Err(e) => Err(e),
    }
}

/// The text with which the chain answers a query on a route that it has no
/// handler for.
pub open spec fn route_not_found_text(path: Seq<char>) -> Seq<char> {
    "No route found for `"@ + path + "`"@
}

/// The fault that a refused query on `path` stands for: the chain's text for
/// an unknown route names the route, any other text is kept as it came.
pub open spec fn query_fault(path: Seq<char>, msg: Seq<char>) -> RunnerErrorView {
    if msg == route_not_found_text(path) {
        RunnerErrorView::RouteNotFound { path }
    } else {
        RunnerErrorView::QueryError { msg }
    }
}

/// The diagnostic text of a fault.
pub open spec fn fault_message(e: RunnerErrorView) -> Seq<char> {
    match e {
        RunnerErrorView::EncodeError(_) => "unable to encode request"@,
        RunnerErrorView::DecodeError(_) => "unable to decode response"@,
        RunnerErrorView::QueryError { msg } => msg,
        RunnerErrorView::ExecuteError { msg } => msg,
        RunnerErrorView::RouteNotFound { path } => route_not_found_text(path),
    }
}

/// Builds the text with which the chain answers a query on an unknown route.
pub fn route_not_found_message(path: &str) -> (text: String)
    ensures
        text@ == route_not_found_text(path@),
{
    let mut text = String::from_str("No route found for `");
    text.append(path);
    text.append("`");
    text
}

impl RunnerError {
    /// Classifies the text `msg` with which the chain refused a query on
    /// `path`.
    pub fn from_query_failure(path: &str, msg: String) -> (e: RunnerError)
        ensures
            e@ == query_fault(path@, msg@),
    {
        let expected = route_not_found_message(path);
        if msg == expected {
            RunnerError::RouteNotFound { path: String::from_str(path) }
        } else {
            RunnerError::QueryError { msg }
        }
    }

    /// The diagnostic text of this fault. For a fault that the chain
    /// reported it is the chain's own text.
    pub fn message(&self) -> (text: String)
        ensures
            text@ == fault_message(self@),
    {
        match self {
            RunnerError::EncodeError(_) => String::from_str("unable to encode request"),
            RunnerError::DecodeError(_) => String::from_str("unable to decode response"),
            RunnerError::QueryError { msg } => msg.clone(),
            RunnerError::ExecuteError { msg } => msg.clone(),
            RunnerError::RouteNotFound { path } => route_not_found_message(path.as_str()),
        }
    }
}

/// A query that the chain refuses with its text for an unknown route is
/// reported as `RouteNotFound` for that route, and the message of that fault
/// is the chain's text again, letter for letter.
pub proof fn lemma_unknown_route_is_matchable(path: Seq<char>)
    ensures
        query_fault(path, route_not_found_text(path)) == (RunnerErrorView::RouteNotFound { path }),
        fault_message(query_fault(path, route_not_found_text(path))) == route_not_found_text(path),
{
}

/// Whatever text the chain refuses a query with, the fault keeps it: the
/// message of the fault is that text.
pub proof fn lemma_query_fault_keeps_text(path: Seq<char>, msg: Seq<char>)
    ensures
        fault_message(query_fault(path, msg)) == msg,
{
}

} // verus!
