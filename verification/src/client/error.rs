//! What a listing can fail with.

use crate::client::rest::RestClientError;
use vstd::prelude::*;
use vstd::std_specs::convert::FromSpecImpl;
use vstd::string::StringExecFns;

verus! {

/// A failure as contracts speak of it: its kind and the characters of its
/// cause.
pub enum FailureView {
    Transport(Seq<char>),
    Decode(Seq<char>),
}

impl FailureView {
    /// The text that the failure was reported with.
    pub open spec fn cause(self) -> Seq<char> {
        match self {
            FailureView::Transport(cause) => cause,
            FailureView::Decode(cause) => cause,
        }
    }

    /// The failure in words: its kind, then its cause.
    pub open spec fn message(self) -> Seq<char> {
        match self {
            FailureView::Transport(cause) => "transport error: "@ + cause,
            FailureView::Decode(cause) => "decode error: "@ + cause,
        }
    }
}

/// Why a listing of one hierarchy level gave no result.
#[derive(Debug)]
pub enum ClientError {
    /// A page could not be fetched from the service.
    Transport(String),
    /// A page came back malformed, or holds a record that cannot be used.
    Decode(String),
}

impl View for ClientError {
    type V = FailureView;

    open spec fn view(&self) -> FailureView {
        match self {
            ClientError::Transport(cause) => FailureView::Transport(cause@),
            ClientError::Decode(cause) => FailureView::Decode(cause@),
        }
    }
}

impl ClientError {
    /// A line for a person to read: the kind of failure, then its cause.
    pub fn message(&self) -> (text: String)
        ensures
            text@ == self@.message(),
    {
        match self {
            ClientError::Transport(cause) => "transport error: ".to_owned().concat(cause.as_str()),
            ClientError::Decode(cause) => "decode error: ".to_owned().concat(cause.as_str()),
        }
    }
}

impl From<RestClientError> for ClientError {
    /// A failed request fails the listing, in kind and with its cause.
    fn from(error: RestClientError) -> (converted: ClientError)
        ensures
            converted@ == error@,
    {
        match error {
            RestClientError::Transport(cause) => ClientError::Transport(cause),
            RestClientError::Decode(cause) => ClientError::Decode(cause),
        }
    }
}

impl FromSpecImpl<RestClientError> for ClientError {
    open spec fn obeys_from_spec() -> bool {
        true
    }

    open spec fn from_spec(error: RestClientError) -> ClientError {
        match error {
            RestClientError::Transport(cause) => ClientError::Transport(cause),
            RestClientError::Decode(cause) => ClientError::Decode(cause),
        }
    }
}

} // verus!
