//! What the provider can fail with.

use crate::client::error::ClientError;
use crate::client::error::FailureView;
use vstd::prelude::*;
use vstd::std_specs::convert::FromSpecImpl;
use vstd::string::StringExecFns;

verus! {

/// The kinds of failure that the provider reports.
#[derive(Debug, Clone, Copy, PartialEq, Eq)]
pub enum ErrorKind {
    /// A listing failed while the hierarchy was built.
    MetadataFetch,
    /// A table is listed without what is needed to open it.
    IncompleteMetadata,
    /// The table-format engine could not open a storage location.
    StorageOpen,
    /// The hierarchy mirrors the service and takes no changes.
    UnsupportedOperation,
}

/// A failure as contracts speak of it.
pub struct UnityErrorView {
    pub kind: ErrorKind,
    /// The text of what went wrong.
    pub cause: Seq<char>,
    /// The listing failure behind a `MetadataFetch`.
    pub source: Option<FailureView>,
}

impl UnityErrorView {
    /// The words that name a kind of failure.
    pub open spec fn kind_text(kind: ErrorKind) -> Seq<char> {
        match kind {
            ErrorKind::MetadataFetch => "metadata fetch failed: "@,
            ErrorKind::IncompleteMetadata => "incomplete metadata: "@,
            ErrorKind::StorageOpen => "storage open failed: "@,
            ErrorKind::UnsupportedOperation => "unsupported operation: "@,
        }
    }

    /// The failure in words: its kind, then its cause.
    pub open spec fn message(self) -> Seq<char> {
        Self::kind_text(self.kind) + self.cause
    }

    /// The failure of a build whose listing failed with `failure`.
    pub open spec fn metadata_fetch(failure: FailureView) -> UnityErrorView {
        UnityErrorView {
            kind: ErrorKind::MetadataFetch,
            cause: failure.message(),
            source: Some(failure),
        }
    }

    /// The failure to resolve a table that is listed without a storage
    /// location.
    pub open spec fn incomplete_metadata(table_name: Seq<char>) -> UnityErrorView {
        UnityErrorView {
            kind: ErrorKind::IncompleteMetadata,
            cause: "no storage location for table "@ + table_name,
            source: None,
        }
    }

    /// The failure of the engine to open a storage location.
    pub open spec fn storage_open(cause: Seq<char>) -> UnityErrorView {
        UnityErrorView { kind: ErrorKind::StorageOpen, cause, source: None }
    }

    /// The refusal of an operation that would change the hierarchy.
    pub open spec fn unsupported(operation: Seq<char>) -> UnityErrorView {
        UnityErrorView { kind: ErrorKind::UnsupportedOperation, cause: operation, source: None }
    }
}

/// Unity error
#[derive(Debug)]
pub struct UnityError {
    kind: ErrorKind,
    cause: String,
    source: Option<ClientError>,
}

impl View for UnityError {
    type V = UnityErrorView;

    closed spec fn view(&self) -> UnityErrorView {
        UnityErrorView {
            kind: self.kind,
            cause: self.cause@,
            source: match self.source {
                Some(error) => Some(error@),
                None => None,
            },
        }
    }
}

impl UnityError {
    /// The failure to resolve a table that is listed without a storage
    /// location.
    pub fn incomplete_metadata(table_name: &str) -> (error: UnityError)
        ensures
            error@ == UnityErrorView::incomplete_metadata(table_name@),
    {
        UnityError {
            kind: ErrorKind::IncompleteMetadata,
            cause: "no storage location for table ".to_owned().concat(table_name),
            source: None,
        }
    }

    /// The failure of the engine to open a storage location, with the
    /// engine's own words for it.
    pub fn storage_open(cause: String) -> (error: UnityError)
        ensures
            error@ == UnityErrorView::storage_open(cause@),
    {
        UnityError { kind: ErrorKind::StorageOpen, cause, source: None }
    }

    /// The refusal of `operation`, which would change the hierarchy.
    pub fn unsupported(operation: &str) -> (error: UnityError)
        ensures
            error@ == UnityErrorView::unsupported(operation@),
    {
        UnityError {
            kind: ErrorKind::UnsupportedOperation,
            cause: operation.to_owned(),
            source: None,
        }
    }

    /// The kind of the failure.
    pub fn kind(&self) -> (kind: ErrorKind)
        ensures
            kind == self@.kind,
    {
        self.kind
    }

    /// The text of what went wrong.
    pub fn cause(&self) -> (cause: &str)
        ensures
            cause@ == self@.cause,
    {
        self.cause.as_str()
    }

    /// The listing failure behind a `MetadataFetch`.
    pub fn source(&self) -> (source: Option<&ClientError>)
        ensures
            source is Some == self@.source is Some,
            source matches Some(error) ==> self@.source == Some(error@),
    {
        self.source.as_ref()
    }

    /// A line for a person to read: the kind of failure, then its cause.
    pub fn message(&self) -> (text: String)
        ensures
            text@ == self@.message(),
    {
        let kind = match self.kind {
            ErrorKind::MetadataFetch => "metadata fetch failed: ",
            ErrorKind::IncompleteMetadata => "incomplete metadata: ",
            ErrorKind::StorageOpen => "storage open failed: ",
            ErrorKind::UnsupportedOperation => "unsupported operation: ",
        };
        kind.to_owned().concat(self.cause.as_str())
    }
}

impl From<ClientError> for UnityError {
    /// A listing that fails while the hierarchy is built fails the build,
    /// and is kept as its cause.
    fn from(error: ClientError) -> (converted: UnityError)
        ensures
            converted@ == UnityErrorView::metadata_fetch(error@),
    {
        let cause = error.message();
        UnityError { kind: ErrorKind::MetadataFetch, cause, source: Some(error) }
    }
}

/// What `from` returns is stated on `from` itself, over the view: a failure
/// holds strings, and no value of it can be written down here.
impl FromSpecImpl<ClientError> for UnityError {
    open spec fn obeys_from_spec() -> bool {
        false
    }

    open spec fn from_spec(error: ClientError) -> UnityError {
        arbitrary()
    }
}

} // verus!
