//! The adapter of a table that the table-format engine opened.

use crate::unity::error::UnityError;
use crate::unity::error::UnityErrorView;
use vstd::prelude::*;

verus! {

/// The kinds of table that a host knows.
#[derive(Debug, Clone, Copy, PartialEq, Eq)]
pub enum TableKind {
    /// An ordinary table.
    Base,
    /// A named query.
    View,
    /// A table that lives as long as the session.
    Temporary,
}

/// A table that the engine opened at the storage location of a listed
/// table. `H` is the engine's handle; the adapter adds nothing to what the
/// handle can do.
pub struct UnityDeltaTable<H> {
    table: H,
}

impl<H> View for UnityDeltaTable<H> {
    type V = H;

    /// The handle that the engine gave.
    closed spec fn view(&self) -> H {
        self.table
    }
}

impl<H> UnityDeltaTable<H> {
    /// The adapter of what the engine answered when it was asked to open a
    /// storage location: the handle, or the engine's words for its failure.
    /// A failure to open is final for this lookup.
    pub fn new(opened: Result<H, String>) -> (adapter: Result<UnityDeltaTable<H>, UnityError>)
        ensures
            match opened {
                Ok(handle) => adapter matches Ok(table) && table@ == handle,
                Err(cause) => adapter matches Err(failure) && failure@
                    == UnityErrorView::storage_open(cause@),
            },
    {
        match opened {
            Ok(table) => Ok(UnityDeltaTable { table }),
            Err(cause) => Err(UnityError::storage_open(cause)),
        }
    }

    /// The handle, to delegate to.
    pub fn table(&self) -> (handle: &H)
        ensures
            *handle == self@,
    {
        &self.table
    }

    /// The kind that the host is told: a base table, whatever the service
    /// says of the table.
    pub fn table_type(&self) -> (kind: TableKind)
        ensures
            kind == TableKind::Base,
    {
        TableKind::Base
    }

    /// Rows cannot be written through the adapter: the hierarchy is read
    /// only.
    pub fn insert_into(&self) -> (refusal: UnityError)
        ensures
            refusal@ == UnityErrorView::unsupported("insert into"@),
    {
        UnityError::unsupported("insert into")
    }
}

} // verus!
