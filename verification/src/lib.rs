//! A mirror of a Unity Catalog metadata service.
//!
//! The remote service exposes a three-level hierarchy: catalogs, schemas
//! and tables. This crate holds the part of a catalog provider that decides
//! and computes: which page of which listing to ask for next, how the pages
//! received add up to a listing, how the listings add up to a registry that
//! is looked up by name, and what a table name resolves to. It performs no
//! I/O. A driver sends the requests that the crate names and hands back what
//! the service answered.

pub mod client;
pub mod unity;

pub use unity::bootstrap::Bootstrap;
pub use unity::error::UnityError;
pub use unity::Unity;
