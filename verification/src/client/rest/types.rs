//! The records that the list endpoints return, as they come off the wire.

use std::collections::HashMap;
use vstd::prelude::*;

verus! {

/// One page of the catalogs listing.
#[derive(Debug)]
pub struct ListCatalogsResponse {
    pub catalogs: Vec<CatalogInfo>,
    pub next_page_token: Option<String>,
}

/// A catalog as the service describes it.
#[derive(Debug)]
pub struct CatalogInfo {
    pub id: String,
    pub name: String,
    pub comment: Option<String>,
    pub properties: HashMap<String, String>,
    pub created_at: Option<i64>,
    pub updated_at: Option<i64>,
}

/// One page of the schemas listing of a catalog.
#[derive(Debug)]
pub struct ListSchemasResponse {
    pub schemas: Vec<SchemaInfo>,
    pub next_page_token: Option<String>,
}

/// A schema as the service describes it.
#[derive(Debug)]
pub struct SchemaInfo {
    pub schema_id: String,
    pub name: String,
    pub catalog_name: Option<String>,
    pub comment: Option<String>,
    pub properties: HashMap<String, String>,
    pub full_name: Option<String>,
    pub created_at: Option<i64>,
    pub updated_at: Option<i64>,
}

/// One page of the tables listing of a schema.
#[derive(Debug)]
pub struct ListTablesResponse {
    pub tables: Vec<TableInfo>,
    pub next_page_token: Option<String>,
}

/// A table as the service describes it. Every field but the columns and the
/// properties may be missing on the wire.
#[derive(Debug)]
pub struct TableInfo {
    pub table_id: Option<String>,
    pub name: Option<String>,
    pub catalog_name: Option<String>,
    pub schema_name: Option<String>,
    pub table_type: Option<TableType>,
    pub data_source_format: Option<DataSourceFormat>,
    pub columns: Vec<ColumnInfo>,
    pub storage_location: Option<String>,
    pub comment: Option<String>,
    pub properties: HashMap<String, String>,
    pub created_at: Option<i64>,
    pub updated_at: Option<i64>,
}

/// Who manages the storage of a table.
#[derive(Debug, Clone, Copy, PartialEq, Eq)]
pub enum TableType {
    Managed,
    External,
}

/// The format in which a table's data is stored.
#[derive(Debug, Clone, Copy, PartialEq, Eq)]
pub enum DataSourceFormat {
    Delta,
    Csv,
    Json,
    Avro,
    Parquet,
    Orc,
    Text,
}

/// A column of a table.
#[derive(Debug)]
pub struct ColumnInfo {
    pub name: Option<String>,
    pub type_text: Option<String>,
    pub type_json: Option<String>,
    pub logical_type: Option<ColumnTypeName>,
    pub type_precision: Option<i32>,
    pub type_scale: Option<i32>,
    pub type_interval_type: Option<String>,
    pub position: Option<i32>,
    pub comment: Option<String>,
    pub nullable: bool,
    pub partition_index: Option<i32>,
}

/// The logical type of a column.
#[derive(Debug, Clone, Copy, PartialEq, Eq)]
pub enum ColumnTypeName {
    Boolean,
    Byte,
    Short,
    Int,
    Long,
    Float,
    Double,
    Date,
    Timestamp,
    TimestampNtz,
    String,
    Binary,
    Decimal,
    Interval,
    Array,
    Struct,
    MapType,
    Char,
    Null,
    UserDefinedType,
    TableType,
}

} // verus!
