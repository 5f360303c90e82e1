//! The typed client: listings of one hierarchy level and the descriptors
//! they produce.

use crate::client::error::ClientError;
use crate::client::error::FailureView;
use crate::client::listing::Listing;
use crate::client::listing::ListingView;
use crate::client::listing::PageView;
use crate::client::listing::Request;
use crate::client::listing::RequestView;
use crate::client::listing::Scope;
use crate::client::listing::ScopeView;
use crate::client::listing::lemma_views_push;
use crate::client::listing::views;
use crate::client::rest::RestClientError;
use crate::client::rest::UnityRestClient;
use crate::client::rest::catalogs_url;
use crate::client::rest::fits;
use crate::client::rest::schemas_url;
use crate::client::rest::slice_of;
use crate::client::rest::tables_url;
use crate::client::rest::types::CatalogInfo;
use crate::client::rest::types::ListCatalogsResponse;
use crate::client::rest::types::ListSchemasResponse;
use crate::client::rest::types::ListTablesResponse;
use crate::client::rest::types::SchemaInfo;
use crate::client::rest::types::TableInfo;
use crate::client::rest::url_parsed;
use vstd::prelude::*;

pub mod error;
pub mod listing;
pub mod rest;

verus! {

/// A catalog that the service listed.
#[derive(Debug)]
pub struct Catalog {
    name: String,
}

impl View for Catalog {
    type V = Seq<char>;

    /// A listed catalog is known by its name alone.
    closed spec fn view(&self) -> Seq<char> {
        self.name@
    }
}

impl Catalog {
    /// The catalog of that name.
    pub fn new(name: String) -> (catalog: Catalog)
        ensures
            catalog@ == name@,
    {
        Catalog { name }
    }

    /// The name of the catalog.
    pub fn name(&self) -> (name: &str)
        ensures
            name@ == self@,
    {
        self.name.as_str()
    }
}

/// What is known of a listed schema: its name and the catalog that owns it.
pub struct SchemaView {
    pub catalog_name: Seq<char>,
    pub name: Seq<char>,
}

/// A schema that the service listed under a catalog.
#[derive(Debug)]
pub struct Schema {
    _catalog_name: String,
    name: String,
}

impl View for Schema {
    type V = SchemaView;

    closed spec fn view(&self) -> SchemaView {
        SchemaView { catalog_name: self._catalog_name@, name: self.name@ }
    }
}

impl Schema {
    /// The schema of that name in the catalog of that name.
    pub fn new(catalog_name: String, name: String) -> (schema: Schema)
        ensures
            schema@ == (SchemaView { catalog_name: catalog_name@, name: name@ }),
    {
        Schema { _catalog_name: catalog_name, name }
    }

    /// The name of the catalog that owns the schema.
    pub fn _catalog_name(&self) -> (catalog_name: &str)
        ensures
            catalog_name@ == self@.catalog_name,
    {
        self._catalog_name.as_str()
    }

    /// The name of the schema.
    pub fn name(&self) -> (name: &str)
        ensures
            name@ == self@.name,
    {
        self.name.as_str()
    }
}

/// What is known of a listed table. The storage location is where its data
/// lies; a table that the service lists without one cannot be opened.
pub struct TableView {
    pub catalog_name: Seq<char>,
    pub schema_name: Seq<char>,
    pub name: Seq<char>,
    pub storage_location: Option<Seq<char>>,
}

/// A table that the service listed under a schema.
#[derive(Debug)]
pub struct Table {
    _catalog_name: String,
    _schema_name: String,
    name: String,
    storage_location: Option<String>,
}

/// The characters of a string that may be missing.
pub open spec fn text_of(text: Option<String>) -> Option<Seq<char>> {
    match text {
        Some(text) => Some(text@),
        None => None,
    }
}

impl View for Table {
    type V = TableView;

    closed spec fn view(&self) -> TableView {
        TableView {
            catalog_name: self._catalog_name@,
            schema_name: self._schema_name@,
            name: self.name@,
            storage_location: text_of(self.storage_location),
        }
    }
}

impl Table {
    /// The table of that name in that schema of that catalog, with the
    /// storage location that the service gave for it, if it gave one.
    pub fn new(
        catalog_name: String,
        schema_name: String,
        name: String,
        storage_location: Option<String>,
    ) -> (table: Table)
        ensures
            table@ == (TableView {
                catalog_name: catalog_name@,
                schema_name: schema_name@,
                name: name@,
                storage_location: text_of(storage_location),
            }),
    {
        Table { _catalog_name: catalog_name, _schema_name: schema_name, name, storage_location }
    }

    /// The name of the catalog that owns the table's schema.
    pub fn _catalog_name(&self) -> (catalog_name: &str)
        ensures
            catalog_name@ == self@.catalog_name,
    {
        self._catalog_name.as_str()
    }

    /// The name of the schema that owns the table.
    pub fn _schema_name(&self) -> (schema_name: &str)
        ensures
            schema_name@ == self@.schema_name,
    {
        self._schema_name.as_str()
    }

    /// The name of the table.
    pub fn name(&self) -> (name: &str)
        ensures
            name@ == self@.name,
    {
        self.name.as_str()
    }

    /// Where the data of the table lies, if the service said so.
    pub fn storage_location(&self) -> (location: Option<&str>)
        ensures
            location is Some == self@.storage_location is Some,
            location matches Some(path) ==> self@.storage_location == Some(path@),
    {
        match &self.storage_location {
            Some(path) => Some(path.as_str()),
            None => None,
        }
    }

    /// What a record of the tables listing of `schema_name` in `catalog_name`
    /// describes: the table is owned by the schema that was listed, whatever
    /// owner the record itself names. A record without a name describes no
    /// table.
    pub open spec fn described_by(
        catalog_name: Seq<char>,
        schema_name: Seq<char>,
        info: TableInfo,
    ) -> Option<TableView> {
        match info.name {
            Some(name) => Some(
                TableView {
                    catalog_name,
                    schema_name,
                    name: name@,
                    storage_location: text_of(info.storage_location),
                },
            ),
            None => None,
        }
    }

    /// What a record describes by itself, where it names its table and the
    /// schema and catalog that own it.
    pub open spec fn described(info: TableInfo) -> Option<TableView> {
        match (info.catalog_name, info.schema_name, info.name) {
            (Some(catalog_name), Some(schema_name), Some(name)) => Some(
                TableView {
                    catalog_name: catalog_name@,
                    schema_name: schema_name@,
                    name: name@,
                    storage_location: text_of(info.storage_location),
                },
            ),
            _ => None,
        }
    }

    /// The table that a record describes by itself; none if the record
    /// lacks the name of the table, of its schema or of its catalog.
    pub fn try_from_info(info: TableInfo) -> (table: Option<Table>)
        ensures
            table is Some == Table::described(info) is Some,
            table matches Some(t) ==> Some(t@) == Table::described(info),
    {
        match (info.catalog_name, info.schema_name, info.name) {
            (Some(catalog_name), Some(schema_name), Some(name)) => Some(
                Table::new(catalog_name, schema_name, name, info.storage_location),
            ),
            _ => None,
        }
    }

    /// The table that a record of a tables listing describes, if it has a name.
    pub fn from_info(catalog_name: &str, schema_name: &str, info: TableInfo) -> (table: Option<
        Table,
    >)
        ensures
            table is Some == Table::described_by(catalog_name@, schema_name@, info) is Some,
            table matches Some(t) ==> Some(t@) == Table::described_by(
                catalog_name@,
                schema_name@,
                info,
            ),
    {
        match info.name {
            Some(name) => Some(
                Table::new(
                    catalog_name.to_owned(),
                    schema_name.to_owned(),
                    name,
                    info.storage_location,
                ),
            ),
            None => None,
        }
    }
}

/// The catalogs that the records of a page describe, in order.
pub open spec fn catalogs_of(infos: Seq<CatalogInfo>) -> Seq<Seq<char>> {
    infos.map_values(|info: CatalogInfo| info.name@)
}

/// The schemas that the records of a page of the schemas listing of
/// `catalog_name` describe, in order. Each is owned by the catalog that was
/// listed, whatever owner the record itself names.
pub open spec fn schemas_of(catalog_name: Seq<char>, infos: Seq<SchemaInfo>) -> Seq<SchemaView> {
    infos.map_values(|info: SchemaInfo| SchemaView { catalog_name, name: info.name@ })
}

/// Whether every record of a page of a tables listing has a name.
pub open spec fn all_named(infos: Seq<TableInfo>) -> bool {
    forall|i: int| 0 <= i < infos.len() ==> (#[trigger] infos[i]).name is Some
}

/// The tables that the records of a page of the tables listing of
/// `schema_name` in `catalog_name` describe, in order, where each has a name.
pub open spec fn tables_of(
    catalog_name: Seq<char>,
    schema_name: Seq<char>,
    infos: Seq<TableInfo>,
) -> Seq<TableView> {
    infos.map_values(
        |info: TableInfo| Table::described_by(catalog_name, schema_name, info).unwrap(),
    )
}

/// The cause that a listing fails with when a page of another listing is
/// handed to it.
pub open spec fn misplaced_page() -> Seq<char> {
    "the page belongs to another listing"@
}

/// The cause that a tables listing fails with when a record has no name.
pub open spec fn unnamed_table() -> Seq<char> {
    "a table record has no name"@
}

/// What a catalogs listing takes in for an answer of the service.
pub open spec fn catalogs_answer(
    scope: ScopeView,
    answer: Result<ListCatalogsResponse, RestClientError>,
) -> Result<PageView<Seq<char>>, FailureView> {
    match answer {
        Ok(page) => match scope {
            ScopeView::Catalogs => Ok(
                PageView {
                    records: catalogs_of(page.catalogs@),
                    next_page_token: text_of(page.next_page_token),
                },
            ),
            _ => Err(FailureView::Decode(misplaced_page())),
        },
        Err(error) => Err(error@),
    }
}

/// What a schemas listing takes in for an answer of the service.
pub open spec fn schemas_answer(
    scope: ScopeView,
    answer: Result<ListSchemasResponse, RestClientError>,
) -> Result<PageView<SchemaView>, FailureView> {
    match answer {
        Ok(page) => match scope {
            ScopeView::Schemas { catalog_name } => Ok(
                PageView {
                    records: schemas_of(catalog_name, page.schemas@),
                    next_page_token: text_of(page.next_page_token),
                },
            ),
            _ => Err(FailureView::Decode(misplaced_page())),
        },
        Err(error) => Err(error@),
    }
}

/// What a tables listing takes in for an answer of the service. A page with
/// a record that has no name counts as malformed.
pub open spec fn tables_answer(
    scope: ScopeView,
    answer: Result<ListTablesResponse, RestClientError>,
) -> Result<PageView<TableView>, FailureView> {
    match answer {
        Ok(page) => match scope {
            ScopeView::Tables { catalog_name, schema_name } => if all_named(page.tables@) {
                Ok(
                    PageView {
                        records: tables_of(catalog_name, schema_name, page.tables@),
                        next_page_token: text_of(page.next_page_token),
                    },
                )
            } else {
                Err(FailureView::Decode(unnamed_table()))
            },
            _ => Err(FailureView::Decode(misplaced_page())),
        },
        Err(error) => Err(error@),
    }
}

/// The catalogs that the records of a page describe.
pub fn catalogs_from(infos: Vec<CatalogInfo>) -> (catalogs: Vec<Catalog>)
    ensures
        views(catalogs@) == catalogs_of(infos@),
{
    let mut catalogs: Vec<Catalog> = Vec::new();
    assert(views(catalogs@) =~= catalogs_of(infos@.take(0)));
    for info in it: infos
        invariant
            views(catalogs@) == catalogs_of(infos@.take(it.index() as int)),
    {
        let ghost seen = infos@.take(it.index() as int);
        proof {
            lemma_views_push(catalogs@, Catalog { name: info.name });
        }
        assert(infos@.take(it.index() + 1) =~= seen.push(info));
        assert(catalogs_of(seen.push(info)) =~= catalogs_of(seen).push(info.name@));
        catalogs.push(Catalog::new(info.name));
    }
    assert(infos@.take(infos@.len() as int) =~= infos@);
    catalogs
}

/// The schemas that the records of a page of the schemas listing of
/// `catalog_name` describe.
pub fn schemas_from(catalog_name: &str, infos: Vec<SchemaInfo>) -> (schemas: Vec<Schema>)
    ensures
        views(schemas@) == schemas_of(catalog_name@, infos@),
{
    let mut schemas: Vec<Schema> = Vec::new();
    assert(views(schemas@) =~= schemas_of(catalog_name@, infos@.take(0)));
    for info in it: infos
        invariant
            views(schemas@) == schemas_of(catalog_name@, infos@.take(it.index() as int)),
    {
        let ghost seen = infos@.take(it.index() as int);
        let schema = Schema::new(catalog_name.to_owned(), info.name);
        proof {
            lemma_views_push(schemas@, schema);
        }
        assert(infos@.take(it.index() + 1) =~= seen.push(info));
        assert(schemas_of(catalog_name@, seen.push(info)) =~= schemas_of(
            catalog_name@,
            seen,
        ).push(schema@));
        schemas.push(schema);
    }
    assert(infos@.take(infos@.len() as int) =~= infos@);
    schemas
}

/// The tables that the records of a page of the tables listing of
/// `schema_name` in `catalog_name` describe; none if a record has no name.
pub fn tables_from(catalog_name: &str, schema_name: &str, infos: Vec<TableInfo>) -> (tables:
    Option<Vec<Table>>)
    ensures
        tables is Some == all_named(infos@),
        tables matches Some(found) ==> views(found@) == tables_of(
            catalog_name@,
            schema_name@,
            infos@,
        ),
{
    let mut tables: Vec<Table> = Vec::new();
    assert(views(tables@) =~= tables_of(catalog_name@, schema_name@, infos@.take(0)));
    for info in it: infos
        invariant
            all_named(infos@.take(it.index() as int)),
            views(tables@) == tables_of(
                catalog_name@,
                schema_name@,
                infos@.take(it.index() as int),
            ),
    {
        let ghost seen = infos@.take(it.index() as int);
        assert(infos@.take(it.index() + 1) =~= seen.push(info));
        assert(infos@[it.index() as int] == info);
        match Table::from_info(catalog_name, schema_name, info) {
            Some(table) => {
                proof {
                    lemma_views_push(tables@, table);
                }
                assert(tables_of(catalog_name@, schema_name@, seen.push(info)) =~= tables_of(
                    catalog_name@,
                    schema_name@,
                    seen,
                ).push(table@));
                tables.push(table);
            },
            None => {
                return None;
            },
        }
    }
    assert(infos@.take(infos@.len() as int) =~= infos@);
    Some(tables)
}

impl Listing<Catalog> {
    /// Takes in what the service answered to the pending request.
    pub fn accept(self, answer: Result<ListCatalogsResponse, RestClientError>) -> (after: Listing<
        Catalog,
    >)
        ensures
            after@ == self@.accept(catalogs_answer(self@.scope, answer)),
    {
        match answer {
            Ok(page) => match self.scope() {
                Scope::Catalogs => {
                    let catalogs = catalogs_from(page.catalogs);
                    self.accept_page(catalogs, page.next_page_token)
                },
                _ => self.fail(
                    ClientError::Decode("the page belongs to another listing".to_owned()),
                ),
            },
            Err(error) => self.fail(ClientError::from(error)),
        }
    }
}

impl Listing<Schema> {
    /// Takes in what the service answered to the pending request.
    pub fn accept(self, answer: Result<ListSchemasResponse, RestClientError>) -> (after: Listing<
        Schema,
    >)
        ensures
            after@ == self@.accept(schemas_answer(self@.scope, answer)),
    {
        match answer {
            Ok(page) => match self.scope() {
                Scope::Schemas { catalog_name } => {
                    let schemas = schemas_from(catalog_name.as_str(), page.schemas);
                    self.accept_page(schemas, page.next_page_token)
                },
                _ => self.fail(
                    ClientError::Decode("the page belongs to another listing".to_owned()),
                ),
            },
            Err(error) => self.fail(ClientError::from(error)),
        }
    }
}

impl Listing<Table> {
    /// Takes in what the service answered to the pending request.
    pub fn accept(self, answer: Result<ListTablesResponse, RestClientError>) -> (after: Listing<
        Table,
    >)
        ensures
            after@ == self@.accept(tables_answer(self@.scope, answer)),
    {
        match answer {
            Ok(page) => match self.scope() {
                Scope::Tables { catalog_name, schema_name } => {
                    match tables_from(catalog_name.as_str(), schema_name.as_str(), page.tables) {
                        Some(tables) => self.accept_page(tables, page.next_page_token),
                        None => self.fail(
                            ClientError::Decode("a table record has no name".to_owned()),
                        ),
                    }
                },
                _ => self.fail(
                    ClientError::Decode("the page belongs to another listing".to_owned()),
                ),
            },
            Err(error) => self.fail(ClientError::from(error)),
        }
    }
}

/// The URL that sends a request to the service at `base`. No page size is
/// asked for.
pub open spec fn request_url(base: Seq<char>, request: RequestView) -> Option<Seq<char>> {
    match request.scope {
        ScopeView::Catalogs => catalogs_url(base, request.page_token, None),
        ScopeView::Schemas { catalog_name } => schemas_url(
            base,
            catalog_name,
            request.page_token,
            None,
        ),
        ScopeView::Tables { catalog_name, schema_name } => tables_url(
            base,
            catalog_name,
            schema_name,
            request.page_token,
            None,
        ),
    }
}

/// The string slice behind a string that may be missing.
pub fn as_slice(text: &Option<String>) -> (slice: Option<&str>)
    ensures
        slice_of(slice) == text_of(*text),
{
    match text {
        Some(text) => Some(text.as_str()),
        None => None,
    }
}

/// The client of one service: it starts the listings and spells out their
/// requests.
#[derive(Debug)]
pub struct UnityClient {
    rest_client: UnityRestClient,
}

impl View for UnityClient {
    type V = Seq<char>;

    /// The base endpoint of the service, as the URL library spells it.
    closed spec fn view(&self) -> Seq<char> {
        self.rest_client@
    }
}

impl UnityClient {
    /// The client of the service at `endpoint`, which is an absolute URL of
    /// no more than `MAX_TEXT_BYTES` bytes.
    pub fn new(endpoint: &str) -> (client: UnityClient)
        requires
            fits(endpoint@),
            url_parsed(endpoint@) is Some,
        ensures
            Some(client@) == url_parsed(endpoint@),
    {
        let rest_client = UnityRestClient::new(endpoint);
        UnityClient { rest_client }
    }

    /// The client of the service at `endpoint`; none if that is no absolute
    /// URL, or one of more than `MAX_TEXT_BYTES` bytes.
    pub fn try_new(endpoint: &str) -> (client: Option<UnityClient>)
        ensures
            client is Some == (fits(endpoint@) && url_parsed(endpoint@) is Some),
            client matches Some(c) ==> Some(c@) == url_parsed(endpoint@),
    {
        match UnityRestClient::try_new(endpoint) {
            Some(_) => Some(UnityClient::new(endpoint)),
            None => None,
        }
    }

    /// Starts the listing of all catalogs.
    pub fn list_catalogs(&self) -> (listing: Listing<Catalog>)
        ensures
            listing@ == ListingView::<Seq<char>>::start(ScopeView::Catalogs),
    {
        Listing::new(Scope::Catalogs)
    }

    /// Starts the listing of the schemas of a catalog.
    pub fn list_schemas(&self, catalog_name: &str) -> (listing: Listing<Schema>)
        ensures
            listing@ == ListingView::<SchemaView>::start(
                ScopeView::Schemas { catalog_name: catalog_name@ },
            ),
    {
        Listing::new(Scope::Schemas { catalog_name: catalog_name.to_owned() })
    }

    /// Starts the listing of the tables of a schema of a catalog.
    pub fn list_tables(&self, catalog_name: &str, schema_name: &str) -> (listing: Listing<Table>)
        ensures
            listing@ == ListingView::<TableView>::start(
                ScopeView::Tables { catalog_name: catalog_name@, schema_name: schema_name@ },
            ),
    {
        Listing::new(
            Scope::Tables {
                catalog_name: catalog_name.to_owned(),
                schema_name: schema_name.to_owned(),
            },
        )
    }

    /// The URL to get for a request; none where the URL library takes no
    /// such URL, or a name or token is longer than `MAX_TEXT_BYTES` bytes.
    pub fn url(&self, request: &Request) -> (url: Option<String>)
        ensures
            text_of(url) == request_url(self@, request@),
    {
        let page_token = as_slice(&request.page_token);
        match &request.scope {
            Scope::Catalogs => self.rest_client.list_catalogs(page_token, None),
            Scope::Schemas { catalog_name } => self.rest_client.list_schemas(
                catalog_name.as_str(),
                page_token,
                None,
            ),
            Scope::Tables { catalog_name, schema_name } => self.rest_client.list_tables(
                catalog_name.as_str(),
                schema_name.as_str(),
                page_token,
                None,
            ),
        }
    }
}

} // verus!
