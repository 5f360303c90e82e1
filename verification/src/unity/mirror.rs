//! What a build comes to: the mirror of the service.
//!
//! A service is described here by what it holds and by the pages in which
//! it hands that out. Against such a service the build asks for every page
//! of every listing, and ends with the registry that holds every catalog,
//! schema and table of the service under its name.

use crate::client::SchemaView;
use crate::client::TableView;
use crate::client::all_named;
use crate::client::catalogs_of;
use crate::client::listing::ListingView;
use crate::client::listing::PageView;
use crate::client::listing::ScopeView;
use crate::client::listing::concat_pages;
use crate::client::listing::is_last_page;
use crate::client::listing::is_paging;
use crate::client::listing::lemma_pending_through_inner_pages;
use crate::client::listing::served;
use crate::client::rest::RestClientError;
use crate::client::rest::types::ListCatalogsResponse;
use crate::client::rest::types::ListSchemasResponse;
use crate::client::rest::types::ListTablesResponse;
use crate::client::schemas_of;
use crate::client::tables_of;
use crate::client::text_of;
use crate::unity::bootstrap::BootstrapView;
use crate::unity::bootstrap::Response;
use crate::unity::bootstrap::StageView;
use crate::unity::catalog::CatalogNodeView;
use crate::unity::error::UnityErrorView;
use crate::unity::registry_of;
use crate::unity::schema::SchemaNodeView;
use vstd::prelude::*;

verus! {

/// The pages of the catalogs listing, as a listing takes them in.
pub open spec fn catalog_pages(pages: Seq<ListCatalogsResponse>) -> Seq<PageView<Seq<char>>> {
    pages.map_values(
        |page: ListCatalogsResponse|
            PageView {
                records: catalogs_of(page.catalogs@),
                next_page_token: text_of(page.next_page_token),
            },
    )
}

/// The pages of the schemas listing of a catalog, as a listing takes them
/// in.
pub open spec fn schema_pages(
    catalog_name: Seq<char>,
    pages: Seq<ListSchemasResponse>,
) -> Seq<PageView<SchemaView>> {
    pages.map_values(
        |page: ListSchemasResponse|
            PageView {
                records: schemas_of(catalog_name, page.schemas@),
                next_page_token: text_of(page.next_page_token),
            },
    )
}

/// The pages of the tables listing of a schema, as a listing takes them in.
pub open spec fn table_pages(
    catalog_name: Seq<char>,
    schema_name: Seq<char>,
    pages: Seq<ListTablesResponse>,
) -> Seq<PageView<TableView>> {
    pages.map_values(
        |page: ListTablesResponse|
            PageView {
                records: tables_of(catalog_name, schema_name, page.tables@),
                next_page_token: text_of(page.next_page_token),
            },
    )
}

/// What a service answers to the requests of the tables listing of one
/// schema.
pub open spec fn table_answers(pages: Seq<ListTablesResponse>) -> Seq<
    Result<Response, RestClientError>,
> {
    pages.map_values(
        |page: ListTablesResponse| Ok::<Response, RestClientError>(Response::Tables(page)),
    )
}

/// What a service answers to the requests of the schemas listing of one
/// catalog.
pub open spec fn schema_answers(pages: Seq<ListSchemasResponse>) -> Seq<
    Result<Response, RestClientError>,
> {
    pages.map_values(
        |page: ListSchemasResponse| Ok::<Response, RestClientError>(Response::Schemas(page)),
    )
}

/// What a service answers to the requests of the catalogs listing.
pub open spec fn catalog_answers(pages: Seq<ListCatalogsResponse>) -> Seq<
    Result<Response, RestClientError>,
> {
    pages.map_values(
        |page: ListCatalogsResponse| Ok::<Response, RestClientError>(Response::Catalogs(page)),
    )
}

/// A run of answers taken in after another is taken in as one run.
pub proof fn lemma_accept_all_add(
    build: BootstrapView,
    first: Seq<Result<Response, RestClientError>>,
    second: Seq<Result<Response, RestClientError>>,
)
    ensures
        build.accept_all(first + second) == build.accept_all(first).accept_all(second),
    decreases second.len(),
{
    if second.len() == 0 {
        assert(first + second =~= first);
    } else {
        lemma_accept_all_add(build, first, second.drop_last());
        assert((first + second).drop_last() =~= first + second.drop_last());
        assert((first + second).last() == second.last());
    }
}

/// While the pages of the catalogs listing name a next page, the build
/// stays with the catalogs listing, which takes the pages in.
pub proof fn lemma_catalogs_listing_goes_on(
    build: BootstrapView,
    listing: ListingView<Seq<char>>,
    pages: Seq<ListCatalogsResponse>,
)
    requires
        build.stage == StageView::Catalogs(listing),
        listing.progress is Pending,
        listing.scope == ScopeView::Catalogs,
        forall|i: int|
            0 <= i < pages.len() ==> !is_last_page(
                #[trigger] catalog_pages(pages)[i].next_page_token,
            ),
    ensures
        listing.accept_all(served(catalog_pages(pages))).progress is Pending,
        listing.accept_all(served(catalog_pages(pages))).scope == listing.scope,
        build.accept_all(catalog_answers(pages)) == (BootstrapView {
            stage: StageView::Catalogs(listing.accept_all(served(catalog_pages(pages)))),
            ..build
        }),
    decreases pages.len(),
{
    if pages.len() > 0 {
        let earlier = pages.drop_last();
        assert forall|i: int| 0 <= i < earlier.len() implies !is_last_page(
            #[trigger] catalog_pages(earlier)[i].next_page_token,
        ) by {
            assert(catalog_pages(earlier)[i] == catalog_pages(pages)[i]);
        }
        lemma_catalogs_listing_goes_on(build, listing, earlier);
        assert(catalog_answers(pages).drop_last() =~= catalog_answers(earlier));
        assert(served(catalog_pages(pages)).drop_last() =~= served(catalog_pages(earlier)));
        assert(!is_last_page(catalog_pages(pages)[pages.len() - 1].next_page_token));
    }
}

/// While the pages of a schemas listing name a next page, the build stays
/// with that listing, which takes the pages in.
pub proof fn lemma_schemas_listing_goes_on(
    build: BootstrapView,
    listing: ListingView<SchemaView>,
    catalog_name: Seq<char>,
    pages: Seq<ListSchemasResponse>,
)
    requires
        build.stage == StageView::Schemas(listing),
        listing.progress is Pending,
        listing.scope == (ScopeView::Schemas { catalog_name }),
        forall|i: int|
            0 <= i < pages.len() ==> !is_last_page(
                #[trigger] schema_pages(catalog_name, pages)[i].next_page_token,
            ),
    ensures
        listing.accept_all(served(schema_pages(catalog_name, pages))).progress is Pending,
        listing.accept_all(served(schema_pages(catalog_name, pages))).scope == listing.scope,
        build.accept_all(schema_answers(pages)) == (BootstrapView {
            stage: StageView::Schemas(
                listing.accept_all(served(schema_pages(catalog_name, pages))),
            ),
            ..build
        }),
    decreases pages.len(),
{
    if pages.len() > 0 {
        let earlier = pages.drop_last();
        assert forall|i: int| 0 <= i < earlier.len() implies !is_last_page(
            #[trigger] schema_pages(catalog_name, earlier)[i].next_page_token,
        ) by {
            assert(schema_pages(catalog_name, earlier)[i] == schema_pages(catalog_name, pages)[i]);
        }
        lemma_schemas_listing_goes_on(build, listing, catalog_name, earlier);
        assert(schema_answers(pages).drop_last() =~= schema_answers(earlier));
        assert(served(schema_pages(catalog_name, pages)).drop_last() =~= served(
            schema_pages(catalog_name, earlier),
        ));
        assert(!is_last_page(
            schema_pages(catalog_name, pages)[pages.len() - 1].next_page_token,
        ));
    }
}

/// Whether every record of every page has a name.
pub open spec fn all_pages_named(pages: Seq<ListTablesResponse>) -> bool {
    forall|i: int| 0 <= i < pages.len() ==> all_named((#[trigger] pages[i]).tables@)
}

/// While the pages of a tables listing name a next page, the build stays
/// with that listing, which takes the pages in.
pub proof fn lemma_tables_listing_goes_on(
    build: BootstrapView,
    listing: ListingView<TableView>,
    catalog_name: Seq<char>,
    schema_name: Seq<char>,
    pages: Seq<ListTablesResponse>,
)
    requires
        build.stage == StageView::Tables(listing),
        listing.progress is Pending,
        listing.scope == (ScopeView::Tables { catalog_name, schema_name }),
        all_pages_named(pages),
        forall|i: int|
            0 <= i < pages.len() ==> !is_last_page(
                #[trigger] table_pages(catalog_name, schema_name, pages)[i].next_page_token,
            ),
    ensures
        listing.accept_all(
            served(table_pages(catalog_name, schema_name, pages)),
        ).progress is Pending,
        listing.accept_all(served(table_pages(catalog_name, schema_name, pages))).scope
            == listing.scope,
        build.accept_all(table_answers(pages)) == (BootstrapView {
            stage: StageView::Tables(
                listing.accept_all(served(table_pages(catalog_name, schema_name, pages))),
            ),
            ..build
        }),
    decreases pages.len(),
{
    if pages.len() > 0 {
        let earlier = pages.drop_last();
        assert forall|i: int| 0 <= i < earlier.len() implies !is_last_page(
            #[trigger] table_pages(catalog_name, schema_name, earlier)[i].next_page_token,
        ) by {
            assert(table_pages(catalog_name, schema_name, earlier)[i] == table_pages(
                catalog_name,
                schema_name,
                pages,
            )[i]);
        }
        assert forall|i: int| 0 <= i < earlier.len() implies all_named(
            (#[trigger] earlier[i]).tables@,
        ) by {
            assert(earlier[i] == pages[i]);
        }
        lemma_tables_listing_goes_on(build, listing, catalog_name, schema_name, earlier);
        assert(table_answers(pages).drop_last() =~= table_answers(earlier));
        assert(served(table_pages(catalog_name, schema_name, pages)).drop_last() =~= served(
            table_pages(catalog_name, schema_name, earlier),
        ));
        assert(!is_last_page(
            table_pages(catalog_name, schema_name, pages)[pages.len() - 1].next_page_token,
        ));
        assert(all_named(pages[pages.len() - 1].tables@));
    }
}

/// The catalogs listing in full: after all its pages the build holds the
/// catalogs of all pages, in page order, and turns to the first of them.
pub proof fn lemma_catalogs_listed(pages: Seq<ListCatalogsResponse>)
    requires
        is_paging(catalog_pages(pages)),
    ensures
        BootstrapView::start().accept_all(catalog_answers(pages)) == BootstrapView::turn_to_catalog(
            concat_pages(catalog_pages(pages)),
            Seq::empty(),
        ),
{
    let build = BootstrapView::start();
    let listing = ListingView::<Seq<char>>::start(ScopeView::Catalogs);
    let earlier = pages.drop_last();
    assert forall|i: int| 0 <= i < earlier.len() implies !is_last_page(
        #[trigger] catalog_pages(earlier)[i].next_page_token,
    ) by {
        assert(catalog_pages(earlier)[i] == catalog_pages(pages)[i]);
    }
    lemma_catalogs_listing_goes_on(build, listing, earlier);
    lemma_pending_through_inner_pages(ScopeView::Catalogs, catalog_pages(earlier));
    assert(catalog_answers(pages).drop_last() =~= catalog_answers(earlier));
    assert(catalog_pages(pages).drop_last() =~= catalog_pages(earlier));
    assert(catalog_pages(pages).last() == catalog_pages(pages)[pages.len() - 1]);
}

/// A schemas listing in full: after all its pages the build holds the
/// schemas of all pages, in page order, and turns to the first of them.
pub proof fn lemma_schemas_listed(
    catalogs: Seq<Seq<char>>,
    built_catalogs: Seq<CatalogNodeView>,
    pages: Seq<ListSchemasResponse>,
)
    requires
        built_catalogs.len() < catalogs.len(),
        is_paging(schema_pages(catalogs[built_catalogs.len() as int], pages)),
    ensures
        BootstrapView::turn_to_catalog(catalogs, built_catalogs).accept_all(schema_answers(pages))
            == BootstrapView::turn_to_schema(
            catalogs,
            built_catalogs,
            concat_pages(schema_pages(catalogs[built_catalogs.len() as int], pages)),
            Seq::empty(),
        ),
{
    let catalog_name = catalogs[built_catalogs.len() as int];
    let build = BootstrapView::turn_to_catalog(catalogs, built_catalogs);
    let scope = ScopeView::Schemas { catalog_name };
    let listing = ListingView::<SchemaView>::start(scope);
    let earlier = pages.drop_last();
    assert forall|i: int| 0 <= i < earlier.len() implies !is_last_page(
        #[trigger] schema_pages(catalog_name, earlier)[i].next_page_token,
    ) by {
        assert(schema_pages(catalog_name, earlier)[i] == schema_pages(catalog_name, pages)[i]);
    }
    lemma_schemas_listing_goes_on(build, listing, catalog_name, earlier);
    lemma_pending_through_inner_pages(scope, schema_pages(catalog_name, earlier));
    assert(schema_answers(pages).drop_last() =~= schema_answers(earlier));
    assert(schema_pages(catalog_name, pages).drop_last() =~= schema_pages(catalog_name, earlier));
    assert(schema_pages(catalog_name, pages).last() == schema_pages(
        catalog_name,
        pages,
    )[pages.len() - 1]);
}

/// A tables listing in full: after all its pages the build has the node of
/// the schema, which holds the tables of all pages, and turns to the next
/// schema.
pub proof fn lemma_tables_listed(
    catalogs: Seq<Seq<char>>,
    built_catalogs: Seq<CatalogNodeView>,
    schemas: Seq<SchemaView>,
    built_schemas: Seq<SchemaNodeView>,
    pages: Seq<ListTablesResponse>,
)
    requires
        built_catalogs.len() < catalogs.len(),
        built_schemas.len() < schemas.len(),
        all_pages_named(pages),
        is_paging(
            table_pages(
                catalogs[built_catalogs.len() as int],
                schemas[built_schemas.len() as int].name,
                pages,
            ),
        ),
    ensures
        BootstrapView::turn_to_schema(catalogs, built_catalogs, schemas, built_schemas).accept_all(
            table_answers(pages),
        ) == BootstrapView::turn_to_schema(
            catalogs,
            built_catalogs,
            schemas,
            built_schemas.push(
                SchemaNodeView::of(
                    catalogs[built_catalogs.len() as int],
                    schemas[built_schemas.len() as int].name,
                    concat_pages(
                        table_pages(
                            catalogs[built_catalogs.len() as int],
                            schemas[built_schemas.len() as int].name,
                            pages,
                        ),
                    ),
                ),
            ),
        ),
{
    let catalog_name = catalogs[built_catalogs.len() as int];
    let schema_name = schemas[built_schemas.len() as int].name;
    let build = BootstrapView::turn_to_schema(catalogs, built_catalogs, schemas, built_schemas);
    let scope = ScopeView::Tables { catalog_name, schema_name };
    let listing = ListingView::<TableView>::start(scope);
    let earlier = pages.drop_last();
    assert forall|i: int| 0 <= i < earlier.len() implies !is_last_page(
        #[trigger] table_pages(catalog_name, schema_name, earlier)[i].next_page_token,
    ) by {
        assert(table_pages(catalog_name, schema_name, earlier)[i] == table_pages(
            catalog_name,
            schema_name,
            pages,
        )[i]);
    }
    assert forall|i: int| 0 <= i < earlier.len() implies all_named(
        (#[trigger] earlier[i]).tables@,
    ) by {
        assert(earlier[i] == pages[i]);
    }
    lemma_tables_listing_goes_on(build, listing, catalog_name, schema_name, earlier);
    lemma_pending_through_inner_pages(scope, table_pages(catalog_name, schema_name, earlier));
    assert(table_answers(pages).drop_last() =~= table_answers(earlier));
    assert(table_pages(catalog_name, schema_name, pages).drop_last() =~= table_pages(
        catalog_name,
        schema_name,
        earlier,
    ));
    assert(table_pages(catalog_name, schema_name, pages).last() == table_pages(
        catalog_name,
        schema_name,
        pages,
    )[pages.len() - 1]);
    assert(all_named(pages[pages.len() - 1].tables@));
}

/// What a service holds of one catalog, and how it hands it out: the pages
/// of the schemas listing, and for each schema, in the order in which the
/// pages list them, the pages of its tables listing.
pub struct CatalogContents {
    pub schema_pages: Seq<ListSchemasResponse>,
    pub table_pages: Seq<Seq<ListTablesResponse>>,
}

impl CatalogContents {
    /// The schemas that the service lists for the catalog.
    pub open spec fn schemas(self, catalog_name: Seq<char>) -> Seq<SchemaView> {
        concat_pages(schema_pages(catalog_name, self.schema_pages))
    }

    /// Whether the pages are those of complete listings, one tables listing
    /// for each listed schema, and every table record has a name.
    pub open spec fn is_served(self, catalog_name: Seq<char>) -> bool {
        &&& is_paging(schema_pages(catalog_name, self.schema_pages))
        &&& self.table_pages.len() == self.schemas(catalog_name).len()
        &&& forall|j: int|
            0 <= j < self.table_pages.len() ==> {
                &&& all_pages_named(#[trigger] self.table_pages[j])
                &&& is_paging(
                    table_pages(
                        catalog_name,
                        self.schemas(catalog_name)[j].name,
                        self.table_pages[j],
                    ),
                )
            }
    }

    /// The node of the schema that is listed at place `j`: it holds the
    /// tables of all pages of its tables listing.
    pub open spec fn schema_node(self, catalog_name: Seq<char>, j: int) -> SchemaNodeView {
        SchemaNodeView::of(
            catalog_name,
            self.schemas(catalog_name)[j].name,
            concat_pages(
                table_pages(
                    catalog_name,
                    self.schemas(catalog_name)[j].name,
                    self.table_pages[j],
                ),
            ),
        )
    }

    /// The nodes of the first `count` listed schemas.
    pub open spec fn schema_nodes(self, catalog_name: Seq<char>, count: nat) -> Seq<SchemaNodeView> {
        Seq::new(count, |j: int| self.schema_node(catalog_name, j))
    }

    /// The node of the catalog: it holds the node of every listed schema.
    pub open spec fn node(self, catalog_name: Seq<char>) -> CatalogNodeView {
        CatalogNodeView::of(
            catalog_name,
            self.schema_nodes(catalog_name, self.table_pages.len()),
        )
    }

    /// The answers to the tables listings of the first `count` listed
    /// schemas, one listing after the other.
    pub open spec fn tables_answers(self, count: nat) -> Seq<Result<Response, RestClientError>>
        decreases count,
    {
        if count == 0 {
            Seq::empty()
        } else {
            self.tables_answers((count - 1) as nat) + table_answers(self.table_pages[count - 1])
        }
    }

    /// The answers to every request that the build makes for the catalog:
    /// its schemas listing, then the tables listing of each schema.
    pub open spec fn answers(self) -> Seq<Result<Response, RestClientError>> {
        schema_answers(self.schema_pages) + self.tables_answers(self.table_pages.len())
    }
}

/// What a service holds, and how it hands it out: the pages of the catalogs
/// listing, and for each catalog, in the order in which the pages list
/// them, what the service holds of it.
pub struct ServiceContents {
    pub catalog_pages: Seq<ListCatalogsResponse>,
    pub catalogs: Seq<CatalogContents>,
}

impl ServiceContents {
    /// The catalogs that the service lists.
    pub open spec fn listed(self) -> Seq<Seq<char>> {
        concat_pages(catalog_pages(self.catalog_pages))
    }

    /// Whether the pages are those of complete listings, one schemas
    /// listing for each listed catalog and one tables listing for each
    /// listed schema, and every table record has a name.
    pub open spec fn is_served(self) -> bool {
        &&& is_paging(catalog_pages(self.catalog_pages))
        &&& self.catalogs.len() == self.listed().len()
        &&& forall|i: int|
            0 <= i < self.catalogs.len() ==> (#[trigger] self.catalogs[i]).is_served(
                self.listed()[i],
            )
    }

    /// The nodes of the first `count` listed catalogs.
    pub open spec fn catalog_nodes(self, count: nat) -> Seq<CatalogNodeView> {
        Seq::new(count, |i: int| self.catalogs[i].node(self.listed()[i]))
    }

    /// The mirror of the service: the registry that holds, under its name,
    /// the node of every listed catalog, which holds the node of every
    /// schema listed for it, which holds every table listed for it.
    pub open spec fn mirror(self) -> Map<Seq<char>, CatalogNodeView> {
        registry_of(self.catalog_nodes(self.catalogs.len()))
    }

    /// The answers to every request that the build makes for the first
    /// `count` listed catalogs, one catalog after the other.
    pub open spec fn catalogs_answers(self, count: nat) -> Seq<Result<Response, RestClientError>>
        decreases count,
    {
        if count == 0 {
            Seq::empty()
        } else {
            self.catalogs_answers((count - 1) as nat) + self.catalogs[count - 1].answers()
        }
    }

    /// The answers to every request of the build, in the order in which the
    /// build makes them.
    pub open spec fn answers(self) -> Seq<Result<Response, RestClientError>> {
        catalog_answers(self.catalog_pages) + self.catalogs_answers(self.catalogs.len())
    }
}

/// After the tables listings of the first `count` schemas of the catalog in
/// turn, the build has their nodes and turns to the schema after them.
pub proof fn lemma_schemas_built(
    catalogs: Seq<Seq<char>>,
    built_catalogs: Seq<CatalogNodeView>,
    contents: CatalogContents,
    count: nat,
)
    requires
        built_catalogs.len() < catalogs.len(),
        contents.is_served(catalogs[built_catalogs.len() as int]),
        count <= contents.table_pages.len(),
    ensures
        BootstrapView::turn_to_schema(
            catalogs,
            built_catalogs,
            contents.schemas(catalogs[built_catalogs.len() as int]),
            Seq::empty(),
        ).accept_all(contents.tables_answers(count)) == BootstrapView::turn_to_schema(
            catalogs,
            built_catalogs,
            contents.schemas(catalogs[built_catalogs.len() as int]),
            contents.schema_nodes(catalogs[built_catalogs.len() as int], count),
        ),
    decreases count,
{
    let catalog_name = catalogs[built_catalogs.len() as int];
    let schemas = contents.schemas(catalog_name);
    let from = BootstrapView::turn_to_schema(catalogs, built_catalogs, schemas, Seq::empty());
    if count == 0 {
        assert(contents.schema_nodes(catalog_name, 0) =~= Seq::<SchemaNodeView>::empty());
    } else {
        let before = (count - 1) as nat;
        let nodes = contents.schema_nodes(catalog_name, before);
        lemma_schemas_built(catalogs, built_catalogs, contents, before);
        lemma_accept_all_add(
            from,
            contents.tables_answers(before),
            table_answers(contents.table_pages[before as int]),
        );
        lemma_tables_listed(
            catalogs,
            built_catalogs,
            schemas,
            nodes,
            contents.table_pages[before as int],
        );
        assert(contents.schema_nodes(catalog_name, count) =~= nodes.push(
            contents.schema_node(catalog_name, before as int),
        ));
    }
}

/// After every listing of the catalog in turn, the build has its node and
/// turns to the catalog after it.
pub proof fn lemma_catalog_built(
    catalogs: Seq<Seq<char>>,
    built_catalogs: Seq<CatalogNodeView>,
    contents: CatalogContents,
)
    requires
        built_catalogs.len() < catalogs.len(),
        contents.is_served(catalogs[built_catalogs.len() as int]),
    ensures
        BootstrapView::turn_to_catalog(catalogs, built_catalogs).accept_all(contents.answers())
            == BootstrapView::turn_to_catalog(
            catalogs,
            built_catalogs.push(contents.node(catalogs[built_catalogs.len() as int])),
        ),
{
    let from = BootstrapView::turn_to_catalog(catalogs, built_catalogs);
    lemma_accept_all_add(
        from,
        schema_answers(contents.schema_pages),
        contents.tables_answers(contents.table_pages.len()),
    );
    lemma_schemas_listed(catalogs, built_catalogs, contents.schema_pages);
    lemma_schemas_built(catalogs, built_catalogs, contents, contents.table_pages.len());
}

/// After every listing of the first `count` catalogs, the build has their
/// nodes and turns to the catalog after them.
pub proof fn lemma_catalogs_built(service: ServiceContents, count: nat)
    requires
        service.is_served(),
        count <= service.catalogs.len(),
    ensures
        BootstrapView::turn_to_catalog(service.listed(), Seq::empty()).accept_all(
            service.catalogs_answers(count),
        ) == BootstrapView::turn_to_catalog(service.listed(), service.catalog_nodes(count)),
    decreases count,
{
    let from = BootstrapView::turn_to_catalog(service.listed(), Seq::empty());
    if count == 0 {
        assert(service.catalog_nodes(0) =~= Seq::<CatalogNodeView>::empty());
    } else {
        let before = (count - 1) as nat;
        let nodes = service.catalog_nodes(before);
        lemma_catalogs_built(service, before);
        lemma_accept_all_add(
            from,
            service.catalogs_answers(before),
            service.catalogs[before as int].answers(),
        );
        lemma_catalog_built(service.listed(), nodes, service.catalogs[before as int]);
        assert(service.catalog_nodes(count) =~= nodes.push(
            service.catalogs[before as int].node(service.listed()[before as int]),
        ));
    }
}

/// The build mirrors the service. Against a service that serves every
/// listing in full, in pages of any size, the build ends when the last
/// answer is in, with the registry that is the mirror of the service.
pub proof fn lemma_build_mirrors_service(service: ServiceContents)
    requires
        service.is_served(),
    ensures
        BootstrapView::start().accept_all(service.answers()).outcome() == Some(
            Ok::<Map<Seq<char>, CatalogNodeView>, UnityErrorView>(
                service.mirror(),
            ),
        ),
        BootstrapView::start().accept_all(service.answers()).request() is None,
{
    lemma_accept_all_add(
        BootstrapView::start(),
        catalog_answers(service.catalog_pages),
        service.catalogs_answers(service.catalogs.len()),
    );
    lemma_catalogs_listed(service.catalog_pages);
    lemma_catalogs_built(service, service.catalogs.len());
}

} // verus!
