//! Building the registry: which listing to run next, and what the listings
//! add up to.
//!
//! The hierarchy is built once, top down and one listing at a time: first
//! the catalogs; then, catalog by catalog, its schemas; then, schema by
//! schema, its tables. The build names the request to send, takes in what
//! the service answered, and names the next. It ends with the whole registry
//! or with the first failure, never with a part of the registry.

use crate::client::Schema;
use crate::client::SchemaView;
use crate::client::Table;
use crate::client::TableView;
use crate::client::catalogs_answer;
use crate::client::error::ClientError;
use crate::client::error::FailureView;
use crate::client::listing::Listing;
use crate::client::listing::ListingView;
use crate::client::listing::PageView;
use crate::client::listing::Request;
use crate::client::listing::RequestView;
use crate::client::listing::Scope;
use crate::client::listing::ScopeView;
use crate::client::listing::lemma_views_push;
use crate::client::listing::views;
use crate::client::misplaced_page;
use crate::client::rest::RestClientError;
use crate::client::rest::types::ListCatalogsResponse;
use crate::client::rest::types::ListSchemasResponse;
use crate::client::rest::types::ListTablesResponse;
use crate::client::schemas_answer;
use crate::client::tables_answer;
use crate::unity::Unity;
use crate::unity::catalog::Catalog;
use crate::unity::catalog::CatalogNodeView;
use crate::unity::error::ErrorKind;
use crate::unity::error::UnityError;
use crate::unity::error::UnityErrorView;
use crate::unity::registry_of;
use crate::unity::schema::SchemaNodeView;
use crate::unity::schema::UnitySchema;
use vstd::pervasive::unreached;
use vstd::prelude::*;

verus! {

/// A page of one of the three listings.
#[derive(Debug)]
pub enum Response {
    Catalogs(ListCatalogsResponse),
    Schemas(ListSchemasResponse),
    Tables(ListTablesResponse),
}

/// What a catalogs listing takes in for an answer to the build.
pub open spec fn catalogs_page(
    scope: ScopeView,
    answer: Result<Response, RestClientError>,
) -> Result<PageView<Seq<char>>, FailureView> {
    match answer {
        Ok(Response::Catalogs(page)) => catalogs_answer(scope, Ok(page)),
        Ok(_) => Err(FailureView::Decode(misplaced_page())),
        Err(error) => Err(error@),
    }
}

/// What a schemas listing takes in for an answer to the build.
pub open spec fn schemas_page(
    scope: ScopeView,
    answer: Result<Response, RestClientError>,
) -> Result<PageView<SchemaView>, FailureView> {
    match answer {
        Ok(Response::Schemas(page)) => schemas_answer(scope, Ok(page)),
        Ok(_) => Err(FailureView::Decode(misplaced_page())),
        Err(error) => Err(error@),
    }
}

/// What a tables listing takes in for an answer to the build.
pub open spec fn tables_page(
    scope: ScopeView,
    answer: Result<Response, RestClientError>,
) -> Result<PageView<TableView>, FailureView> {
    match answer {
        Ok(Response::Tables(page)) => tables_answer(scope, Ok(page)),
        Ok(_) => Err(FailureView::Decode(misplaced_page())),
        Err(error) => Err(error@),
    }
}

/// Where a build stands.
pub enum StageView {
    /// The catalogs are being listed.
    Catalogs(ListingView<Seq<char>>),
    /// The schemas of the catalog in turn are being listed.
    Schemas(ListingView<SchemaView>),
    /// The tables of the schema in turn are being listed.
    Tables(ListingView<TableView>),
    /// The registry is built.
    Done(Map<Seq<char>, CatalogNodeView>),
    /// A listing failed, and with it the build.
    Failed(UnityErrorView),
}

/// A build as contracts speak of it.
pub struct BootstrapView {
    pub stage: StageView,
    /// The catalogs that the service listed, in the order it listed them.
    pub catalogs: Seq<Seq<char>>,
    /// The nodes of the catalogs that are done: the first of `catalogs`.
    /// The catalog in turn is the one after them.
    pub built_catalogs: Seq<CatalogNodeView>,
    /// The schemas that the service listed for the catalog in turn.
    pub schemas: Seq<SchemaView>,
    /// The nodes of the schemas that are done: the first of `schemas`. The
    /// schema in turn is the one after them.
    pub built_schemas: Seq<SchemaNodeView>,
}

impl BootstrapView {
    /// A build that has asked for nothing yet.
    pub open spec fn start() -> BootstrapView {
        BootstrapView {
            stage: StageView::Catalogs(ListingView::start(ScopeView::Catalogs)),
            catalogs: Seq::empty(),
            built_catalogs: Seq::empty(),
            schemas: Seq::empty(),
            built_schemas: Seq::empty(),
        }
    }

    /// The build that a failed listing leaves: the failure and nothing else.
    pub open spec fn failed(failure: FailureView) -> BootstrapView {
        BootstrapView {
            stage: StageView::Failed(UnityErrorView::metadata_fetch(failure)),
            catalogs: Seq::empty(),
            built_catalogs: Seq::empty(),
            schemas: Seq::empty(),
            built_schemas: Seq::empty(),
        }
    }

    /// The name of the catalog in turn.
    pub open spec fn catalog_in_turn(self) -> Seq<char> {
        self.catalogs[self.built_catalogs.len() as int]
    }

    /// The name of the schema in turn.
    pub open spec fn schema_in_turn(self) -> Seq<char> {
        self.schemas[self.built_schemas.len() as int].name
    }

    /// The build as it turns to the next catalog: it lists the schemas of
    /// the first catalog that has no node yet, or, when every catalog has
    /// its node, is done with the registry of all of them.
    pub open spec fn turn_to_catalog(
        catalogs: Seq<Seq<char>>,
        built_catalogs: Seq<CatalogNodeView>,
    ) -> BootstrapView {
        if built_catalogs.len() < catalogs.len() {
            BootstrapView {
                stage: StageView::Schemas(
                    ListingView::start(
                        ScopeView::Schemas { catalog_name: catalogs[built_catalogs.len() as int] },
                    ),
                ),
                catalogs,
                built_catalogs,
                schemas: Seq::empty(),
                built_schemas: Seq::empty(),
            }
        } else {
            BootstrapView {
                stage: StageView::Done(registry_of(built_catalogs)),
                catalogs,
                built_catalogs: Seq::empty(),
                schemas: Seq::empty(),
                built_schemas: Seq::empty(),
            }
        }
    }

    /// The build as it turns to the next schema of the catalog in turn: it
    /// lists the tables of the first schema that has no node yet, or, when
    /// every schema has its node, makes the node of the catalog and turns
    /// to the next catalog.
    pub open spec fn turn_to_schema(
        catalogs: Seq<Seq<char>>,
        built_catalogs: Seq<CatalogNodeView>,
        schemas: Seq<SchemaView>,
        built_schemas: Seq<SchemaNodeView>,
    ) -> BootstrapView {
        let catalog_name = catalogs[built_catalogs.len() as int];
        if built_schemas.len() < schemas.len() {
            BootstrapView {
                stage: StageView::Tables(
                    ListingView::start(
                        ScopeView::Tables {
                            catalog_name,
                            schema_name: schemas[built_schemas.len() as int].name,
                        },
                    ),
                ),
                catalogs,
                built_catalogs,
                schemas,
                built_schemas,
            }
        } else {
            Self::turn_to_catalog(
                catalogs,
                built_catalogs.push(CatalogNodeView::of(catalog_name, built_schemas)),
            )
        }
    }

    /// The build after what the service answered to its request. The
    /// listing in turn takes the answer in. While it is pending the build
    /// waits on its next page. When it is complete the build goes on with
    /// what was listed. When it fails the build fails. A build that is done
    /// or has failed takes in nothing more.
    pub open spec fn accept(self, answer: Result<Response, RestClientError>) -> BootstrapView {
        match self.stage {
            StageView::Catalogs(listing) => {
                let after = listing.accept(catalogs_page(listing.scope, answer));
                match after.outcome() {
                    None => BootstrapView { stage: StageView::Catalogs(after), ..self },
                    Some(Err(failure)) => Self::failed(failure),
                    Some(Ok(catalogs)) => Self::turn_to_catalog(catalogs, self.built_catalogs),
                }
            },
            StageView::Schemas(listing) => {
                let after = listing.accept(schemas_page(listing.scope, answer));
                match after.outcome() {
                    None => BootstrapView { stage: StageView::Schemas(after), ..self },
                    Some(Err(failure)) => Self::failed(failure),
                    Some(Ok(schemas)) => Self::turn_to_schema(
                        self.catalogs,
                        self.built_catalogs,
                        schemas,
                        self.built_schemas,
                    ),
                }
            },
            StageView::Tables(listing) => {
                let after = listing.accept(tables_page(listing.scope, answer));
                match after.outcome() {
                    None => BootstrapView { stage: StageView::Tables(after), ..self },
                    Some(Err(failure)) => Self::failed(failure),
                    Some(Ok(tables)) => Self::turn_to_schema(
                        self.catalogs,
                        self.built_catalogs,
                        self.schemas,
                        self.built_schemas.push(
                            SchemaNodeView::of(
                                self.catalog_in_turn(),
                                self.schema_in_turn(),
                                tables,
                            ),
                        ),
                    ),
                }
            },
            StageView::Done(_) => self,
            StageView::Failed(_) => self,
        }
    }

    /// The request that the build waits on; none once it is done or has
    /// failed.
    pub open spec fn request(self) -> Option<RequestView> {
        match self.stage {
            StageView::Catalogs(listing) => listing.request(),
            StageView::Schemas(listing) => listing.request(),
            StageView::Tables(listing) => listing.request(),
            StageView::Done(_) => None,
            StageView::Failed(_) => None,
        }
    }

    /// What the build came to, once it is settled: the registry or the
    /// failure.
    pub open spec fn outcome(self) -> Option<Result<Map<Seq<char>, CatalogNodeView>, UnityErrorView>> {
        match self.stage {
            StageView::Done(registry) => Some(Ok(registry)),
            StageView::Failed(failure) => Some(Err(failure)),
            _ => None,
        }
    }

    /// The build after a run of answers, taken in one after the other.
    pub open spec fn accept_all(self, answers: Seq<Result<Response, RestClientError>>) -> BootstrapView
        decreases answers.len(),
    {
        if answers.len() == 0 {
            self
        } else {
            self.accept_all(answers.drop_last()).accept(answers.last())
        }
    }

    /// What holds of a build at every step: the listing in turn is pending
    /// and is the listing of the catalog, or schema, in turn; the nodes that
    /// are done are those of the first listed catalogs, or schemas, under
    /// their names; and a registry that is done holds exactly the catalogs
    /// that were listed, each under its name.
    pub open spec fn well_formed(self) -> bool {
        &&& self.built_catalogs.len() <= self.catalogs.len()
        &&& forall|i: int|
            0 <= i < self.built_catalogs.len() ==> (#[trigger] self.built_catalogs[i]).name
                == self.catalogs[i]
        &&& self.built_schemas.len() <= self.schemas.len()
        &&& forall|j: int|
            0 <= j < self.built_schemas.len() ==> (#[trigger] self.built_schemas[j]).name
                == self.schemas[j].name
        &&& match self.stage {
            StageView::Catalogs(listing) => {
                &&& listing.progress is Pending
                &&& listing.scope == ScopeView::Catalogs
                &&& self.catalogs.len() == 0
                &&& self.schemas.len() == 0
            },
            StageView::Schemas(listing) => {
                &&& listing.progress is Pending
                &&& self.built_catalogs.len() < self.catalogs.len()
                &&& listing.scope == ScopeView::Schemas { catalog_name: self.catalog_in_turn() }
                &&& self.schemas.len() == 0
            },
            StageView::Tables(listing) => {
                &&& listing.progress is Pending
                &&& self.built_catalogs.len() < self.catalogs.len()
                &&& self.built_schemas.len() < self.schemas.len()
                &&& listing.scope == ScopeView::Tables {
                    catalog_name: self.catalog_in_turn(),
                    schema_name: self.schema_in_turn(),
                }
            },
            StageView::Done(registry) => {
                &&& registry.dom() == self.catalogs.to_set()
                &&& forall|name: Seq<char>|
                    registry.contains_key(name) ==> (#[trigger] registry[name]).name == name
                &&& self.built_catalogs.len() == 0
                &&& self.schemas.len() == 0
            },
            StageView::Failed(failure) => {
                &&& failure.kind == ErrorKind::MetadataFetch
                &&& self.catalogs.len() == 0
                &&& self.schemas.len() == 0
            },
        }
    }
}

/// Whether the nodes are those of the first of the listed catalogs, each
/// under the name it was listed with.
pub open spec fn catalogs_match(catalogs: Seq<Seq<char>>, built: Seq<CatalogNodeView>) -> bool {
    &&& built.len() <= catalogs.len()
    &&& forall|i: int| 0 <= i < built.len() ==> (#[trigger] built[i]).name == catalogs[i]
}

/// Whether the nodes are those of the first of the listed schemas, each
/// under the name it was listed with.
pub open spec fn schemas_match(schemas: Seq<SchemaView>, built: Seq<SchemaNodeView>) -> bool {
    &&& built.len() <= schemas.len()
    &&& forall|j: int| 0 <= j < built.len() ==> (#[trigger] built[j]).name == schemas[j].name
}

/// A registry made of one node for each listed catalog holds exactly the
/// listed catalogs, each under its own name.
pub proof fn lemma_registry_holds_listed(catalogs: Seq<Seq<char>>, built: Seq<CatalogNodeView>)
    requires
        catalogs_match(catalogs, built),
        built.len() == catalogs.len(),
    ensures
        registry_of(built).dom() == catalogs.to_set(),
        forall|name: Seq<char>|
            registry_of(built).contains_key(name) ==> (#[trigger] registry_of(built)[name]).name
                == name,
{
    let name_of = |catalog: CatalogNodeView| catalog.name;
    assert forall|name: Seq<char>|
        registry_of(built).contains_key(name) <==> catalogs.to_set().contains(name) by {
        crate::unity::name_map::lemma_by_name_holds(built, name_of, name);
        if registry_of(built).contains_key(name) {
            let i = choose|i: int| 0 <= i < built.len() && #[trigger] name_of(built[i]) == name;
            assert(catalogs[i] == name);
        }
        if catalogs.to_set().contains(name) {
            let i = choose|i: int| 0 <= i < catalogs.len() && catalogs[i] == name;
            assert(name_of(built[i]) == name);
        }
    }
    assert(registry_of(built).dom() =~= catalogs.to_set());
    assert forall|name: Seq<char>| registry_of(built).contains_key(name) implies (
    #[trigger] registry_of(built)[name]).name == name by {
        crate::unity::name_map::lemma_by_name_holds_items(built, name_of, name);
    }
}

/// Turning to the next catalog keeps the build well formed.
pub proof fn lemma_turn_to_catalog_well_formed(
    catalogs: Seq<Seq<char>>,
    built: Seq<CatalogNodeView>,
)
    requires
        catalogs_match(catalogs, built),
    ensures
        BootstrapView::turn_to_catalog(catalogs, built).well_formed(),
{
    if built.len() == catalogs.len() {
        lemma_registry_holds_listed(catalogs, built);
    }
}

/// Turning to the next schema keeps the build well formed.
pub proof fn lemma_turn_to_schema_well_formed(
    catalogs: Seq<Seq<char>>,
    built_catalogs: Seq<CatalogNodeView>,
    schemas: Seq<SchemaView>,
    built_schemas: Seq<SchemaNodeView>,
)
    requires
        catalogs_match(catalogs, built_catalogs),
        built_catalogs.len() < catalogs.len(),
        schemas_match(schemas, built_schemas),
    ensures
        BootstrapView::turn_to_schema(
            catalogs,
            built_catalogs,
            schemas,
            built_schemas,
        ).well_formed(),
{
    if built_schemas.len() >= schemas.len() {
        let node = CatalogNodeView::of(catalogs[built_catalogs.len() as int], built_schemas);
        assert(catalogs_match(catalogs, built_catalogs.push(node)));
        lemma_turn_to_catalog_well_formed(catalogs, built_catalogs.push(node));
    }
}

/// Every step keeps the build well formed: whatever the service answers, a
/// build that was started with `start` is well formed for good.
pub proof fn lemma_accept_well_formed(build: BootstrapView, answer: Result<Response, RestClientError>)
    requires
        build.well_formed(),
    ensures
        build.accept(answer).well_formed(),
{
    match build.stage {
        StageView::Catalogs(listing) => {
            let after = listing.accept(catalogs_page(listing.scope, answer));
            if let Some(Ok(catalogs)) = after.outcome() {
                lemma_turn_to_catalog_well_formed(catalogs, build.built_catalogs);
            }
        },
        StageView::Schemas(listing) => {
            let after = listing.accept(schemas_page(listing.scope, answer));
            if let Some(Ok(schemas)) = after.outcome() {
                lemma_turn_to_schema_well_formed(
                    build.catalogs,
                    build.built_catalogs,
                    schemas,
                    build.built_schemas,
                );
            }
        },
        StageView::Tables(listing) => {
            let after = listing.accept(tables_page(listing.scope, answer));
            if let Some(Ok(tables)) = after.outcome() {
                let node = SchemaNodeView::of(
                    build.catalog_in_turn(),
                    build.schema_in_turn(),
                    tables,
                );
                assert(schemas_match(build.schemas, build.built_schemas.push(node)));
                lemma_turn_to_schema_well_formed(
                    build.catalogs,
                    build.built_catalogs,
                    build.schemas,
                    build.built_schemas.push(node),
                );
            }
        },
        StageView::Done(_) => {},
        StageView::Failed(_) => {},
    }
}

/// A build is well formed from its start and whatever the service answers.
pub proof fn lemma_build_stays_well_formed(answers: Seq<Result<Response, RestClientError>>)
    ensures
        BootstrapView::start().accept_all(answers).well_formed(),
    decreases answers.len(),
{
    if answers.len() > 0 {
        lemma_build_stays_well_formed(answers.drop_last());
        lemma_accept_well_formed(
            BootstrapView::start().accept_all(answers.drop_last()),
            answers.last(),
        );
    }
}

/// A build that is done or has failed stays as it is, whatever is answered
/// after that.
pub proof fn lemma_settled_build_is_final(
    build: BootstrapView,
    later: Seq<Result<Response, RestClientError>>,
)
    requires
        build.outcome() is Some,
    ensures
        build.accept_all(later) == build,
    decreases later.len(),
{
    if later.len() > 0 {
        lemma_settled_build_is_final(build, later.drop_last());
    }
}

/// A failed request fails the build, on whatever page of whatever listing
/// it comes: the build ends with a `MetadataFetch` failure that holds the
/// failure of the request, no registry comes out of it, and nothing that is
/// answered later changes that.
pub proof fn lemma_failed_request_fails_build(
    build: BootstrapView,
    error: RestClientError,
    later: Seq<Result<Response, RestClientError>>,
)
    requires
        build.well_formed(),
        build.request() is Some,
    ensures
        build.accept(Err(error)).accept_all(later).outcome() == Some(
            Err::<Map<Seq<char>, CatalogNodeView>, UnityErrorView>(
                UnityErrorView::metadata_fetch(error@),
            ),
        ),
        build.accept(Err(error)).accept_all(later).request() is None,
{
    lemma_settled_build_is_final(build.accept(Err(error)), later);
}

enum Stage {
    Catalogs(Listing<crate::client::Catalog>),
    Schemas(Listing<Schema>),
    Tables(Listing<Table>),
    Done(Unity),
    Failed(UnityError),
}

/// The build of the registry, one request at a time.
///
/// Send what `request` names, hand what the service answered to `accept`,
/// and go on until `request` names nothing. `finish` then gives the registry
/// or the failure.
pub struct Bootstrap {
    stage: Stage,
    catalogs: Vec<crate::client::Catalog>,
    built_catalogs: Vec<Catalog>,
    schemas: Vec<Schema>,
    built_schemas: Vec<UnitySchema>,
}

impl View for Bootstrap {
    type V = BootstrapView;

    closed spec fn view(&self) -> BootstrapView {
        BootstrapView {
            stage: match self.stage {
                Stage::Catalogs(listing) => StageView::Catalogs(listing@),
                Stage::Schemas(listing) => StageView::Schemas(listing@),
                Stage::Tables(listing) => StageView::Tables(listing@),
                Stage::Done(registry) => StageView::Done(registry@),
                Stage::Failed(failure) => StageView::Failed(failure@),
            },
            catalogs: views(self.catalogs@),
            built_catalogs: views(self.built_catalogs@),
            schemas: views(self.schemas@),
            built_schemas: views(self.built_schemas@),
        }
    }
}

impl Bootstrap {
    #[verifier::type_invariant]
    spec fn well_formed(self) -> bool {
        self@.well_formed()
    }

    /// A build that has asked for nothing yet. Its first request is for the
    /// first page of the catalogs.
    pub fn new() -> (build: Bootstrap)
        ensures
            build@ == BootstrapView::start(),
    {
        let build = Bootstrap {
            stage: Stage::Catalogs(Listing::new(Scope::Catalogs)),
            catalogs: Vec::new(),
            built_catalogs: Vec::new(),
            schemas: Vec::new(),
            built_schemas: Vec::new(),
        };
        assert(build@ =~= BootstrapView::start()) by {
            assert(views(build.catalogs@) =~= Seq::<Seq<char>>::empty());
            assert(views(build.built_catalogs@) =~= Seq::<CatalogNodeView>::empty());
            assert(views(build.schemas@) =~= Seq::<SchemaView>::empty());
            assert(views(build.built_schemas@) =~= Seq::<SchemaNodeView>::empty());
        }
        build
    }

    /// The build that a failed listing leaves.
    fn failed(error: ClientError) -> (build: Bootstrap)
        ensures
            build@ == BootstrapView::failed(error@),
    {
        let build = Bootstrap {
            stage: Stage::Failed(UnityError::from(error)),
            catalogs: Vec::new(),
            built_catalogs: Vec::new(),
            schemas: Vec::new(),
            built_schemas: Vec::new(),
        };
        assert(build@ =~= BootstrapView::failed(error@)) by {
            assert(views(build.catalogs@) =~= Seq::<Seq<char>>::empty());
            assert(views(build.built_catalogs@) =~= Seq::<CatalogNodeView>::empty());
            assert(views(build.schemas@) =~= Seq::<SchemaView>::empty());
            assert(views(build.built_schemas@) =~= Seq::<SchemaNodeView>::empty());
        }
        build
    }

    /// Turns to the next catalog.
    fn turn_to_catalog(catalogs: Vec<crate::client::Catalog>, built_catalogs: Vec<Catalog>) -> (build:
        Bootstrap)
        requires
            catalogs_match(views(catalogs@), views(built_catalogs@)),
        ensures
            build@ == BootstrapView::turn_to_catalog(views(catalogs@), views(built_catalogs@)),
    {
        proof {
            lemma_turn_to_catalog_well_formed(views(catalogs@), views(built_catalogs@));
        }
        let schemas: Vec<Schema> = Vec::new();
        let built_schemas: Vec<UnitySchema> = Vec::new();
        assert(views(schemas@) =~= Seq::<SchemaView>::empty());
        assert(views(built_schemas@) =~= Seq::<SchemaNodeView>::empty());
        if built_catalogs.len() < catalogs.len() {
            let catalog_name = catalogs[built_catalogs.len()].name().to_owned();
            let listing = Listing::new(Scope::Schemas { catalog_name });
            Bootstrap { stage: Stage::Schemas(listing), catalogs, built_catalogs, schemas, built_schemas }
        } else {
            match Unity::try_new(Ok(built_catalogs)) {
                Ok(registry) => {
                    let built: Vec<Catalog> = Vec::new();
                    assert(views(built@) =~= Seq::<CatalogNodeView>::empty());
                    Bootstrap {
                        stage: Stage::Done(registry),
                        catalogs,
                        built_catalogs: built,
                        schemas,
                        built_schemas,
                    }
                },
                Err(_) => unreached(),
            }
        }
    }

    /// Turns to the next schema of the catalog in turn.
    fn turn_to_schema(
        catalogs: Vec<crate::client::Catalog>,
        built_catalogs: Vec<Catalog>,
        schemas: Vec<Schema>,
        built_schemas: Vec<UnitySchema>,
    ) -> (build: Bootstrap)
        requires
            catalogs_match(views(catalogs@), views(built_catalogs@)),
            built_catalogs@.len() < catalogs@.len(),
            schemas_match(views(schemas@), views(built_schemas@)),
        ensures
            build@ == BootstrapView::turn_to_schema(
                views(catalogs@),
                views(built_catalogs@),
                views(schemas@),
                views(built_schemas@),
            ),
    {
        proof {
            lemma_turn_to_schema_well_formed(
                views(catalogs@),
                views(built_catalogs@),
                views(schemas@),
                views(built_schemas@),
            );
        }
        let catalog = &catalogs[built_catalogs.len()];
        if built_schemas.len() < schemas.len() {
            let listing = Listing::new(
                Scope::Tables {
                    catalog_name: catalog.name().to_owned(),
                    schema_name: schemas[built_schemas.len()].name().to_owned(),
                },
            );
            Bootstrap { stage: Stage::Tables(listing), catalogs, built_catalogs, schemas, built_schemas }
        } else {
            match Catalog::try_new(catalog.name(), Ok(built_schemas)) {
                Ok(node) => {
                    let mut built = built_catalogs;
                    proof {
                        lemma_views_push(built@, node);
                    }
                    built.push(node);
                    Bootstrap::turn_to_catalog(catalogs, built)
                },
                Err(_) => unreached(),
            }
        }
    }

    /// The request to send next; none once the build is done or has failed.
    pub fn request(&self) -> (request: Option<Request>)
        ensures
            request is Some == self@.request() is Some,
            request matches Some(r) ==> Some(r@) == self@.request(),
    {
        match &self.stage {
            Stage::Catalogs(listing) => listing.request(),
            Stage::Schemas(listing) => listing.request(),
            Stage::Tables(listing) => listing.request(),
            Stage::Done(_) => None,
            Stage::Failed(_) => None,
        }
    }

    /// Takes in what the service answered to the pending request: a page, or
    /// the failure to get one.
    pub fn accept(self, answer: Result<Response, RestClientError>) -> (after: Bootstrap)
        ensures
            after@ == self@.accept(answer),
    {
        proof {
            use_type_invariant(&self);
            lemma_accept_well_formed(self@, answer);
        }
        let Bootstrap { stage, catalogs, built_catalogs, schemas, built_schemas } = self;
        match stage {
            Stage::Catalogs(listing) => {
                let after = match answer {
                    Ok(Response::Catalogs(page)) => listing.accept(Ok(page)),
                    Ok(_) => listing.fail(
                        ClientError::Decode("the page belongs to another listing".to_owned()),
                    ),
                    Err(error) => listing.accept(Err(error)),
                };
                if after.is_pending() {
                    Bootstrap {
                        stage: Stage::Catalogs(after),
                        catalogs,
                        built_catalogs,
                        schemas,
                        built_schemas,
                    }
                } else {
                    match after.finish() {
                        Some(Ok(listed)) => Bootstrap::turn_to_catalog(listed, built_catalogs),
                        Some(Err(error)) => Bootstrap::failed(error),
                        None => unreached(),
                    }
                }
            },
            Stage::Schemas(listing) => {
                let after = match answer {
                    Ok(Response::Schemas(page)) => listing.accept(Ok(page)),
                    Ok(_) => listing.fail(
                        ClientError::Decode("the page belongs to another listing".to_owned()),
                    ),
                    Err(error) => listing.accept(Err(error)),
                };
                if after.is_pending() {
                    Bootstrap {
                        stage: Stage::Schemas(after),
                        catalogs,
                        built_catalogs,
                        schemas,
                        built_schemas,
                    }
                } else {
                    match after.finish() {
                        Some(Ok(listed)) => Bootstrap::turn_to_schema(
                            catalogs,
                            built_catalogs,
                            listed,
                            built_schemas,
                        ),
                        Some(Err(error)) => Bootstrap::failed(error),
                        None => unreached(),
                    }
                }
            },
            Stage::Tables(listing) => {
                let after = match answer {
                    Ok(Response::Tables(page)) => listing.accept(Ok(page)),
                    Ok(_) => listing.fail(
                        ClientError::Decode("the page belongs to another listing".to_owned()),
                    ),
                    Err(error) => listing.accept(Err(error)),
                };
                if after.is_pending() {
                    Bootstrap {
                        stage: Stage::Tables(after),
                        catalogs,
                        built_catalogs,
                        schemas,
                        built_schemas,
                    }
                } else {
                    match after.finish() {
                        Some(Ok(listed)) => {
                            let node = UnitySchema::try_new(
                                catalogs[built_catalogs.len()].name(),
                                schemas[built_schemas.len()].name(),
                                Ok(listed),
                            );
                            match node {
                                Ok(schema) => {
                                    let mut built = built_schemas;
                                    proof {
                                        lemma_views_push(built@, schema);
                                    }
                                    built.push(schema);
                                    Bootstrap::turn_to_schema(
                                        catalogs,
                                        built_catalogs,
                                        schemas,
                                        built,
                                    )
                                },
                                Err(_) => unreached(),
                            }
                        },
                        Some(Err(error)) => Bootstrap::failed(error),
                        None => unreached(),
                    }
                }
            },
            Stage::Done(registry) => Bootstrap {
                stage: Stage::Done(registry),
                catalogs,
                built_catalogs,
                schemas,
                built_schemas,
            },
            Stage::Failed(failure) => Bootstrap {
                stage: Stage::Failed(failure),
                catalogs,
                built_catalogs,
                schemas,
                built_schemas,
            },
        }
    }

    /// What the build came to: nothing while a request is pending, else the
    /// whole registry, or the failure and no registry.
    pub fn finish(self) -> (outcome: Option<Result<Unity, UnityError>>)
        ensures
            self@.well_formed(),
            match outcome {
                None => self@.outcome() is None,
                Some(Ok(registry)) => self@.outcome() == Some(
                    Ok::<Map<Seq<char>, CatalogNodeView>, UnityErrorView>(registry@),
                ),
                Some(Err(failure)) => self@.outcome() == Some(
                    Err::<Map<Seq<char>, CatalogNodeView>, UnityErrorView>(failure@),
                ),
            },
    {
        proof {
            use_type_invariant(&self);
        }
        match self.stage {
            Stage::Done(registry) => Some(Ok(registry)),
            Stage::Failed(failure) => Some(Err(failure)),
            _ => None,
        }
    }
}

} // verus!
