//! The catalog node: the schemas of one catalog, by name.

use crate::client::listing::lemma_views_push;
use crate::client::listing::views;
use crate::unity::error::UnityError;
use crate::unity::error::UnityErrorView;
use crate::unity::name_map::NameMap;
use crate::unity::name_map::by_name;
use crate::unity::name_map::distinct;
use crate::unity::name_map::lemma_names_are_the_keys;
use crate::unity::name_map::texts;
use crate::unity::schema::SchemaNodeView;
use crate::unity::schema::UnitySchema;
use vstd::prelude::*;

verus! {

/// A catalog node as contracts speak of it.
pub struct CatalogNodeView {
    pub name: Seq<char>,
    /// The schema nodes of the catalog, by name.
    pub schemas: Map<Seq<char>, SchemaNodeView>,
}

impl CatalogNodeView {
    /// The catalog that holds the given schema nodes, each under its name.
    pub open spec fn of(name: Seq<char>, schemas: Seq<SchemaNodeView>) -> CatalogNodeView {
        CatalogNodeView { name, schemas: by_name(schemas, |schema: SchemaNodeView| schema.name) }
    }
}

/// The schemas of one catalog, as the service listed them.
pub struct Catalog {
    name: String,
    schemas: NameMap<UnitySchema>,
}

impl View for Catalog {
    type V = CatalogNodeView;

    closed spec fn view(&self) -> CatalogNodeView {
        CatalogNodeView {
            name: self.name@,
            schemas: self.schemas@.map_values(|schema: UnitySchema| schema@),
        }
    }
}

impl Catalog {
    /// The node of catalog `catalog_name`, from the nodes of its schemas. A
    /// failure to list the schemas, or to build one of their nodes, fails
    /// the catalog node with that failure.
    pub fn try_new(catalog_name: &str, schemas: Result<Vec<UnitySchema>, UnityError>) -> (node:
        Result<Catalog, UnityError>)
        ensures
            match schemas {
                Ok(nodes) => node matches Ok(catalog) && catalog@ == CatalogNodeView::of(
                    catalog_name@,
                    views(nodes@),
                ),
                Err(error) => node matches Err(failure) && failure@ == error@,
            },
    {
        match schemas {
            Ok(nodes) => {
                let catalog = Catalog { name: catalog_name.to_owned(), schemas: NameMap::new() };
                assert(catalog@.schemas =~= Map::<Seq<char>, SchemaNodeView>::empty());
                Ok(catalog.fetch(nodes))
            },
            Err(error) => Err(error),
        }
    }

    /// The node with the given schema nodes added, each under its name.
    fn fetch(self, nodes: Vec<UnitySchema>) -> (node: Catalog)
        requires
            self@.schemas == Map::<Seq<char>, SchemaNodeView>::empty(),
        ensures
            node@ == CatalogNodeView::of(self@.name, views(nodes@)),
    {
        let ghost name_of = |schema: SchemaNodeView| schema.name;
        let mut schemas = self.schemas;
        assert(views(nodes@.take(0)) =~= Seq::<SchemaNodeView>::empty());
        for schema in it: nodes
            invariant
                name_of == |schema: SchemaNodeView| schema.name,
                schemas@.map_values(|schema: UnitySchema| schema@) == by_name(
                    views(nodes@.take(it.index() as int)),
                    name_of,
                ),
        {
            let ghost seen = nodes@.take(it.index() as int);
            let ghost before = schemas@;
            assert(nodes@.take(it.index() + 1) =~= seen.push(schema));
            proof {
                lemma_views_push(seen, schema);
            }
            assert(views(seen.push(schema)).drop_last() =~= views(seen));
            let name = schema.name().to_owned();
            schemas = schemas.with(name, schema);
            assert(schemas@.map_values(|schema: UnitySchema| schema@) =~= before.map_values(
                |schema: UnitySchema| schema@,
            ).insert(schema@.name, schema@));
        }
        assert(nodes@.take(nodes@.len() as int) =~= nodes@);
        Catalog { name: self.name, schemas }
    }

    /// The name of the catalog.
    pub fn name(&self) -> (name: &str)
        ensures
            name@ == self@.name,
    {
        self.name.as_str()
    }

    /// The names of the schemas of the catalog, each once, in no order that
    /// callers may count on.
    pub fn schema_names(&self) -> (names: Vec<String>)
        ensures
            distinct(texts(names@)),
            texts(names@).to_set() == self@.schemas.dom(),
    {
        let names = self.schemas.names();
        assert(self@.schemas.dom() =~= self.schemas@.dom());
        names
    }

    /// The node of the schema of exactly that name; none if the catalog
    /// lists no such schema, which is no failure.
    pub fn schema(&self, name: &str) -> (node: Option<&UnitySchema>)
        ensures
            node is Some == self@.schemas.contains_key(name@),
            node matches Some(schema) ==> schema@ == self@.schemas[name@],
    {
        self.schemas.get(name)
    }

    /// Schemas cannot be added: the catalog mirrors the service.
    pub fn register_schema(&self, name: &str) -> (refusal: UnityError)
        ensures
            refusal@ == UnityErrorView::unsupported("register schema"@),
    {
        UnityError::unsupported("register schema")
    }

    /// Schemas cannot be removed: the catalog mirrors the service.
    pub fn deregister_schema(&self, name: &str) -> (refusal: UnityError)
        ensures
            refusal@ == UnityErrorView::unsupported("deregister schema"@),
    {
        UnityError::unsupported("deregister schema")
    }
}

/// Every schema that a catalog names resolves, and a name that it does not
/// name resolves to nothing.
pub proof fn lemma_schema_lookup(catalog: CatalogNodeView, names: Seq<Seq<char>>)
    requires
        names.to_set() == catalog.schemas.dom(),
    ensures
        forall|i: int| 0 <= i < names.len() ==> catalog.schemas.contains_key(#[trigger] names[i]),
        forall|name: Seq<char>| !names.contains(name) ==> !catalog.schemas.contains_key(name),
{
    lemma_names_are_the_keys(catalog.schemas, names);
}

} // verus!
