//! The mirror of the service's hierarchy, looked up by name.

use crate::client::listing::lemma_views_push;
use crate::client::listing::views;
use crate::unity::catalog::Catalog;
use crate::unity::catalog::CatalogNodeView;
use crate::unity::error::UnityError;
use crate::unity::error::UnityErrorView;
use crate::unity::name_map::NameMap;
use crate::unity::name_map::by_name;
use crate::unity::name_map::distinct;
use crate::unity::name_map::lemma_names_are_the_keys;
use crate::unity::name_map::texts;
use vstd::prelude::*;

pub mod bootstrap;
pub mod catalog;
pub mod error;
pub mod mirror;
pub mod name_map;
pub mod schema;
pub mod table;

verus! {

/// The registry that holds the given catalog nodes, each under its name.
pub open spec fn registry_of(catalogs: Seq<CatalogNodeView>) -> Map<Seq<char>, CatalogNodeView> {
    by_name(catalogs, |catalog: CatalogNodeView| catalog.name)
}

/// Unity Catalog
pub struct Unity {
    catalogs: NameMap<Catalog>,
}

impl View for Unity {
    type V = Map<Seq<char>, CatalogNodeView>;

    /// The catalog nodes of the registry, by name.
    closed spec fn view(&self) -> Map<Seq<char>, CatalogNodeView> {
        self.catalogs@.map_values(|catalog: Catalog| catalog@)
    }
}

impl Unity {
    /// The registry of the given catalog nodes. A failure to list the
    /// catalogs, or to build one of their nodes, leaves no registry: the
    /// failure is handed on.
    pub fn try_new(catalogs: Result<Vec<Catalog>, UnityError>) -> (registry: Result<
        Unity,
        UnityError,
    >)
        ensures
            match catalogs {
                Ok(nodes) => registry matches Ok(unity) && unity@ == registry_of(views(nodes@)),
                Err(error) => registry matches Err(failure) && failure@ == error@,
            },
    {
        match catalogs {
            Ok(nodes) => {
                let unity = Unity { catalogs: NameMap::new() };
                assert(unity@ =~= Map::<Seq<char>, CatalogNodeView>::empty());
                Ok(unity.fetch(nodes))
            },
            Err(error) => Err(error),
        }
    }

    /// The registry with the given catalog nodes added, each under its name.
    fn fetch(self, nodes: Vec<Catalog>) -> (registry: Unity)
        requires
            self@ == Map::<Seq<char>, CatalogNodeView>::empty(),
        ensures
            registry@ == registry_of(views(nodes@)),
    {
        let ghost name_of = |catalog: CatalogNodeView| catalog.name;
        let mut catalogs = self.catalogs;
        assert(views(nodes@.take(0)) =~= Seq::<CatalogNodeView>::empty());
        for catalog in it: nodes
            invariant
                name_of == |catalog: CatalogNodeView| catalog.name,
                catalogs@.map_values(|catalog: Catalog| catalog@) == by_name(
                    views(nodes@.take(it.index() as int)),
                    name_of,
                ),
        {
            let ghost seen = nodes@.take(it.index() as int);
            let ghost before = catalogs@;
            assert(nodes@.take(it.index() + 1) =~= seen.push(catalog));
            proof {
                lemma_views_push(seen, catalog);
            }
            assert(views(seen.push(catalog)).drop_last() =~= views(seen));
            let name = catalog.name().to_owned();
            catalogs = catalogs.with(name, catalog);
            assert(catalogs@.map_values(|catalog: Catalog| catalog@) =~= before.map_values(
                |catalog: Catalog| catalog@,
            ).insert(catalog@.name, catalog@));
        }
        assert(nodes@.take(nodes@.len() as int) =~= nodes@);
        Unity { catalogs }
    }

    /// The names of the catalogs of the registry, each once, in no order
    /// that callers may count on.
    pub fn catalog_names(&self) -> (names: Vec<String>)
        ensures
            distinct(texts(names@)),
            texts(names@).to_set() == self@.dom(),
    {
        let names = self.catalogs.names();
        assert(self@.dom() =~= self.catalogs@.dom());
        names
    }

    /// The node of the catalog of exactly that name; none if the registry
    /// holds no such catalog, which is no failure.
    pub fn catalog(&self, name: &str) -> (node: Option<&Catalog>)
        ensures
            node is Some == self@.contains_key(name@),
            node matches Some(catalog) ==> catalog@ == self@[name@],
    {
        self.catalogs.get(name)
    }

    /// Catalogs cannot be added: the registry mirrors the service, and
    /// stays as it was built.
    pub fn register_catalog(&self, name: String) -> (refusal: UnityError)
        ensures
            refusal@ == UnityErrorView::unsupported("register catalog"@),
    {
        UnityError::unsupported("register catalog")
    }
}

/// Every catalog that the registry names resolves, and a name that it does
/// not name resolves to nothing.
pub proof fn lemma_catalog_lookup(registry: Map<Seq<char>, CatalogNodeView>, names: Seq<Seq<char>>)
    requires
        names.to_set() == registry.dom(),
    ensures
        forall|i: int| 0 <= i < names.len() ==> registry.contains_key(#[trigger] names[i]),
        forall|name: Seq<char>| !names.contains(name) ==> !registry.contains_key(name),
{
    lemma_names_are_the_keys(registry, names);
}

} // verus!
