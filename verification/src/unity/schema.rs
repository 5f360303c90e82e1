//! The schema node: the tables of one schema, by name.

use crate::client::Table;
use crate::client::TableView;
use crate::client::error::ClientError;
use crate::client::listing::lemma_views_push;
use crate::client::listing::views;
use crate::unity::error::UnityError;
use crate::unity::error::UnityErrorView;
use crate::unity::name_map::NameMap;
use crate::unity::name_map::by_name;
use crate::unity::name_map::distinct;
use crate::unity::name_map::lemma_names_are_the_keys;
use crate::unity::name_map::texts;
use vstd::prelude::*;

verus! {

/// A schema node as contracts speak of it.
pub struct SchemaNodeView {
    pub catalog_name: Seq<char>,
    pub name: Seq<char>,
    /// The tables that the service listed under the schema, by name.
    pub tables: Map<Seq<char>, TableView>,
}

/// What a table name resolves to in a schema.
pub enum Resolution {
    /// The schema lists no table of that name.
    Absent,
    /// The table is listed, but without a storage location: it cannot be
    /// opened.
    Incomplete,
    /// The table is listed with the storage location to open.
    Stored(Seq<char>),
}

impl SchemaNodeView {
    /// The schema that holds the listed tables, each under its name.
    pub open spec fn of(
        catalog_name: Seq<char>,
        name: Seq<char>,
        tables: Seq<TableView>,
    ) -> SchemaNodeView {
        SchemaNodeView {
            catalog_name,
            name,
            tables: by_name(tables, |table: TableView| table.name),
        }
    }

    /// What `name` resolves to.
    pub open spec fn resolve(self, name: Seq<char>) -> Resolution {
        if !self.tables.contains_key(name) {
            Resolution::Absent
        } else {
            match self.tables[name].storage_location {
                Some(location) => Resolution::Stored(location),
                None => Resolution::Incomplete,
            }
        }
    }
}

/// The tables of one schema of one catalog, as the service listed them.
pub struct UnitySchema {
    catalog_name: String,
    name: String,
    tables: NameMap<Table>,
}

impl View for UnitySchema {
    type V = SchemaNodeView;

    closed spec fn view(&self) -> SchemaNodeView {
        SchemaNodeView {
            catalog_name: self.catalog_name@,
            name: self.name@,
            tables: self.tables@.map_values(|table: Table| table@),
        }
    }
}

impl UnitySchema {
    /// The node of schema `schema_name` of catalog `catalog_name`, from what
    /// the listing of its tables came to. A failed listing fails the node.
    /// No table is opened here.
    pub fn try_new(
        catalog_name: &str,
        schema_name: &str,
        listing: Result<Vec<Table>, ClientError>,
    ) -> (node: Result<UnitySchema, UnityError>)
        ensures
            match listing {
                Ok(tables) => node matches Ok(schema) && schema@ == SchemaNodeView::of(
                    catalog_name@,
                    schema_name@,
                    views(tables@),
                ),
                Err(error) => node matches Err(failure) && failure@
                    == UnityErrorView::metadata_fetch(error@),
            },
    {
        match listing {
            Ok(tables) => {
                let schema = UnitySchema {
                    catalog_name: catalog_name.to_owned(),
                    name: schema_name.to_owned(),
                    tables: NameMap::new(),
                };
                assert(schema@.tables =~= Map::<Seq<char>, TableView>::empty());
                Ok(schema.fetch(tables))
            },
            Err(error) => Err(UnityError::from(error)),
        }
    }

    /// The node with the listed tables added, each under its name.
    fn fetch(self, listed: Vec<Table>) -> (node: UnitySchema)
        requires
            self@.tables == Map::<Seq<char>, TableView>::empty(),
        ensures
            node@ == SchemaNodeView::of(self@.catalog_name, self@.name, views(listed@)),
    {
        let ghost name_of = |table: TableView| table.name;
        let mut tables = self.tables;
        assert(views(listed@.take(0)) =~= Seq::<TableView>::empty());
        for table in it: listed
            invariant
                name_of == |table: TableView| table.name,
                tables@.map_values(|table: Table| table@) == by_name(
                    views(listed@.take(it.index() as int)),
                    name_of,
                ),
        {
            let ghost seen = listed@.take(it.index() as int);
            let ghost before = tables@;
            assert(listed@.take(it.index() + 1) =~= seen.push(table));
            proof {
                lemma_views_push(seen, table);
            }
            assert(views(seen.push(table)).drop_last() =~= views(seen));
            let name = table.name().to_owned();
            tables = tables.with(name, table);
            assert(tables@.map_values(|table: Table| table@) =~= before.map_values(
                |table: Table| table@,
            ).insert(table@.name, table@));
        }
        assert(listed@.take(listed@.len() as int) =~= listed@);
        UnitySchema { catalog_name: self.catalog_name, name: self.name, tables }
    }

    /// The name of the schema.
    pub fn name(&self) -> (name: &str)
        ensures
            name@ == self@.name,
    {
        self.name.as_str()
    }

    /// The name of the catalog that owns the schema.
    pub fn catalog_name(&self) -> (catalog_name: &str)
        ensures
            catalog_name@ == self@.catalog_name,
    {
        self.catalog_name.as_str()
    }

    /// The service names no owner of a schema.
    pub fn owner_name(&self) -> (owner: Option<&str>)
        ensures
            owner is None,
    {
        None
    }

    /// The names of the tables of the schema, each once, in no order that
    /// callers may count on.
    pub fn table_names(&self) -> (names: Vec<String>)
        ensures
            distinct(texts(names@)),
            texts(names@).to_set() == self@.tables.dom(),
    {
        let names = self.tables.names();
        assert(self@.tables.dom() =~= self.tables@.dom());
        names
    }

    /// Whether the schema lists a table of that name. Nothing is asked of
    /// the service.
    pub fn table_exist(&self, name: &str) -> (exists: bool)
        ensures
            exists == self@.tables.contains_key(name@),
    {
        self.tables.contains(name)
    }

    /// The table of that name, as it was listed.
    pub fn table_info(&self, name: &str) -> (table: Option<&Table>)
        ensures
            table is Some == self@.tables.contains_key(name@),
            table matches Some(listed) ==> listed@ == self@.tables[name@],
    {
        self.tables.get(name)
    }

    /// Resolves a table name to the storage location that is to be opened
    /// for it. A name that the schema does not list resolves to nothing,
    /// which is no failure. A table that is listed without a storage
    /// location fails to resolve.
    pub fn table(&self, name: &str) -> (location: Result<Option<&str>, UnityError>)
        ensures
            match self@.resolve(name@) {
                Resolution::Absent => location matches Ok(None),
                Resolution::Stored(path) => location matches Ok(Some(found)) && found@ == path,
                Resolution::Incomplete => location matches Err(failure) && failure@
                    == UnityErrorView::incomplete_metadata(name@),
            },
    {
        match self.tables.get(name) {
            None => Ok(None),
            Some(table) => match table.storage_location() {
                Some(path) => Ok(Some(path)),
                None => Err(UnityError::incomplete_metadata(name)),
            },
        }
    }

    /// Tables cannot be added: the schema mirrors the service.
    pub fn register_table(&self, name: &str) -> (refusal: UnityError)
        ensures
            refusal@ == UnityErrorView::unsupported("register table"@),
    {
        UnityError::unsupported("register table")
    }

    /// Tables cannot be removed: the schema mirrors the service.
    pub fn deregister_table(&self, name: &str) -> (refusal: UnityError)
        ensures
            refusal@ == UnityErrorView::unsupported("deregister table"@),
    {
        UnityError::unsupported("deregister table")
    }
}

/// Every table that a schema names resolves to a storage location, but for
/// the tables that are listed without one, which resolve to `Incomplete` and
/// to nothing else; and a name that the schema does not name resolves to
/// `Absent`.
pub proof fn lemma_table_lookup(schema: SchemaNodeView, names: Seq<Seq<char>>)
    requires
        names.to_set() == schema.tables.dom(),
    ensures
        forall|i: int|
            0 <= i < names.len() ==> match schema.resolve(#[trigger] names[i]) {
                Resolution::Stored(location) => schema.tables[names[i]].storage_location == Some(
                    location,
                ),
                Resolution::Incomplete => schema.tables[names[i]].storage_location is None,
                Resolution::Absent => false,
            },
        forall|name: Seq<char>| !names.contains(name) ==> schema.resolve(name) is Absent,
{
    lemma_names_are_the_keys(schema.tables, names);
}

/// A table that is listed without a storage location exists, is named among
/// the tables of its schema, and fails to resolve for want of metadata.
pub proof fn lemma_table_without_location(
    schema: SchemaNodeView,
    names: Seq<Seq<char>>,
    name: Seq<char>,
)
    requires
        names.to_set() == schema.tables.dom(),
        schema.tables.contains_key(name),
        schema.tables[name].storage_location is None,
    ensures
        names.contains(name),
        schema.resolve(name) is Incomplete,
{
    assert(names.to_set().contains(name));
}

/// A listed table without a storage location is kept by the schema that is
/// made of the listing, unless a later table of the listing has its name.
pub proof fn lemma_listed_without_location_is_kept(
    catalog_name: Seq<char>,
    name: Seq<char>,
    tables: Seq<TableView>,
    i: int,
)
    requires
        0 <= i < tables.len(),
        tables[i].storage_location is None,
        forall|j: int| i < j < tables.len() ==> (#[trigger] tables[j]).name != tables[i].name,
    ensures
        SchemaNodeView::of(catalog_name, name, tables).tables.contains_key(tables[i].name),
        SchemaNodeView::of(catalog_name, name, tables).resolve(tables[i].name) is Incomplete,
{
    let name_of = |table: TableView| table.name;
    assert forall|j: int| i < j < tables.len() implies name_of(#[trigger] tables[j]) != name_of(
        tables[i],
    ) by {}
    crate::unity::name_map::lemma_by_name_keeps_last(tables, name_of, i);
}

} // verus!
