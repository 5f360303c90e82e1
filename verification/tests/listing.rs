use datafusion_unity_catalog::client::error::ClientError;
use datafusion_unity_catalog::client::listing::names_no_next_page;
use datafusion_unity_catalog::client::listing::Listing;
use datafusion_unity_catalog::client::listing::Scope;
use datafusion_unity_catalog::client::rest::types::CatalogInfo;
use datafusion_unity_catalog::client::rest::types::ListCatalogsResponse;
use datafusion_unity_catalog::client::rest::types::ListSchemasResponse;
use datafusion_unity_catalog::client::rest::types::ListTablesResponse;
use datafusion_unity_catalog::client::rest::types::SchemaInfo;
use datafusion_unity_catalog::client::rest::types::TableInfo;
use datafusion_unity_catalog::client::rest::RestClientError;
use datafusion_unity_catalog::client::Catalog;
use datafusion_unity_catalog::client::Schema;
use datafusion_unity_catalog::client::Table;
use datafusion_unity_catalog::client::UnityClient;
use std::collections::HashMap;

fn listing_catalog_info(name: &str) -> CatalogInfo {
    CatalogInfo {
        id: format!("id-{name}"),
        name: name.to_string(),
        comment: None,
        properties: HashMap::new(),
        created_at: None,
        updated_at: None,
    }
}

fn listing_catalog_page(names: &[&str], next: Option<&str>) -> ListCatalogsResponse {
    ListCatalogsResponse {
        catalogs: names.iter().map(|name| listing_catalog_info(name)).collect(),
        next_page_token: next.map(|token| token.to_string()),
    }
}

fn listing_schema_info(name: &str) -> SchemaInfo {
    SchemaInfo {
        schema_id: format!("id-{name}"),
        name: name.to_string(),
        catalog_name: Some("elsewhere".to_string()),
        comment: None,
        properties: HashMap::new(),
        full_name: None,
        created_at: None,
        updated_at: None,
    }
}

fn listing_table_info(name: Option<&str>, location: Option<&str>) -> TableInfo {
    TableInfo {
        table_id: None,
        name: name.map(|n| n.to_string()),
        catalog_name: None,
        schema_name: None,
        table_type: None,
        data_source_format: None,
        columns: Vec::new(),
        storage_location: location.map(|l| l.to_string()),
        comment: None,
        properties: HashMap::new(),
        created_at: None,
        updated_at: None,
    }
}

fn listing_names(catalogs: &[Catalog]) -> Vec<String> {
    catalogs.iter().map(|catalog| catalog.name().to_string()).collect()
}

#[test]
fn new_listing_asks_for_first_page_without_token() {
    let listing: Listing<Catalog> = Listing::new(Scope::Catalogs);
    assert!(listing.is_pending());
    let request = listing.request().expect("a new listing is pending");
    assert!(matches!(request.scope, Scope::Catalogs));
    assert!(request.page_token.is_none());
}

#[test]
fn pages_are_concatenated_in_page_order() {
    let client = UnityClient::try_new("http://127.0.0.1:8080/").expect("a URL");
    let listing = client.list_catalogs();
    let listing = listing.accept(Ok(listing_catalog_page(&["a", "b"], Some("p2"))));
    assert!(listing.is_pending());
    assert_eq!(listing.request().unwrap().page_token.as_deref(), Some("p2"));
    let listing = listing.accept(Ok(listing_catalog_page(&["c"], Some("p3"))));
    assert!(listing.is_pending());
    assert_eq!(listing.request().unwrap().page_token.as_deref(), Some("p3"));
    let listing = listing.accept(Ok(listing_catalog_page(&["d", "e"], Some(""))));
    assert!(!listing.is_pending());
    assert!(listing.request().is_none());
    let catalogs = listing.finish().expect("settled").expect("complete");
    assert_eq!(listing_names(&catalogs), vec!["a", "b", "c", "d", "e"]);
}

#[test]
fn repeated_records_are_kept_as_often_as_they_come() {
    let listing: Listing<Catalog> = Listing::new(Scope::Catalogs);
    let listing = listing.accept(Ok(listing_catalog_page(&["a", "a"], Some("next"))));
    let listing = listing.accept(Ok(listing_catalog_page(&["a"], None)));
    let catalogs = listing.finish().expect("settled").expect("complete");
    assert_eq!(listing_names(&catalogs), vec!["a", "a", "a"]);
}

#[test]
fn absent_token_ends_the_listing() {
    let listing: Listing<Catalog> = Listing::new(Scope::Catalogs);
    let listing = listing.accept(Ok(listing_catalog_page(&["only"], None)));
    assert!(!listing.is_pending());
    let catalogs = listing.finish().expect("settled").expect("complete");
    assert_eq!(listing_names(&catalogs), vec!["only"]);
}

#[test]
fn empty_token_ends_the_listing() {
    let listing: Listing<Catalog> = Listing::new(Scope::Catalogs);
    let listing = listing.accept(Ok(listing_catalog_page(&["only"], Some(""))));
    assert!(!listing.is_pending());
    let catalogs = listing.finish().expect("settled").expect("complete");
    assert_eq!(listing_names(&catalogs), vec!["only"]);
}

#[test]
fn token_test_tells_last_pages() {
    assert!(names_no_next_page(&None));
    assert!(names_no_next_page(&Some(String::new())));
    assert!(!names_no_next_page(&Some("x".to_string())));
    assert!(!names_no_next_page(&Some(" ".to_string())));
}

#[test]
fn empty_page_with_token_keeps_the_listing_pending() {
    let listing: Listing<Catalog> = Listing::new(Scope::Catalogs);
    let listing = listing.accept(Ok(listing_catalog_page(&[], Some("more"))));
    assert!(listing.is_pending());
    assert!(listing.finish().is_none());
}

#[test]
fn complete_listing_takes_in_nothing_more() {
    let listing: Listing<Catalog> = Listing::new(Scope::Catalogs);
    let listing = listing.accept(Ok(listing_catalog_page(&["a"], None)));
    let listing = listing.accept(Ok(listing_catalog_page(&["b"], None)));
    let listing = listing.accept(Err(RestClientError::Transport("late".to_string())));
    let catalogs = listing.finish().expect("settled").expect("complete");
    assert_eq!(listing_names(&catalogs), vec!["a"]);
}

#[test]
fn failure_on_a_later_page_gives_no_records() {
    let listing: Listing<Catalog> = Listing::new(Scope::Catalogs);
    let listing = listing.accept(Ok(listing_catalog_page(&["a"], Some("p2"))));
    let listing = listing.accept(Err(RestClientError::Transport("connection reset".to_string())));
    assert!(!listing.is_pending());
    assert!(listing.request().is_none());
    match listing.finish() {
        Some(Err(ClientError::Transport(cause))) => assert_eq!(cause, "connection reset"),
        other => panic!("unexpected outcome: {:?}", other.map(|r| r.map(|_| ()))),
    }
}

#[test]
fn decode_failure_stays_a_decode_failure() {
    let listing: Listing<Catalog> = Listing::new(Scope::Catalogs);
    let listing = listing.accept(Err(RestClientError::Decode("not json".to_string())));
    match listing.finish() {
        Some(Err(ClientError::Decode(cause))) => assert_eq!(cause, "not json"),
        other => panic!("unexpected outcome: {:?}", other.map(|r| r.map(|_| ()))),
    }
}

#[test]
fn failed_listing_stays_failed() {
    let listing: Listing<Catalog> = Listing::new(Scope::Catalogs);
    let listing = listing.accept(Err(RestClientError::Transport("down".to_string())));
    let listing = listing.accept(Ok(listing_catalog_page(&["a"], None)));
    assert!(matches!(listing.finish(), Some(Err(ClientError::Transport(_)))));
}

#[test]
fn schemas_are_owned_by_the_listed_catalog() {
    let client = UnityClient::try_new("http://127.0.0.1:8080/").expect("a URL");
    let listing = client.list_schemas("main");
    let request = listing.request().unwrap();
    match &request.scope {
        Scope::Schemas { catalog_name } => assert_eq!(catalog_name, "main"),
        other => panic!("unexpected scope: {other:?}"),
    }
    let page = ListSchemasResponse {
        schemas: vec![listing_schema_info("default"), listing_schema_info("raw")],
        next_page_token: None,
    };
    let schemas: Vec<Schema> = listing.accept(Ok(page)).finish().unwrap().unwrap();
    assert_eq!(schemas.len(), 2);
    assert_eq!(schemas[0].name(), "default");
    assert_eq!(schemas[0]._catalog_name(), "main");
    assert_eq!(schemas[1].name(), "raw");
    assert_eq!(schemas[1]._catalog_name(), "main");
}

#[test]
fn tables_are_owned_by_the_listed_schema() {
    let client = UnityClient::try_new("http://127.0.0.1:8080/").expect("a URL");
    let listing = client.list_tables("main", "default");
    let page = ListTablesResponse {
        tables: vec![
            listing_table_info(Some("events"), Some("/data/events")),
            listing_table_info(Some("bare"), None),
        ],
        next_page_token: Some(String::new()),
    };
    let tables: Vec<Table> = listing.accept(Ok(page)).finish().unwrap().unwrap();
    assert_eq!(tables.len(), 2);
    assert_eq!(tables[0].name(), "events");
    assert_eq!(tables[0]._catalog_name(), "main");
    assert_eq!(tables[0]._schema_name(), "default");
    assert_eq!(tables[0].storage_location(), Some("/data/events"));
    assert_eq!(tables[1].name(), "bare");
    assert_eq!(tables[1].storage_location(), None);
}

#[test]
fn table_record_without_name_fails_the_listing() {
    let listing: Listing<Table> = Listing::new(Scope::Tables {
        catalog_name: "main".to_string(),
        schema_name: "default".to_string(),
    });
    let page = ListTablesResponse {
        tables: vec![
            listing_table_info(Some("events"), Some("/data/events")),
            listing_table_info(None, Some("/data/nameless")),
        ],
        next_page_token: None,
    };
    match listing.accept(Ok(page)).finish() {
        Some(Err(ClientError::Decode(cause))) => assert_eq!(cause, "a table record has no name"),
        other => panic!("unexpected outcome: {:?}", other.map(|r| r.map(|_| ()))),
    }
}

#[test]
fn page_of_another_listing_fails_the_listing() {
    let listing: Listing<Schema> = Listing::new(Scope::Catalogs);
    let page = ListSchemasResponse { schemas: vec![listing_schema_info("s")], next_page_token: None };
    match listing.accept(Ok(page)).finish() {
        Some(Err(ClientError::Decode(cause))) => {
            assert_eq!(cause, "the page belongs to another listing")
        }
        other => panic!("unexpected outcome: {:?}", other.map(|r| r.map(|_| ()))),
    }
}

#[test]
fn generic_page_and_failure_steps() {
    let listing: Listing<Catalog> = Listing::new(Scope::Catalogs);
    let listing = listing.accept_page(vec![Catalog::new("x".to_string())], Some("t".to_string()));
    assert!(listing.is_pending());
    assert!(matches!(listing.scope(), Scope::Catalogs));
    let listing = listing.fail(ClientError::Decode("bad".to_string()));
    assert!(matches!(listing.finish(), Some(Err(ClientError::Decode(_)))));
}

#[test]
fn scope_duplicate_keeps_names() {
    let scope = Scope::Tables { catalog_name: "c".to_string(), schema_name: "s".to_string() };
    match scope.duplicate() {
        Scope::Tables { catalog_name, schema_name } => {
            assert_eq!(catalog_name, "c");
            assert_eq!(schema_name, "s");
        }
        other => panic!("unexpected scope: {other:?}"),
    }
    assert!(matches!(Scope::Catalogs.duplicate(), Scope::Catalogs));
    match (Scope::Schemas { catalog_name: "c".to_string() }).duplicate() {
        Scope::Schemas { catalog_name } => assert_eq!(catalog_name, "c"),
        other => panic!("unexpected scope: {other:?}"),
    }
}
