use datafusion_unity_catalog::client::error::ClientError;
use datafusion_unity_catalog::client::listing::Request;
use datafusion_unity_catalog::client::listing::Scope;
use datafusion_unity_catalog::client::rest::types::CatalogInfo;
use datafusion_unity_catalog::client::rest::types::ListCatalogsResponse;
use datafusion_unity_catalog::client::rest::types::ListSchemasResponse;
use datafusion_unity_catalog::client::rest::types::ListTablesResponse;
use datafusion_unity_catalog::client::rest::types::SchemaInfo;
use datafusion_unity_catalog::client::rest::types::TableInfo;
use datafusion_unity_catalog::client::rest::RestClientError;
use datafusion_unity_catalog::unity::bootstrap::Response;
use datafusion_unity_catalog::unity::error::ErrorKind;
use datafusion_unity_catalog::Bootstrap;
use datafusion_unity_catalog::Unity;
use datafusion_unity_catalog::UnityError;
use std::collections::HashMap;

fn boot_catalogs(names: &[&str], next: Option<&str>) -> Result<Response, RestClientError> {
    Ok(Response::Catalogs(ListCatalogsResponse {
        catalogs: names
            .iter()
            .map(|name| CatalogInfo {
                id: String::new(),
                name: name.to_string(),
                comment: None,
                properties: HashMap::new(),
                created_at: None,
                updated_at: None,
            })
            .collect(),
        next_page_token: next.map(|t| t.to_string()),
    }))
}

fn boot_schemas(names: &[&str], next: Option<&str>) -> Result<Response, RestClientError> {
    Ok(Response::Schemas(ListSchemasResponse {
        schemas: names
            .iter()
            .map(|name| SchemaInfo {
                schema_id: String::new(),
                name: name.to_string(),
                catalog_name: None,
                comment: None,
                properties: HashMap::new(),
                full_name: None,
                created_at: None,
                updated_at: None,
            })
            .collect(),
        next_page_token: next.map(|t| t.to_string()),
    }))
}

fn boot_tables(tables: &[(Option<&str>, Option<&str>)], next: Option<&str>) -> Result<Response, RestClientError> {
    Ok(Response::Tables(ListTablesResponse {
        tables: tables
            .iter()
            .map(|(name, location)| TableInfo {
                table_id: None,
                name: name.map(|n| n.to_string()),
                catalog_name: None,
                schema_name: None,
                table_type: None,
                data_source_format: None,
                columns: Vec::new(),
                storage_location: location.map(|l| l.to_string()),
                comment: None,
                properties: HashMap::new(),
                created_at: None,
                updated_at: None,
            })
            .collect(),
        next_page_token: next.map(|t| t.to_string()),
    }))
}

fn boot_describe(request: &Request) -> String {
    let token = request.page_token.as_deref().unwrap_or("-");
    match &request.scope {
        Scope::Catalogs => format!("catalogs@{token}"),
        Scope::Schemas { catalog_name } => format!("schemas({catalog_name})@{token}"),
        Scope::Tables { catalog_name, schema_name } => {
            format!("tables({catalog_name}.{schema_name})@{token}")
        }
    }
}

/// Runs a build against a service, which is any function from a request to
/// an answer, and returns the requests that were sent with the outcome.
fn boot_run(
    service: &dyn Fn(&Request) -> Result<Response, RestClientError>,
) -> (Vec<String>, Result<Unity, UnityError>) {
    let mut build = Bootstrap::new();
    let mut sent = Vec::new();
    for _ in 0..1000 {
        match build.request() {
            Some(request) => {
                sent.push(boot_describe(&request));
                build = build.accept(service(&request));
            }
            None => return (sent, build.finish().expect("no request is pending")),
        }
    }
    panic!("the build does not end");
}

fn boot_sorted(mut names: Vec<String>) -> Vec<String> {
    names.sort();
    names
}

#[test]
fn one_catalog_one_schema_one_table() {
    let (sent, outcome) = boot_run(&|request| match boot_describe(request).as_str() {
        "catalogs@-" => boot_catalogs(&["main"], None),
        "schemas(main)@-" => boot_schemas(&["default"], None),
        "tables(main.default)@-" => boot_tables(&[(Some("events"), Some("/data/events"))], None),
        other => panic!("unexpected request {other}"),
    });
    assert_eq!(sent, vec!["catalogs@-", "schemas(main)@-", "tables(main.default)@-"]);
    let unity = outcome.expect("the build succeeds");
    assert_eq!(unity.catalog_names(), vec!["main"]);
    let main = unity.catalog("main").expect("main resolves");
    assert_eq!(main.schema_names(), vec!["default"]);
    let default = main.schema("default").expect("default resolves");
    assert_eq!(default.table_names(), vec!["events"]);
    assert_eq!(default.table("events").unwrap(), Some("/data/events"));
    assert!(default.table_exist("events"));
    assert_eq!(default.table("missing").unwrap(), None);
    assert!(!default.table_exist("missing"));
    assert!(unity.catalog("missing").is_none());
    assert!(main.schema("missing").is_none());
}

#[test]
fn transport_failure_on_second_of_three_schema_pages_fails_the_build() {
    let (sent, outcome) = boot_run(&|request| match boot_describe(request).as_str() {
        "catalogs@-" => boot_catalogs(&["main"], None),
        "schemas(main)@-" => boot_schemas(&["a"], Some("p2")),
        "schemas(main)@p2" => Err(RestClientError::Transport("connection reset".to_string())),
        "schemas(main)@p3" => boot_schemas(&["c"], None),
        other => panic!("unexpected request {other}"),
    });
    assert_eq!(sent, vec!["catalogs@-", "schemas(main)@-", "schemas(main)@p2"]);
    let error = outcome.err().expect("no registry is handed out");
    assert_eq!(error.kind(), ErrorKind::MetadataFetch);
    assert_eq!(error.message(), "metadata fetch failed: transport error: connection reset");
    assert!(matches!(error.source(), Some(ClientError::Transport(_))));
}

#[test]
fn failed_build_has_no_registry_to_observe() {
    let build = Bootstrap::new();
    let build = build.accept(boot_catalogs(&["main", "other"], None));
    let build = build.accept(boot_schemas(&[], None));
    let build = build.accept(Err(RestClientError::Decode("garbled".to_string())));
    assert!(build.request().is_none());
    // Whatever comes after the failure changes nothing.
    let build = build.accept(boot_schemas(&["late"], None));
    assert!(build.request().is_none());
    match build.finish() {
        Some(Err(error)) => {
            assert_eq!(error.kind(), ErrorKind::MetadataFetch);
            assert_eq!(error.message(), "metadata fetch failed: decode error: garbled");
        }
        Some(Ok(_)) => panic!("a registry came out of a failed build"),
        None => panic!("the build is settled"),
    }
}

#[test]
fn pending_build_has_no_outcome() {
    assert!(Bootstrap::new().finish().is_none());
    let build = Bootstrap::new().accept(boot_catalogs(&["main"], Some("more")));
    assert!(build.finish().is_none());
    let build = Bootstrap::new().accept(boot_catalogs(&["main"], None));
    assert!(build.finish().is_none());
}

#[test]
fn listings_run_top_down_in_listed_order_over_all_pages() {
    let (sent, outcome) = boot_run(&|request| match boot_describe(request).as_str() {
        "catalogs@-" => boot_catalogs(&["c1"], Some("c-2")),
        "catalogs@c-2" => boot_catalogs(&["c2"], Some("")),
        "schemas(c1)@-" => boot_schemas(&["s1", "s2"], None),
        "tables(c1.s1)@-" => boot_tables(&[(Some("t1"), Some("/t1"))], Some("t-2")),
        "tables(c1.s1)@t-2" => boot_tables(&[(Some("t2"), None)], None),
        "tables(c1.s2)@-" => boot_tables(&[], None),
        "schemas(c2)@-" => boot_schemas(&[], Some("s-2")),
        "schemas(c2)@s-2" => boot_schemas(&["s3"], None),
        "tables(c2.s3)@-" => boot_tables(&[(Some("t3"), Some("/t3"))], Some("")),
        other => panic!("unexpected request {other}"),
    });
    assert_eq!(
        sent,
        vec![
            "catalogs@-",
            "catalogs@c-2",
            "schemas(c1)@-",
            "tables(c1.s1)@-",
            "tables(c1.s1)@t-2",
            "tables(c1.s2)@-",
            "schemas(c2)@-",
            "schemas(c2)@s-2",
            "tables(c2.s3)@-",
        ]
    );
    let unity = outcome.expect("the build succeeds");
    assert_eq!(boot_sorted(unity.catalog_names()), vec!["c1", "c2"]);
    let c1 = unity.catalog("c1").unwrap();
    assert_eq!(boot_sorted(c1.schema_names()), vec!["s1", "s2"]);
    let s1 = c1.schema("s1").unwrap();
    assert_eq!(s1.catalog_name(), "c1");
    assert_eq!(boot_sorted(s1.table_names()), vec!["t1", "t2"]);
    assert_eq!(s1.table("t1").unwrap(), Some("/t1"));
    assert_eq!(s1.table("t2").expect_err("no location").kind(), ErrorKind::IncompleteMetadata);
    assert!(s1.table_exist("t2"));
    assert!(c1.schema("s2").unwrap().table_names().is_empty());
    let c2 = unity.catalog("c2").unwrap();
    assert_eq!(c2.schema_names(), vec!["s3"]);
    assert_eq!(c2.schema("s3").unwrap().table("t3").unwrap(), Some("/t3"));
    assert!(c2.schema("s1").is_none());
}

#[test]
fn service_without_catalogs_gives_an_empty_registry() {
    let (sent, outcome) = boot_run(&|_| boot_catalogs(&[], None));
    assert_eq!(sent, vec!["catalogs@-"]);
    let unity = outcome.expect("the build succeeds");
    assert!(unity.catalog_names().is_empty());
}

#[test]
fn catalog_without_schemas_is_registered_empty() {
    let (sent, outcome) = boot_run(&|request| match boot_describe(request).as_str() {
        "catalogs@-" => boot_catalogs(&["a", "b"], None),
        "schemas(a)@-" => boot_schemas(&[], None),
        "schemas(b)@-" => boot_schemas(&[], None),
        other => panic!("unexpected request {other}"),
    });
    assert_eq!(sent, vec!["catalogs@-", "schemas(a)@-", "schemas(b)@-"]);
    let unity = outcome.unwrap();
    assert_eq!(boot_sorted(unity.catalog_names()), vec!["a", "b"]);
    assert!(unity.catalog("a").unwrap().schema_names().is_empty());
}

#[test]
fn failure_of_the_catalogs_listing_fails_the_build() {
    let (sent, outcome) =
        boot_run(&|_| Err(RestClientError::Transport("connection refused".to_string())));
    assert_eq!(sent, vec!["catalogs@-"]);
    let error = outcome.err().expect("no registry");
    assert_eq!(error.kind(), ErrorKind::MetadataFetch);
    assert_eq!(error.cause(), "transport error: connection refused");
}

#[test]
fn failure_of_a_tables_listing_fails_the_build() {
    let (sent, outcome) = boot_run(&|request| match boot_describe(request).as_str() {
        "catalogs@-" => boot_catalogs(&["main", "later"], None),
        "schemas(main)@-" => boot_schemas(&["ok", "bad", "never"], None),
        "tables(main.ok)@-" => boot_tables(&[(Some("t"), Some("/t"))], None),
        "tables(main.bad)@-" => Err(RestClientError::Decode("unexpected end of input".to_string())),
        other => panic!("unexpected request {other}"),
    });
    assert_eq!(
        sent,
        vec!["catalogs@-", "schemas(main)@-", "tables(main.ok)@-", "tables(main.bad)@-"]
    );
    let error = outcome.err().expect("no registry");
    assert_eq!(error.kind(), ErrorKind::MetadataFetch);
    assert_eq!(error.message(), "metadata fetch failed: decode error: unexpected end of input");
}

#[test]
fn table_record_without_name_fails_the_build() {
    let (_, outcome) = boot_run(&|request| match boot_describe(request).as_str() {
        "catalogs@-" => boot_catalogs(&["main"], None),
        "schemas(main)@-" => boot_schemas(&["default"], None),
        "tables(main.default)@-" => boot_tables(&[(None, Some("/x"))], None),
        other => panic!("unexpected request {other}"),
    });
    let error = outcome.err().expect("no registry");
    assert_eq!(error.kind(), ErrorKind::MetadataFetch);
    assert_eq!(error.message(), "metadata fetch failed: decode error: a table record has no name");
}

#[test]
fn page_of_another_listing_fails_the_build() {
    let build = Bootstrap::new().accept(boot_schemas(&["default"], None));
    match build.finish() {
        Some(Err(error)) => assert_eq!(
            error.message(),
            "metadata fetch failed: decode error: the page belongs to another listing"
        ),
        _ => panic!("the build should have failed"),
    }
    let build = Bootstrap::new()
        .accept(boot_catalogs(&["main"], None))
        .accept(boot_tables(&[], None));
    assert!(matches!(build.finish(), Some(Err(_))));
    let build = Bootstrap::new()
        .accept(boot_catalogs(&["main"], None))
        .accept(boot_schemas(&["default"], None))
        .accept(boot_catalogs(&["main"], None));
    assert!(matches!(build.finish(), Some(Err(_))));
}

#[test]
fn catalog_listed_twice_is_fetched_twice_and_held_once() {
    let (sent, outcome) = boot_run(&|request| match boot_describe(request).as_str() {
        "catalogs@-" => boot_catalogs(&["dup", "dup"], None),
        "schemas(dup)@-" => boot_schemas(&["s"], None),
        "tables(dup.s)@-" => boot_tables(&[], None),
        other => panic!("unexpected request {other}"),
    });
    assert_eq!(
        sent,
        vec![
            "catalogs@-",
            "schemas(dup)@-",
            "tables(dup.s)@-",
            "schemas(dup)@-",
            "tables(dup.s)@-"
        ]
    );
    let unity = outcome.unwrap();
    assert_eq!(unity.catalog_names(), vec!["dup"]);
}

#[test]
fn done_build_takes_in_nothing_more() {
    let build = Bootstrap::new().accept(boot_catalogs(&[], None));
    assert!(build.request().is_none());
    let build = build.accept(boot_catalogs(&["late"], None));
    let build = build.accept(Err(RestClientError::Transport("late".to_string())));
    let unity = build.finish().expect("settled").expect("done");
    assert!(unity.catalog_names().is_empty());
}
