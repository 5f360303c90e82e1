use datafusion_unity_catalog::client::as_slice;
use datafusion_unity_catalog::client::listing::Request;
use datafusion_unity_catalog::client::listing::Scope;
use datafusion_unity_catalog::client::rest::UnityRestClient;
use datafusion_unity_catalog::client::rest::MAX_TEXT_BYTES;
use datafusion_unity_catalog::client::UnityClient;

const ENDPOINT: &str = "http://127.0.0.1:8080/api/2.1/unity-catalog";

#[test]
fn base_is_spelled_by_the_url_library() {
    let client = UnityRestClient::try_new("HTTP://Example.COM").expect("a URL");
    assert_eq!(client.base(), "http://example.com/");
    let client = UnityRestClient::new(ENDPOINT);
    assert_eq!(client.base(), ENDPOINT);
}

#[test]
fn relative_or_empty_endpoint_is_refused() {
    assert!(UnityRestClient::try_new("").is_none());
    assert!(UnityRestClient::try_new("api/2.1/unity-catalog").is_none());
    assert!(UnityClient::try_new("not a url").is_none());
}

#[test]
fn overlong_endpoint_is_refused() {
    let long = format!("http://example.com/{}", "a".repeat(MAX_TEXT_BYTES));
    assert!(UnityRestClient::try_new(&long).is_none());
    let fitting = format!("http://example.com/{}", "a".repeat(MAX_TEXT_BYTES - 19));
    assert_eq!(fitting.len(), MAX_TEXT_BYTES);
    assert!(UnityRestClient::try_new(&fitting).is_some());
}

#[test]
fn catalogs_url_without_token() {
    let client = UnityRestClient::new(ENDPOINT);
    assert_eq!(
        client.list_catalogs(None, None).as_deref(),
        Some("http://127.0.0.1:8080/api/2.1/unity-catalog/catalogs")
    );
}

#[test]
fn catalogs_url_with_token_and_page_size() {
    let client = UnityRestClient::new(ENDPOINT);
    assert_eq!(
        client.list_catalogs(Some("abc"), None).as_deref(),
        Some("http://127.0.0.1:8080/api/2.1/unity-catalog/catalogs?page_token=abc")
    );
    assert_eq!(
        client.list_catalogs(Some("abc"), Some("50")).as_deref(),
        Some("http://127.0.0.1:8080/api/2.1/unity-catalog/catalogs?page_token=abc&max_results=50")
    );
    assert_eq!(
        client.list_catalogs(None, Some("50")).as_deref(),
        Some("http://127.0.0.1:8080/api/2.1/unity-catalog/catalogs?max_results=50")
    );
}

#[test]
fn trailing_slash_of_the_base_is_kept() {
    let client = UnityRestClient::new("http://127.0.0.1:8080/api/2.1/unity-catalog/");
    assert_eq!(
        client.list_catalogs(None, None).as_deref(),
        Some("http://127.0.0.1:8080/api/2.1/unity-catalog//catalogs")
    );
}

#[test]
fn schemas_url_names_the_catalog_first() {
    let client = UnityRestClient::new(ENDPOINT);
    assert_eq!(
        client.list_schemas("main", None, None).as_deref(),
        Some("http://127.0.0.1:8080/api/2.1/unity-catalog/schemas?catalog_name=main")
    );
    assert_eq!(
        client.list_schemas("main", Some("t1"), Some("10")).as_deref(),
        Some(
            "http://127.0.0.1:8080/api/2.1/unity-catalog/schemas?catalog_name=main&page_token=t1&max_results=10"
        )
    );
}

#[test]
fn tables_url_names_catalog_then_schema() {
    let client = UnityRestClient::new(ENDPOINT);
    assert_eq!(
        client.list_tables("main", "default", None, None).as_deref(),
        Some(
            "http://127.0.0.1:8080/api/2.1/unity-catalog/tables?catalog_name=main&schema_name=default"
        )
    );
    assert_eq!(
        client.list_tables("main", "default", Some("t"), None).as_deref(),
        Some(
            "http://127.0.0.1:8080/api/2.1/unity-catalog/tables?catalog_name=main&schema_name=default&page_token=t"
        )
    );
}

#[test]
fn query_values_are_form_encoded() {
    let client = UnityRestClient::new(ENDPOINT);
    assert_eq!(
        client.list_schemas("my catalog&co", Some("a=b"), None).as_deref(),
        Some(
            "http://127.0.0.1:8080/api/2.1/unity-catalog/schemas?catalog_name=my+catalog%26co&page_token=a%3Db"
        )
    );
}

#[test]
fn empty_token_is_sent_as_an_empty_value() {
    let client = UnityRestClient::new(ENDPOINT);
    assert_eq!(
        client.list_catalogs(Some(""), None).as_deref(),
        Some("http://127.0.0.1:8080/api/2.1/unity-catalog/catalogs?page_token=")
    );
}

#[test]
fn base_that_takes_no_segments_gives_no_url() {
    let client = UnityRestClient::try_new("mailto:someone@example.com").expect("a URL");
    assert_eq!(client.list_catalogs(None, None), None);
    assert_eq!(client.list_schemas("main", None, None), None);
    assert_eq!(client.list_tables("main", "default", None, None), None);
}

#[test]
fn overlong_name_gives_no_url() {
    let client = UnityRestClient::new(ENDPOINT);
    let long = "n".repeat(MAX_TEXT_BYTES + 1);
    assert_eq!(client.list_schemas(&long, None, None), None);
    assert_eq!(client.list_tables("main", &long, None, None), None);
    assert_eq!(client.list_catalogs(Some(&long), None), None);
    let fitting = "n".repeat(200);
    assert!(client.list_schemas(&fitting, None, None).is_some());
}

#[test]
fn client_spells_out_requests() {
    let client = UnityClient::new(ENDPOINT);
    let request = Request { scope: Scope::Catalogs, page_token: None };
    assert_eq!(
        client.url(&request).as_deref(),
        Some("http://127.0.0.1:8080/api/2.1/unity-catalog/catalogs")
    );
    let request = Request {
        scope: Scope::Schemas { catalog_name: "main".to_string() },
        page_token: Some("p2".to_string()),
    };
    assert_eq!(
        client.url(&request).as_deref(),
        Some("http://127.0.0.1:8080/api/2.1/unity-catalog/schemas?catalog_name=main&page_token=p2")
    );
    let request = Request {
        scope: Scope::Tables { catalog_name: "main".to_string(), schema_name: "default".to_string() },
        page_token: None,
    };
    assert_eq!(
        client.url(&request).as_deref(),
        Some(
            "http://127.0.0.1:8080/api/2.1/unity-catalog/tables?catalog_name=main&schema_name=default"
        )
    );
}

#[test]
fn request_of_a_listing_becomes_its_url() {
    let client = UnityClient::new(ENDPOINT);
    let listing = client.list_tables("main", "default");
    let request = listing.request().expect("pending");
    assert_eq!(
        client.url(&request).as_deref(),
        Some(
            "http://127.0.0.1:8080/api/2.1/unity-catalog/tables?catalog_name=main&schema_name=default"
        )
    );
}

#[test]
fn slice_of_a_missing_string_is_missing() {
    assert_eq!(as_slice(&None), None);
    assert_eq!(as_slice(&Some("x".to_string())), Some("x"));
}
