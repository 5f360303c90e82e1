//! The REST protocol: the records on the wire and the requests that fetch them.

use crate::client::error::FailureView;
use crate::client::text_of;
use url::Url;
use vstd::pervasive::unreached;
use vstd::prelude::*;
use vstd::string::StringExecFns;
use vstd::utf8::encode_utf8;

pub mod types;

verus! {

/// Why one request to the service gave no page.
#[derive(Debug)]
pub enum RestClientError {
    /// The service could not be reached, or the exchange broke off.
    Transport(String),
    /// A body came back, but not one that the endpoint promises.
    Decode(String),
}

impl View for RestClientError {
    type V = FailureView;

    open spec fn view(&self) -> FailureView {
        match self {
            RestClientError::Transport(cause) => FailureView::Transport(cause@),
            RestClientError::Decode(cause) => FailureView::Decode(cause@),
        }
    }
}

impl RestClientError {
    /// A line for a person to read: the kind of failure, then its cause.
    pub fn message(&self) -> (text: String)
        ensures
            text@ == self@.message(),
    {
        match self {
            RestClientError::Transport(cause) => "transport error: ".to_owned().concat(
                cause.as_str(),
            ),
            RestClientError::Decode(cause) => "decode error: ".to_owned().concat(cause.as_str()),
        }
    }
}

/// The most bytes that a URL, a path segment or a query value may have to
/// be handed to the URL library. Longer texts are refused.
pub const MAX_TEXT_BYTES: usize = 65536;

/// Whether a text is short enough to be handed to the URL library.
pub open spec fn fits(text: Seq<char>) -> bool {
    encode_utf8(text).len() <= MAX_TEXT_BYTES
}

/// The URL that the URL library reads out of a text, in the library's own
/// spelling; none where the text is no absolute URL.
pub uninterp spec fn url_parsed(input: Seq<char>) -> Option<Seq<char>>;

/// The URL with one more segment at the end of its path, spelled by the URL
/// library; none where the text is no URL whose path takes segments.
pub uninterp spec fn url_with_segment(url: Seq<char>, segment: Seq<char>) -> Option<Seq<char>>;

/// The URL with one more name and value at the end of its query, spelled by
/// the URL library; none where the text is no absolute URL.
pub uninterp spec fn url_with_query_pair(
    url: Seq<char>,
    key: Seq<char>,
    value: Seq<char>,
) -> Option<Seq<char>>;

/// `url::Url::parse`, with the parsed URL turned back into text. The
/// contract names the result and claims nothing else of it. Texts that are
/// longer than the limit are left out.
#[verifier::external_body]
fn parse_url(input: &str) -> (url: Option<String>)
    requires
        fits(input@),
    ensures
        text_of(url) == url_parsed(input@),
{
    match Url::parse(input) {
        Ok(url) => Some(String::from(url)),
        Err(_) => None,
    }
}

/// `url::PathSegmentsMut::push` on the parsed text. The contract names the
/// result and claims nothing else of it. Texts that are longer than the
/// limit are left out: beyond four gibibytes the library panics.
#[verifier::external_body]
fn push_path_segment(url: &str, segment: &str) -> (extended: Option<String>)
    requires
        fits(url@),
        fits(segment@),
    ensures
        text_of(extended) == url_with_segment(url@, segment@),
{
    let mut url = Url::parse(url).ok()?;
    url.path_segments_mut().ok()?.push(segment);
    Some(String::from(url))
}

/// `form_urlencoded::Serializer::append_pair` on the query of the parsed
/// text, as `url::Url::query_pairs_mut` hands it out. The contract names the
/// result and claims nothing else of it. Texts that are longer than the
/// limit are left out: beyond four gibibytes the library panics.
#[verifier::external_body]
fn append_query_pair(url: &str, key: &str, value: &str) -> (extended: Option<String>)
    requires
        fits(url@),
        fits(key@),
        fits(value@),
    ensures
        text_of(extended) == url_with_query_pair(url@, key@, value@),
{
    let mut url = Url::parse(url).ok()?;
    url.query_pairs_mut().append_pair(key, value);
    Some(String::from(url))
}

/// The URL, if there is one, with `segment` added to its path.
pub open spec fn with_segment(url: Option<Seq<char>>, segment: Seq<char>) -> Option<Seq<char>> {
    match url {
        Some(url) => if fits(url) && fits(segment) {
            url_with_segment(url, segment)
        } else {
            None
        },
        None => None,
    }
}

/// The URL, if there is one, with `key` and the value added to its query.
/// Where there is no value the URL stays as it is.
pub open spec fn with_param(
    url: Option<Seq<char>>,
    key: Seq<char>,
    value: Option<Seq<char>>,
) -> Option<Seq<char>> {
    match (url, value) {
        (Some(url), Some(value)) => if fits(url) && fits(key) && fits(value) {
            url_with_query_pair(url, key, value)
        } else {
            None
        },
        (Some(url), None) => Some(url),
        (None, _) => None,
    }
}

/// The characters of a string slice that may be missing.
pub open spec fn slice_of(text: Option<&str>) -> Option<Seq<char>> {
    match text {
        Some(text) => Some(text@),
        None => None,
    }
}

/// Whether a text is short enough to be handed to the URL library.
fn is_short(text: &str) -> (short: bool)
    ensures
        short == fits(text@),
{
    text.as_bytes().len() <= MAX_TEXT_BYTES
}

fn add_path_segment(url: Option<String>, segment: &str) -> (extended: Option<String>)
    ensures
        text_of(extended) == with_segment(text_of(url), segment@),
{
    match url {
        Some(url) => if is_short(url.as_str()) && is_short(segment) {
            push_path_segment(url.as_str(), segment)
        } else {
            None
        },
        None => None,
    }
}

fn add_query_param(url: Option<String>, key: &str, value: Option<&str>) -> (extended: Option<
    String,
>)
    ensures
        text_of(extended) == with_param(text_of(url), key@, slice_of(value)),
{
    match url {
        Some(url) => match value {
            Some(value) => if is_short(url.as_str()) && is_short(key) && is_short(value) {
                append_query_pair(url.as_str(), key, value)
            } else {
                None
            },
            None => Some(url),
        },
        None => None,
    }
}

/// The URL of the request for a page of the catalogs listing.
pub open spec fn catalogs_url(
    base: Seq<char>,
    page_token: Option<Seq<char>>,
    max_results: Option<Seq<char>>,
) -> Option<Seq<char>> {
    with_param(
        with_param(with_segment(Some(base), "catalogs"@), "page_token"@, page_token),
        "max_results"@,
        max_results,
    )
}

/// The URL of the request for a page of the schemas listing of a catalog.
pub open spec fn schemas_url(
    base: Seq<char>,
    catalog_name: Seq<char>,
    page_token: Option<Seq<char>>,
    max_results: Option<Seq<char>>,
) -> Option<Seq<char>> {
    with_param(
        with_param(
            with_param(with_segment(Some(base), "schemas"@), "catalog_name"@, Some(catalog_name)),
            "page_token"@,
            page_token,
        ),
        "max_results"@,
        max_results,
    )
}

/// The URL of the request for a page of the tables listing of a schema.
pub open spec fn tables_url(
    base: Seq<char>,
    catalog_name: Seq<char>,
    schema_name: Seq<char>,
    page_token: Option<Seq<char>>,
    max_results: Option<Seq<char>>,
) -> Option<Seq<char>> {
    with_param(
        with_param(
            with_param(
                with_param(
                    with_segment(Some(base), "tables"@),
                    "catalog_name"@,
                    Some(catalog_name),
                ),
                "schema_name"@,
                Some(schema_name),
            ),
            "page_token"@,
            page_token,
        ),
        "max_results"@,
        max_results,
    )
}

/// The requests of the REST protocol, spelled out as URLs under the base
/// endpoint of the service.
#[derive(Debug)]
pub struct UnityRestClient {
    base: String,
}

impl View for UnityRestClient {
    type V = Seq<char>;

    /// The base endpoint, as the URL library spells it.
    closed spec fn view(&self) -> Seq<char> {
        self.base@
    }
}

impl UnityRestClient {
    /// The client of the service at `base_url`, which is an absolute URL of
    /// no more than `MAX_TEXT_BYTES` bytes.
    pub fn new(base_url: &str) -> (client: UnityRestClient)
        requires
            fits(base_url@),
            url_parsed(base_url@) is Some,
        ensures
            Some(client@) == url_parsed(base_url@),
    {
        match parse_url(base_url) {
            Some(base) => UnityRestClient { base },
            None => unreached(),
        }
    }

    /// The client of the service at `base_url`; none if that is no absolute
    /// URL, or one of more than `MAX_TEXT_BYTES` bytes.
    pub fn try_new(base_url: &str) -> (client: Option<UnityRestClient>)
        ensures
            client is Some == (fits(base_url@) && url_parsed(base_url@) is Some),
            client matches Some(c) ==> Some(c@) == url_parsed(base_url@),
    {
        if is_short(base_url) {
            match parse_url(base_url) {
                Some(_) => Some(UnityRestClient::new(base_url)),
                None => None,
            }
        } else {
            None
        }
    }

    /// The base endpoint.
    pub fn base(&self) -> (base: &str)
        ensures
            base@ == self@,
    {
        self.base.as_str()
    }

    /// The URL that asks for a page of the catalogs listing: the page that
    /// `page_token` names, or the first, of at most `max_results` records
    /// where that is given. None where the URL library takes no such URL,
    /// or a text is longer than `MAX_TEXT_BYTES` bytes.
    pub fn list_catalogs(&self, page_token: Option<&str>, max_results: Option<&str>) -> (url:
        Option<String>)
        ensures
            text_of(url) == catalogs_url(self@, slice_of(page_token), slice_of(max_results)),
    {
        let url = add_path_segment(Some(self.base.clone()), "catalogs");
        let url = add_query_param(url, "page_token", page_token);
        add_query_param(url, "max_results", max_results)
    }

    /// The URL that asks for a page of the schemas listing of a catalog.
    pub fn list_schemas(
        &self,
        catalog_name: &str,
        page_token: Option<&str>,
        max_results: Option<&str>,
    ) -> (url: Option<String>)
        ensures
            text_of(url) == schemas_url(
                self@,
                catalog_name@,
                slice_of(page_token),
                slice_of(max_results),
            ),
    {
        let url = add_path_segment(Some(self.base.clone()), "schemas");
        let url = add_query_param(url, "catalog_name", Some(catalog_name));
        let url = add_query_param(url, "page_token", page_token);
        add_query_param(url, "max_results", max_results)
    }

    /// The URL that asks for a page of the tables listing of a schema.
    pub fn list_tables(
        &self,
        catalog_name: &str,
        schema_name: &str,
        page_token: Option<&str>,
        max_results: Option<&str>,
    ) -> (url: Option<String>)
        ensures
            text_of(url) == tables_url(
                self@,
                catalog_name@,
                schema_name@,
                slice_of(page_token),
                slice_of(max_results),
            ),
    {
        let url = add_path_segment(Some(self.base.clone()), "tables");
        let url = add_query_param(url, "catalog_name", Some(catalog_name));
        let url = add_query_param(url, "schema_name", Some(schema_name));
        let url = add_query_param(url, "page_token", page_token);
        add_query_param(url, "max_results", max_results)
    }
}

} // verus!
