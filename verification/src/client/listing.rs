//! Pagination: how the pages of one listing add up.
//!
//! A listing asks for one page at a time. Each page brings records and,
//! perhaps, a token that stands for the page after it. The listing is
//! complete with the first page that brings no token, or an empty one.
//! A failed request fails the whole listing: no part of it is handed out.

use crate::client::error::ClientError;
use crate::client::error::FailureView;
use crate::client::text_of;
use vstd::prelude::*;

verus! {

/// The views of the items of a sequence, in order.
pub open spec fn views<T: View>(items: Seq<T>) -> Seq<T::V> {
    items.map_values(|item: T| item@)
}

/// The views of a sequence with one more item are those of the sequence with
/// the view of the item behind them.
pub proof fn lemma_views_push<T: View>(items: Seq<T>, item: T)
    ensures
        views(items.push(item)) == views(items).push(item@),
{
    assert(views(items.push(item)) =~= views(items).push(item@));
}

/// The views of two sequences laid end to end are their views laid end to end.
pub proof fn lemma_views_add<T: View>(front: Seq<T>, back: Seq<T>)
    ensures
        views(front + back) == views(front) + views(back),
{
    assert(views(front + back) =~= views(front) + views(back));
}

/// Which level of the hierarchy a listing walks, and under which names.
#[derive(Debug)]
pub enum Scope {
    /// All catalogs of the service.
    Catalogs,
    /// The schemas of one catalog.
    Schemas { catalog_name: String },
    /// The tables of one schema of one catalog.
    Tables { catalog_name: String, schema_name: String },
}

pub enum ScopeView {
    Catalogs,
    Schemas { catalog_name: Seq<char> },
    Tables { catalog_name: Seq<char>, schema_name: Seq<char> },
}

impl View for Scope {
    type V = ScopeView;

    open spec fn view(&self) -> ScopeView {
        match self {
            Scope::Catalogs => ScopeView::Catalogs,
            Scope::Schemas { catalog_name } => ScopeView::Schemas { catalog_name: catalog_name@ },
            Scope::Tables { catalog_name, schema_name } => ScopeView::Tables {
                catalog_name: catalog_name@,
                schema_name: schema_name@,
            },
        }
    }
}

impl Scope {
    /// A second value of the same scope.
    pub fn duplicate(&self) -> (copy: Scope)
        ensures
            copy@ == self@,
    {
        match self {
            Scope::Catalogs => Scope::Catalogs,
            Scope::Schemas { catalog_name } => Scope::Schemas {
                catalog_name: catalog_name.clone(),
            },
            Scope::Tables { catalog_name, schema_name } => Scope::Tables {
                catalog_name: catalog_name.clone(),
                schema_name: schema_name.clone(),
            },
        }
    }
}

/// One request for a page: what is listed, and the token of the page that is
/// asked for. The first page of a listing is asked for without a token.
#[derive(Debug)]
pub struct Request {
    pub scope: Scope,
    pub page_token: Option<String>,
}

pub struct RequestView {
    pub scope: ScopeView,
    pub page_token: Option<Seq<char>>,
}

impl View for Request {
    type V = RequestView;

    open spec fn view(&self) -> RequestView {
        RequestView { scope: self.scope@, page_token: text_of(self.page_token) }
    }
}

/// One page as a listing takes it in: the records it brings, and the token
/// of the page after it.
pub struct PageView<R> {
    pub records: Seq<R>,
    pub next_page_token: Option<Seq<char>>,
}

/// A page is the last of its listing when it names no next page: it brings
/// no token, or an empty one.
pub open spec fn is_last_page(next_page_token: Option<Seq<char>>) -> bool {
    match next_page_token {
        Some(token) => token.len() == 0,
        None => true,
    }
}

/// How far a listing has come.
pub enum ProgressView {
    /// More pages are to be asked for.
    Pending,
    /// The last page has come.
    Complete,
    /// A request failed.
    Failed(FailureView),
}

/// A listing as contracts speak of it.
pub struct ListingView<R> {
    pub scope: ScopeView,
    /// The records of the pages taken in so far, in the order they came.
    pub records: Seq<R>,
    /// The token that the page before named; none before the first page.
    pub page_token: Option<Seq<char>>,
    pub progress: ProgressView,
}

impl<R> ListingView<R> {
    /// A listing before its first page.
    pub open spec fn start(scope: ScopeView) -> ListingView<R> {
        ListingView {
            scope,
            records: Seq::empty(),
            page_token: None,
            progress: ProgressView::Pending,
        }
    }

    /// The listing after what the service answered to its request. A page
    /// adds its records behind those already there. A failure keeps nothing
    /// for the caller. A listing that is complete or has failed takes in
    /// nothing more.
    pub open spec fn accept(self, answer: Result<PageView<R>, FailureView>) -> ListingView<R> {
        match self.progress {
            ProgressView::Pending => match answer {
                Ok(page) => ListingView {
                    scope: self.scope,
                    records: self.records + page.records,
                    page_token: page.next_page_token,
                    progress: if is_last_page(page.next_page_token) {
                        ProgressView::Complete
                    } else {
                        ProgressView::Pending
                    },
                },
                Err(failure) => ListingView {
                    scope: self.scope,
                    records: self.records,
                    page_token: self.page_token,
                    progress: ProgressView::Failed(failure),
                },
            },
            _ => self,
        }
    }

    /// The request that the listing waits on, while it is pending.
    pub open spec fn request(self) -> Option<RequestView> {
        match self.progress {
            ProgressView::Pending => Some(
                RequestView { scope: self.scope, page_token: self.page_token },
            ),
            _ => None,
        }
    }

    /// What the listing came to, once it is settled: every record of every
    /// page, or the failure.
    pub open spec fn outcome(self) -> Option<Result<Seq<R>, FailureView>> {
        match self.progress {
            ProgressView::Pending => None,
            ProgressView::Complete => Some(Ok(self.records)),
            ProgressView::Failed(failure) => Some(Err(failure)),
        }
    }

    /// The listing after a run of answers, taken in one after the other.
    pub open spec fn accept_all(self, answers: Seq<Result<PageView<R>, FailureView>>) -> ListingView<
        R,
    >
        decreases answers.len(),
    {
        if answers.len() == 0 {
            self
        } else {
            self.accept_all(answers.drop_last()).accept(answers.last())
        }
    }
}

/// The records of a run of pages, page after page.
pub open spec fn concat_pages<R>(pages: Seq<PageView<R>>) -> Seq<R>
    decreases pages.len(),
{
    if pages.len() == 0 {
        Seq::empty()
    } else {
        concat_pages(pages.drop_last()) + pages.last().records
    }
}

/// Whether the pages are all the pages of one listing: there is at least
/// one, each but the last names a next page, and the last names none.
pub open spec fn is_paging<R>(pages: Seq<PageView<R>>) -> bool {
    &&& pages.len() > 0
    &&& forall|i: int|
        0 <= i < pages.len() - 1 ==> !is_last_page(#[trigger] pages[i].next_page_token)
    &&& is_last_page(pages.last().next_page_token)
}

/// The answers of a service that serves the given pages without a failure.
pub open spec fn served<R>(pages: Seq<PageView<R>>) -> Seq<Result<PageView<R>, FailureView>> {
    pages.map_values(|page: PageView<R>| Ok::<PageView<R>, FailureView>(page))
}

/// While every page names a next one, the listing stays pending, holds the
/// records of all pages in page order, and asks with the token of the page
/// that came last.
pub proof fn lemma_pending_through_inner_pages<R>(scope: ScopeView, pages: Seq<PageView<R>>)
    requires
        forall|i: int| 0 <= i < pages.len() ==> !is_last_page(#[trigger] pages[i].next_page_token),
    ensures
        ListingView::<R>::start(scope).accept_all(served(pages)) == (ListingView {
            scope,
            records: concat_pages(pages),
            page_token: if pages.len() == 0 {
                None
            } else {
                pages.last().next_page_token
            },
            progress: ProgressView::Pending,
        }),
    decreases pages.len(),
{
    if pages.len() > 0 {
        let earlier = pages.drop_last();
        lemma_pending_through_inner_pages(scope, earlier);
        assert(served(pages).drop_last() =~= served(earlier));
        assert(served(pages).last() == Ok::<PageView<R>, FailureView>(pages.last()));
    }
}

/// Pagination in full: a service that sends its records over any number of
/// pages, each but the last naming the next, the last naming none (no token,
/// or an empty one), gives a complete listing that holds the records of all
/// the pages in page order, each as often as the pages hold it.
pub proof fn lemma_listing_is_concatenation<R>(scope: ScopeView, pages: Seq<PageView<R>>)
    requires
        is_paging(pages),
    ensures
        ListingView::<R>::start(scope).accept_all(served(pages)).outcome() == Some(
            Ok::<Seq<R>, FailureView>(concat_pages(pages)),
        ),
        ListingView::<R>::start(scope).accept_all(served(pages)).request() is None,
{
    let earlier = pages.drop_last();
    lemma_pending_through_inner_pages(scope, earlier);
    assert(served(pages).drop_last() =~= served(earlier));
    assert(served(pages).last() == Ok::<PageView<R>, FailureView>(pages.last()));
}

/// Pagination ends on either sign: a page without a token and a page with an
/// empty token both complete a pending listing, and a page with any other
/// token leaves it pending, asking for the page that the token names.
pub proof fn lemma_listing_ends_on_either_sign<R>(listing: ListingView<R>, records: Seq<R>)
    requires
        listing.progress is Pending,
    ensures
        listing.accept(Ok(PageView { records, next_page_token: None })).progress is Complete,
        listing.accept(
            Ok(PageView { records, next_page_token: Some(Seq::<char>::empty()) }),
        ).progress is Complete,
        forall|token: Seq<char>|
            token.len() > 0 ==> (#[trigger] listing.accept(
                Ok(PageView { records, next_page_token: Some(token) }),
            )).request() == Some(RequestView { scope: listing.scope, page_token: Some(token) }),
{
}

/// A failure on any page fails the listing for good: whatever is answered
/// after it, the outcome is that failure and none of the records.
pub proof fn lemma_failure_is_final<R>(
    listing: ListingView<R>,
    failure: FailureView,
    later: Seq<Result<PageView<R>, FailureView>>,
)
    requires
        listing.progress is Pending,
    ensures
        listing.accept(Err(failure)).accept_all(later).outcome() == Some(
            Err::<Seq<R>, FailureView>(failure),
        ),
    decreases later.len(),
{
    if later.len() > 0 {
        lemma_failure_is_final(listing, failure, later.drop_last());
    }
}

enum Progress {
    Pending,
    Complete,
    Failed(ClientError),
}

/// The listing of one level of the hierarchy, page by page.
pub struct Listing<T> {
    scope: Scope,
    records: Vec<T>,
    page_token: Option<String>,
    progress: Progress,
}

impl<T: View> View for Listing<T> {
    type V = ListingView<T::V>;

    closed spec fn view(&self) -> ListingView<T::V> {
        ListingView {
            scope: self.scope@,
            records: views(self.records@),
            page_token: text_of(self.page_token),
            progress: match self.progress {
                Progress::Pending => ProgressView::Pending,
                Progress::Complete => ProgressView::Complete,
                Progress::Failed(error) => ProgressView::Failed(error@),
            },
        }
    }
}

/// Whether a page with this token is the last of its listing.
pub fn names_no_next_page(next_page_token: &Option<String>) -> (last: bool)
    ensures
        last == is_last_page(text_of(*next_page_token)),
{
    match next_page_token {
        Some(token) => token.as_str().is_empty(),
        None => true,
    }
}

impl<T: View> Listing<T> {
    /// A listing of `scope` that has asked for nothing yet.
    pub fn new(scope: Scope) -> (listing: Listing<T>)
        ensures
            listing@ == ListingView::<T::V>::start(scope@),
    {
        let listing = Listing {
            scope,
            records: Vec::new(),
            page_token: None,
            progress: Progress::Pending,
        };
        assert(views(listing.records@) =~= Seq::<T::V>::empty());
        listing
    }

    /// What is listed.
    pub fn scope(&self) -> (scope: &Scope)
        ensures
            scope@ == self@.scope,
    {
        &self.scope
    }

    /// Whether the listing waits on a page.
    pub fn is_pending(&self) -> (pending: bool)
        ensures
            pending == (self@.progress is Pending),
    {
        match self.progress {
            Progress::Pending => true,
            _ => false,
        }
    }

    /// The request to send next; none once the listing is settled.
    pub fn request(&self) -> (request: Option<Request>)
        ensures
            request is Some == self@.request() is Some,
            request matches Some(r) ==> Some(r@) == self@.request(),
    {
        match self.progress {
            Progress::Pending => {
                let page_token = match &self.page_token {
                    Some(token) => Some(token.clone()),
                    None => None,
                };
                Some(Request { scope: self.scope.duplicate(), page_token })
            },
            _ => None,
        }
    }

    /// Takes in the page that the service sent for the pending request.
    pub fn accept_page(self, records: Vec<T>, next_page_token: Option<String>) -> (after: Listing<T>)
        ensures
            after@ == self@.accept(
                Ok(PageView { records: views(records@), next_page_token: text_of(next_page_token) }),
            ),
    {
        match self.progress {
            Progress::Pending => {
                let last = names_no_next_page(&next_page_token);
                let mut all = self.records;
                let mut page = records;
                proof {
                    lemma_views_add(all@, page@);
                }
                all.append(&mut page);
                Listing {
                    scope: self.scope,
                    records: all,
                    page_token: next_page_token,
                    progress: if last {
                        Progress::Complete
                    } else {
                        Progress::Pending
                    },
                }
            },
            _ => self,
        }
    }

    /// Takes in the failure of the pending request.
    pub fn fail(self, error: ClientError) -> (after: Listing<T>)
        ensures
            after@ == self@.accept(Err(error@)),
    {
        match self.progress {
            Progress::Pending => Listing {
                scope: self.scope,
                records: self.records,
                page_token: self.page_token,
                progress: Progress::Failed(error),
            },
            _ => self,
        }
    }

    /// What the listing came to: nothing while it is pending, else all its
    /// records in the order the service sent them, or the failure.
    pub fn finish(self) -> (outcome: Option<Result<Vec<T>, ClientError>>)
        ensures
            match outcome {
                None => self@.outcome() is None,
                Some(Ok(records)) => self@.outcome() == Some(
                    Ok::<Seq<T::V>, FailureView>(views(records@)),
                ),
                Some(Err(error)) => self@.outcome() == Some(
                    Err::<Seq<T::V>, FailureView>(error@),
                ),
            },
    {
        match self.progress {
            Progress::Pending => None,
            Progress::Complete => Some(Ok(self.records)),
            Progress::Failed(error) => Some(Err(error)),
        }
    }
}

} // verus!
