//! Fetching a paginated resource: which request comes next, and how the pages
//! that arrive are put together.
//!
//! A fetch starts with one request. Each page that arrives is appended to the
//! records gathered so far; if the page names a next page, the address it
//! gives is the next request, and if it names none, the fetch is complete.
//! Every request of a fetch costs one permit of the rate limiter. A request
//! that fails ends the fetch: nothing is asked again, and the records
//! gathered so far are given up.

use crate::data_processing::{PageData, PagedData, Response};
use vstd::prelude::*;

verus! {

/// Why a request brought no answer to go on with. Both end the fetch in the
/// same way.
#[derive(Debug, Clone, Copy, PartialEq, Eq, Structural)]
pub enum FetchError {
    /// The request could not be sent, no answer came, or the answer came
    /// with a status other than success.
    Transport,
    /// The body of the answer has another shape than the one expected.
    Deserialization,
}

impl FetchError {
    /// The text this error is reported with.
    pub fn message(&self) -> (text: String)
        ensures
            text@ == (match *self {
                FetchError::Transport => "Transport Error"@,
                FetchError::Deserialization => "Deserialization Error"@,
            }),
    {
        match self {
            FetchError::Transport => String::from_str("Transport Error"),
            FetchError::Deserialization => String::from_str("Deserialization Error"),
        }
    }
}

/// One query parameter of a request.
#[derive(Debug, Clone)]
pub struct QueryParam {
    pub name: String,
    pub value: String,
}

/// A request to send: the address, the query parameters to attach to it, and
/// the number of permits to wait for before it is sent.
#[derive(Debug)]
pub struct Request {
    pub url: String,
    pub params: Vec<QueryParam>,
    pub permits: u32,
}

/// A request, by what it says.
pub struct RequestView {
    pub url: Seq<char>,
    pub params: Seq<(Seq<char>, Seq<char>)>,
    pub permits: nat,
}

/// Query parameters as pairs of name and value.
pub open spec fn params_view(params: Seq<QueryParam>) -> Seq<(Seq<char>, Seq<char>)> {
    Seq::new(params.len(), |i: int| (params[i].name@, params[i].value@))
}

impl View for Request {
    type V = RequestView;

    open spec fn view(&self) -> RequestView {
        RequestView {
            url: self.url@,
            params: params_view(self.params@),
            permits: self.permits as nat,
        }
    }
}

impl RequestView {
    /// The request for a page: it costs one permit.
    pub open spec fn page(url: Seq<char>, params: Seq<(Seq<char>, Seq<char>)>) -> RequestView {
        RequestView { url, params, permits: 1 }
    }
}

/// The address of the page after `page`, if `page` names one.
pub open spec fn next_url<T>(page: PagedData<T>) -> Option<Seq<char>> {
    match page.pages {
        Some(paging) => match paging.next_url {
            Some(url) => Some(url@),
            None => None,
        },
        None => None,
    }
}

/// The state of a fetch: the records gathered so far, the request that is to
/// be sent next, and the failure that ended it. A fetch without a request to
/// send has ended: it is complete, or it has failed.
pub struct FetchView<T> {
    pub records: Seq<Response<T>>,
    pub pending: Option<RequestView>,
    pub failure: Option<FetchError>,
}

impl<T> FetchView<T> {
    /// A fetch begins with no records and the request for the first page.
    pub open spec fn start(url: Seq<char>, params: Seq<(Seq<char>, Seq<char>)>) -> FetchView<T> {
        FetchView {
            records: Seq::empty(),
            pending: Some(RequestView::page(url, params)),
            failure: None,
        }
    }

    /// The state after `page` has arrived in answer to the pending request:
    /// its records follow those gathered before, and the address it names is
    /// followed as it stands, without parameters. A fetch that has ended
    /// takes no further page.
    pub open spec fn absorb(self, page: PagedData<T>) -> FetchView<T> {
        if self.pending is None {
            self
        } else {
            FetchView {
                records: self.records + page.data@,
                pending: match next_url(page) {
                    Some(url) => Some(RequestView::page(url, Seq::empty())),
                    None => None,
                },
                failure: None,
            }
        }
    }

    /// The state after the pending request has failed: the fetch has ended,
    /// with no request to send and none of the records gathered before.
    pub open spec fn fail(self, error: FetchError) -> FetchView<T> {
        if self.pending is None {
            self
        } else {
            FetchView { records: Seq::empty(), pending: None, failure: Some(error) }
        }
    }

    /// The state after the pending request has been answered by a page, or
    /// has failed.
    pub open spec fn on(self, outcome: Result<PagedData<T>, FetchError>) -> FetchView<T> {
        match outcome {
            Ok(page) => self.absorb(page),
            Err(error) => self.fail(error),
        }
    }

    /// The state after `pages` have arrived, one after the other.
    pub open spec fn feed(self, pages: Seq<PagedData<T>>) -> FetchView<T>
        decreases pages.len(),
    {
        if pages.len() == 0 {
            self
        } else {
            self.feed(pages.drop_last()).absorb(pages.last())
        }
    }

    /// The permits that the requests answered by `pages` have cost.
    pub open spec fn permits_spent(self, pages: Seq<PagedData<T>>) -> nat
        decreases pages.len(),
    {
        if pages.len() == 0 {
            0
        } else {
            self.permits_spent(pages.drop_last()) + (match self.feed(pages.drop_last()).pending {
                Some(request) => request.permits,
                None => 0,
            })
        }
    }
}

/// The records of `pages`, page after page and within a page in its order.
pub open spec fn all_records<T>(pages: Seq<PagedData<T>>) -> Seq<Response<T>>
    decreases pages.len(),
{
    if pages.len() == 0 {
        Seq::empty()
    } else {
        all_records(pages.drop_last()) + pages.last().data@
    }
}

/// Whether `pages` is what a server sends for a resource of that many pages:
/// every page but the last names a next page, and the last names none.
pub open spec fn is_paging<T>(pages: Seq<PagedData<T>>) -> bool {
    &&& pages.len() > 0
    &&& forall|i: int| 0 <= i < pages.len() - 1 ==> next_url(#[trigger] pages[i]) is Some
    &&& next_url(pages.last()) is None
}

/// While every page so far has named a next page, the fetch holds the records
/// of those pages in their order, has spent one permit for each of them, and
/// its pending request follows the address that the last of them named.
pub proof fn lemma_fetch_in_progress<T>(
    url: Seq<char>,
    params: Seq<(Seq<char>, Seq<char>)>,
    pages: Seq<PagedData<T>>,
)
    requires
        forall|i: int| 0 <= i < pages.len() ==> next_url(#[trigger] pages[i]) is Some,
    ensures
        FetchView::<T>::start(url, params).feed(pages).records == all_records(pages),
        FetchView::<T>::start(url, params).feed(pages).failure is None,
        FetchView::<T>::start(url, params).permits_spent(pages) == pages.len(),
        FetchView::<T>::start(url, params).feed(pages).pending == Some(
            if pages.len() == 0 {
                RequestView::page(url, params)
            } else {
                RequestView::page(next_url(pages.last()).unwrap(), Seq::empty())
            },
        ),
    decreases pages.len(),
{
    if pages.len() > 0 {
        let front = pages.drop_last();
        assert forall|i: int| 0 <= i < front.len() implies next_url(#[trigger] front[i])
            is Some by {
            assert(front[i] == pages[i]);
        }
        lemma_fetch_in_progress(url, params, front);
        assert(next_url(pages[pages.len() - 1]) is Some);
    }
}

/// A fetch of a resource of N pages is complete after exactly N pages: it
/// then holds the records of all pages, page after page, and has spent one
/// permit for each page. Before the last page it is not complete.
pub proof fn lemma_pagination_complete<T>(
    url: Seq<char>,
    params: Seq<(Seq<char>, Seq<char>)>,
    pages: Seq<PagedData<T>>,
)
    requires
        is_paging(pages),
    ensures
        FetchView::<T>::start(url, params).feed(pages).pending is None,
        FetchView::<T>::start(url, params).feed(pages).failure is None,
        FetchView::<T>::start(url, params).feed(pages).records == all_records(pages),
        FetchView::<T>::start(url, params).permits_spent(pages) == pages.len(),
        forall|k: int|
            0 <= k < pages.len() ==> (#[trigger] FetchView::<T>::start(url, params).feed(
                pages.take(k),
            )).pending is Some,
{
    let start = FetchView::<T>::start(url, params);
    assert forall|k: int| 0 <= k < pages.len() implies (#[trigger] start.feed(
        pages.take(k),
    )).pending is Some by {
        let prefix = pages.take(k);
        assert forall|i: int| 0 <= i < prefix.len() implies next_url(#[trigger] prefix[i])
            is Some by {
            assert(prefix[i] == pages[i]);
        }
        lemma_fetch_in_progress(url, params, prefix);
    }
    let front = pages.drop_last();
    assert forall|i: int| 0 <= i < front.len() implies next_url(#[trigger] front[i]) is Some by {
        assert(front[i] == pages[i]);
    }
    lemma_fetch_in_progress(url, params, front);
}

/// A failure is final and leaves nothing behind: the fetch holds no records
/// and has no request to send, and neither a page nor another failure changes
/// that.
pub proof fn lemma_failure_is_final<T>(
    fetch: FetchView<T>,
    error: FetchError,
    later: Seq<PagedData<T>>,
    other: FetchError,
)
    requires
        fetch.pending is Some,
    ensures
        fetch.fail(error).failure == Some(error),
        fetch.fail(error).records.len() == 0,
        fetch.fail(error).pending is None,
        fetch.fail(error).feed(later) == fetch.fail(error),
        fetch.fail(error).fail(other) == fetch.fail(error),
        fetch.fail(error).permits_spent(later) == 0,
    decreases later.len(),
{
    if later.len() > 0 {
        lemma_failure_is_final(fetch, error, later.drop_last(), other);
    }
}

/// A fetch in progress. It always has a request pending.
#[derive(Debug)]
pub struct PagedFetch<T> {
    records: Vec<Response<T>>,
    request: Request,
}

/// Where a fetch stands after the outcome of a request: waiting for a
/// further page, complete with all its records, or failed.
#[derive(Debug)]
pub enum Progress<T> {
    Pending(PagedFetch<T>),
    Complete(Vec<Response<T>>),
    Failed(FetchError),
}

impl<T> View for PagedFetch<T> {
    type V = FetchView<T>;

    closed spec fn view(&self) -> FetchView<T> {
        FetchView { records: self.records@, pending: Some(self.request@), failure: None }
    }
}

impl<T> View for Progress<T> {
    type V = FetchView<T>;

    open spec fn view(&self) -> FetchView<T> {
        match self {
            Progress::Pending(fetch) => fetch@,
            Progress::Complete(records) => FetchView {
                records: records@,
                pending: None,
                failure: None,
            },
            Progress::Failed(error) => FetchView {
                records: Seq::empty(),
                pending: None,
                failure: Some(*error),
            },
        }
    }
}

impl<T> PagedFetch<T> {
    /// Begins the fetch of the resource at `url`. The parameters go with the
    /// first request only.
    pub fn new(url: String, params: Vec<QueryParam>) -> (fetch: Self)
        ensures
            fetch@ == FetchView::<T>::start(url@, params_view(params@)),
    {
        PagedFetch { records: Vec::new(), request: Request { url, params, permits: 1 } }
    }

    /// The request to send next.
    pub fn request(&self) -> (request: &Request)
        ensures
            self@.pending == Some(request@),
    {
        &self.request
    }

    /// Takes the outcome of the pending request: the page that arrived in
    /// answer to it, or the failure.
    pub fn on_outcome(self, outcome: Result<PagedData<T>, FetchError>) -> (progress: Progress<T>)
        ensures
            progress@ == self@.on(outcome),
            match outcome {
                Ok(page) => if next_url(page) is Some {
                    progress is Pending
                } else {
                    progress is Complete
                },
                Err(error) => progress == Progress::<T>::Failed(error),
            },
    {
        match outcome {
            Ok(page) => self.on_page(page),
            Err(error) => self.on_failure(error),
        }
    }

    /// Takes the failure of the pending request. The records gathered so far
    /// go with the fetch.
    pub fn on_failure(self, error: FetchError) -> (progress: Progress<T>)
        ensures
            progress@ == self@.fail(error),
            progress == Progress::<T>::Failed(error),
    {
        Progress::Failed(error)
    }

    /// Takes the page that arrived in answer to the pending request.
    pub fn on_page(self, page: PagedData<T>) -> (progress: Progress<T>)
        ensures
            progress@ == self@.absorb(page),
            if next_url(page) is Some {
                progress is Pending
            } else {
                progress is Complete
            },
    {
        let mut records = self.records;
        let mut data = page.data;
        records.append(&mut data);
        let next = match page.pages {
            Some(paging) => paging.next_url,
            None => None,
        };
        match next {
            Some(url) => {
                let request = Request { url, params: Vec::new(), permits: 1 };
                assert(request@.params =~= Seq::empty());
                Progress::Pending(PagedFetch { records, request })
            },
            None => Progress::Complete(records),
        }
    }
}

} // verus!
