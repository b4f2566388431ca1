//! Aggregation of a listing that the server hands out page by page.
//!
//! A `Paginator` never sends anything. It names the URL to request, takes
//! what came back, and says what to do next: request another page, return
//! the items, or give up. The caller does the sending, strictly one page
//! after the other.

use vstd::prelude::*;
use vstd::string::*;
use crate::client::{Error, Paging, Request};

verus! {

/// One page of a listing: its items in the server's order, and the URL of the
/// next page if the server says that there is one.
#[derive(Clone, Debug, PartialEq, Eq)]
pub struct Page<T> {
    pub items: Vec<T>,
    pub next: Option<String>,
}

/// What a request for a page ended in.
pub type Fetched<T> = Result<Page<T>, Error>;

/// An aggregation that waits for the answer to one request.
#[derive(Debug)]
pub struct Paginator<T> {
    follow: bool,
    url: String,
    items: Vec<T>,
}

/// The state of an aggregation as plain mathematical values.
pub struct PaginatorView<T> {
    /// Whether continuation cursors are followed.
    pub follow: bool,
    /// The URL whose page is awaited.
    pub url: Seq<char>,
    /// The items of the pages received so far.
    pub items: Seq<T>,
}

/// What an aggregation asks of its caller after a page or a failure.
#[derive(Debug)]
pub enum Progress<T> {
    /// Request the page at the paginator's URL and hand the outcome to it.
    Fetch(Paginator<T>),
    /// The listing is complete: these are its items.
    Done(Vec<T>),
    /// A request failed. Nothing of the pages received before is returned.
    Failed(Error),
}

/// `Progress` as plain mathematical values.
pub enum ProgressView<T> {
    Fetch(PaginatorView<T>),
    Done(Seq<T>),
    Failed(Error),
}

impl<T> View for Paginator<T> {
    type V = PaginatorView<T>;

    closed spec fn view(&self) -> PaginatorView<T> {
        PaginatorView { follow: self.follow, url: self.url@, items: self.items@ }
    }
}

impl<T> View for Progress<T> {
    type V = ProgressView<T>;

    open spec fn view(&self) -> ProgressView<T> {
        match *self {
            Progress::Fetch(paginator) => ProgressView::Fetch(paginator@),
            Progress::Done(items) => ProgressView::Done(items@),
            Progress::Failed(error) => ProgressView::Failed(error),
        }
    }
}

/// The state in which an aggregation starts: nothing received, `url` awaited.
pub open spec fn begin<T>(follow: bool, url: Seq<char>) -> PaginatorView<T> {
    PaginatorView { follow, url, items: Seq::empty() }
}

/// Whether a paging mode follows continuation cursors.
pub open spec fn follows(paging: Paging) -> bool {
    paging == Paging::All
}

/// One step of an aggregation. A failure ends it and drops what was
/// gathered. A page's items go behind those gathered before; then the next
/// page is awaited if cursors are followed and the page has one, and
/// otherwise the aggregation is complete.
pub open spec fn step<T>(state: PaginatorView<T>, fetched: Fetched<T>) -> ProgressView<T> {
    match fetched {
        Err(error) => ProgressView::Failed(error),
        Ok(page) => {
            let items = state.items + page.items@;
            match page.next {
                Some(next) if state.follow => ProgressView::Fetch(
                    PaginatorView { follow: true, url: next@, items },
                ),
                _ => ProgressView::Done(items),
            }
        },
    }
}

/// Where an aggregation stands after its requests were answered by
/// `outcomes`, in this order. Outcomes beyond the one that ends the
/// aggregation belong to requests that are never made, and count for nothing.
pub open spec fn run<T>(state: PaginatorView<T>, outcomes: Seq<Fetched<T>>) -> ProgressView<T>
    decreases outcomes.len(),
{
    if outcomes.len() == 0 {
        ProgressView::Fetch(state)
    } else {
        match step(state, outcomes[0]) {
            ProgressView::Fetch(next) => run(next, outcomes.skip(1)),
            ended => ended,
        }
    }
}

/// The URLs of the requests that an aggregation makes and sees answered,
/// given the outcomes that its requests would have.
pub open spec fn requests<T>(state: PaginatorView<T>, outcomes: Seq<Fetched<T>>) -> Seq<Seq<char>>
    decreases outcomes.len(),
{
    if outcomes.len() == 0 {
        Seq::empty()
    } else {
        match step(state, outcomes[0]) {
            ProgressView::Fetch(next) => seq![state.url] + requests(next, outcomes.skip(1)),
            _ => seq![state.url],
        }
    }
}

/// The items of a page that arrived; none for a failure.
pub open spec fn items_of<T>(fetched: Fetched<T>) -> Seq<T> {
    match fetched {
        Ok(page) => page.items@,
        Err(_) => Seq::empty(),
    }
}

/// The items of all pages among `outcomes`, in order.
pub open spec fn all_items<T>(outcomes: Seq<Fetched<T>>) -> Seq<T>
    decreases outcomes.len(),
{
    if outcomes.len() == 0 {
        Seq::empty()
    } else {
        items_of(outcomes[0]) + all_items(outcomes.skip(1))
    }
}

/// A page that arrived and names a next page.
pub open spec fn continues<T>(fetched: Fetched<T>) -> bool {
    fetched matches Ok(page) && page.next is Some
}

/// A page that arrived and names no next page.
pub open spec fn is_last<T>(fetched: Fetched<T>) -> bool {
    fetched matches Ok(page) && page.next is None
}

/// The URL of the next page that a page names.
pub open spec fn cursor<T>(fetched: Fetched<T>) -> Seq<char>
    recommends
        continues(fetched),
{
    fetched->Ok_0.next->0@
}

impl<T> Paginator<T> {
    /// Starts the aggregation of every page of the listing at `start_url`.
    pub fn fetch_all(start_url: String) -> (paginator: Self)
        ensures
            paginator@ == begin::<T>(true, start_url@),
    {
        Paginator { follow: true, url: start_url, items: Vec::new() }
    }

    /// Starts a bounded fetch: the page at `url` and no other, whatever
    /// cursor it carries.
    pub fn fetch_one(url: String) -> (paginator: Self)
        ensures
            paginator@ == begin::<T>(false, url@),
    {
        Paginator { follow: false, url, items: Vec::new() }
    }

    /// Starts from a request: at its URL, following cursors if the request
    /// asks for all pages.
    pub fn start(request: &Request) -> (paginator: Self)
        ensures
            paginator@ == begin::<T>(follows(request.paging), request.url@),
    {
        let follow = match request.paging {
            Paging::All => true,
            Paging::Single => false,
        };
        Paginator { follow, url: request.url.clone(), items: Vec::new() }
    }

    /// The URL to request now.
    pub fn url(&self) -> (url: &str)
        ensures
            url@ == self@.url,
    {
        self.url.as_str()
    }

    /// Takes the outcome of the request for `self.url()` and decides how the
    /// aggregation goes on.
    pub fn receive(self, fetched: Fetched<T>) -> (progress: Progress<T>)
        ensures
            progress@ == step(self@, fetched),
    {
        match fetched {
            Err(error) => Progress::Failed(error),
            Ok(page) => {
                let mut items = self.items;
                let mut arrived = page.items;
                items.append(&mut arrived);
                match page.next {
                    Some(next) => {
                        if self.follow {
                            Progress::Fetch(Paginator { follow: true, url: next, items })
                        } else {
                            Progress::Done(items)
                        }
                    },
                    None => Progress::Done(items),
                }
            },
        }
    }
}

/// While cursors are followed and every page but the last names a next page,
/// the aggregation ends with the last page and returns what it had gathered
/// followed by the items of all pages in order. It makes one request per
/// page: the first for the awaited URL, each later one for the cursor of the
/// page before.
pub proof fn lemma_run_follows_cursors<T>(state: PaginatorView<T>, outcomes: Seq<Fetched<T>>)
    requires
        state.follow,
        outcomes.len() >= 1,
        forall|i: int| 0 <= i < outcomes.len() - 1 ==> continues(#[trigger] outcomes[i]),
        is_last(outcomes.last()),
    ensures
        run(state, outcomes) == ProgressView::Done(state.items + all_items(outcomes)),
        requests(state, outcomes).len() == outcomes.len(),
        requests(state, outcomes)[0] == state.url,
        forall|i: int|
            1 <= i < outcomes.len() ==> #[trigger] requests(state, outcomes)[i] == cursor(
                outcomes[i - 1],
            ),
    decreases outcomes.len(),
{
    let rest = outcomes.skip(1);
    if outcomes.len() == 1 {
        assert(all_items(rest) == Seq::<T>::empty());
        assert(state.items + all_items(outcomes) == state.items + items_of(outcomes[0]));
    } else {
        assert(continues(outcomes[0]));
        let next = step(state, outcomes[0])->Fetch_0;
        assert(rest.last() == outcomes.last());
        assert forall|i: int| 0 <= i < rest.len() - 1 implies continues(#[trigger] rest[i]) by {
            assert(rest[i] == outcomes[i + 1]);
        }
        lemma_run_follows_cursors(next, rest);
        assert(next.items + all_items(rest) == state.items + all_items(outcomes));
        assert forall|i: int| 1 <= i < outcomes.len() implies #[trigger] requests(
            state,
            outcomes,
        )[i] == cursor(outcomes[i - 1]) by {
            if i > 1 {
                assert(requests(next, rest)[i - 1] == cursor(rest[i - 2]));
            }
        }
    }
}

/// A listing of `n` pages, of which all but the last carry a cursor, is
/// returned whole by `fetch_all`: the items of every page, in the order of
/// the pages, after exactly `n` requests.
pub proof fn lemma_fetch_all_returns_every_page<T>(start_url: Seq<char>, pages: Seq<Fetched<T>>)
    requires
        pages.len() >= 1,
        forall|i: int| 0 <= i < pages.len() - 1 ==> continues(#[trigger] pages[i]),
        is_last(pages.last()),
    ensures
        run(begin(true, start_url), pages) == ProgressView::Done(all_items(pages)),
        requests(begin(true, start_url), pages).len() == pages.len(),
        requests(begin(true, start_url), pages)[0] == start_url,
        forall|i: int|
            1 <= i < pages.len() ==> #[trigger] requests(begin(true, start_url), pages)[i]
                == cursor(pages[i - 1]),
{
    let state = begin::<T>(true, start_url);
    lemma_run_follows_cursors(state, pages);
    assert(state.items + all_items(pages) == all_items(pages));
}

/// A failure on any page ends the whole aggregation with that failure: no
/// item of the pages before it is returned, and no request is made after it.
pub proof fn lemma_failure_discards_pages<T>(
    state: PaginatorView<T>,
    outcomes: Seq<Fetched<T>>,
    failed: int,
)
    requires
        state.follow,
        0 <= failed < outcomes.len(),
        forall|i: int| 0 <= i < failed ==> continues(#[trigger] outcomes[i]),
        outcomes[failed] is Err,
    ensures
        run(state, outcomes) == ProgressView::<T>::Failed(outcomes[failed]->Err_0),
        requests(state, outcomes).len() == failed + 1,
    decreases outcomes.len(),
{
    if failed > 0 {
        assert(continues(outcomes[0]));
        let next = step(state, outcomes[0])->Fetch_0;
        let rest = outcomes.skip(1);
        assert forall|i: int| 0 <= i < failed - 1 implies continues(#[trigger] rest[i]) by {
            assert(rest[i] == outcomes[i + 1]);
        }
        lemma_failure_discards_pages(next, rest, failed - 1);
    }
}

/// `fetch_one` returns the items of the first page and makes one request,
/// whether or not the page carries a cursor, and whatever later requests
/// would have brought.
pub proof fn lemma_fetch_one_stops_after_first_page<T>(url: Seq<char>, outcomes: Seq<Fetched<T>>)
    requires
        outcomes.len() >= 1,
        outcomes[0] is Ok,
    ensures
        run(begin(false, url), outcomes) == ProgressView::Done(items_of(outcomes[0])),
        requests(begin(false, url), outcomes) == seq![url],
{
    let state = begin::<T>(false, url);
    assert(state.items + items_of(outcomes[0]) == items_of(outcomes[0]));
}

} // verus!
