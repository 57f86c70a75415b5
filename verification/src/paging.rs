//! The paginated fetch: which page to ask the remote listing for next, and
//! what has been gathered so far. The caller performs each request and
//! hands the answer back.

use vstd::prelude::*;
use vstd::string::StringExecFns;

verus! {

/// The largest number of items asked for in one request.
pub const MAX_RESULTS: u32 = 40;

/// What is being listed.
#[derive(Debug, Clone, PartialEq, Eq)]
pub enum ListQuery {
    /// The playlists of the authenticated user.
    MyPlaylists,
    /// The entries of the playlist with the given identifier.
    PlaylistItems { playlist_id: String },
}

/// What a `ListQuery` holds.
pub enum ListQueryView {
    MyPlaylists,
    PlaylistItems { playlist_id: Seq<char> },
}

impl View for ListQuery {
    type V = ListQueryView;

    open spec fn view(&self) -> ListQueryView {
        match self {
            ListQuery::MyPlaylists => ListQueryView::MyPlaylists,
            ListQuery::PlaylistItems { playlist_id } => ListQueryView::PlaylistItems {
                playlist_id: playlist_id@,
            },
        }
    }
}

impl ListQueryView {
    /// The parts of each object that the remote is asked to fill in.
    pub open spec fn part(self) -> Seq<char> {
        match self {
            ListQueryView::MyPlaylists => "snippet"@,
            ListQueryView::PlaylistItems { .. } => "snippet,contentDetails"@,
        }
    }

    /// The words that report a failed request: they name the call, and for
    /// the entries of a playlist the playlist that was asked about.
    pub open spec fn failure_message(self) -> Seq<char> {
        match self {
            ListQueryView::MyPlaylists => "Error fetching playlists"@,
            ListQueryView::PlaylistItems { playlist_id } =>
                "Error requesting playlist items for playlist_id: "@ + playlist_id,
        }
    }
}

impl ListQuery {
    /// A copy of this query.
    pub fn duplicate(&self) -> (copy: ListQuery)
        ensures
            copy@ == self@,
    {
        match self {
            ListQuery::MyPlaylists => ListQuery::MyPlaylists,
            ListQuery::PlaylistItems { playlist_id } => ListQuery::PlaylistItems {
                playlist_id: playlist_id.clone(),
            },
        }
    }

    /// The parts of each object that the remote is asked to fill in.
    pub fn part(&self) -> (part: &'static str)
        ensures
            part@ == self@.part(),
    {
        match self {
            ListQuery::MyPlaylists => "snippet",
            ListQuery::PlaylistItems { .. } => "snippet,contentDetails",
        }
    }
}

/// One request to the remote listing.
#[derive(Debug, Clone, PartialEq, Eq)]
pub struct PageRequest {
    pub query: ListQuery,
    pub part: String,
    pub max_results: u32,
    /// The cursor that the previous page gave; empty for the first page.
    pub page_token: String,
}

/// What a `PageRequest` holds.
pub struct PageRequestView {
    pub query: ListQueryView,
    pub part: Seq<char>,
    pub max_results: u32,
    pub page_token: Seq<char>,
}

impl View for PageRequest {
    type V = PageRequestView;

    open spec fn view(&self) -> PageRequestView {
        PageRequestView {
            query: self.query@,
            part: self.part@,
            max_results: self.max_results,
            page_token: self.page_token@,
        }
    }
}

/// One answer of the remote listing.
#[derive(Debug, Clone, PartialEq, Eq)]
pub struct Page<T> {
    pub items: Vec<T>,
    /// Present where more pages follow.
    pub next_cursor: Option<String>,
}

/// The remote listing failed to answer: the whole fetch is lost.
#[derive(Debug, Clone, PartialEq, Eq)]
pub struct FetchError {
    /// The call that failed.
    pub query: ListQuery,
}

impl FetchError {
    /// The words that report this failure.
    pub fn message(&self) -> (message: String)
        ensures
            message@ == self.query@.failure_message(),
    {
        match &self.query {
            ListQuery::MyPlaylists => "Error fetching playlists".to_owned(),
            ListQuery::PlaylistItems { playlist_id } =>
                "Error requesting playlist items for playlist_id: ".to_owned().concat(
                    playlist_id.as_str(),
                ),
        }
    }
}

/// What the caller reports back after a request.
#[derive(Debug, Clone, PartialEq, Eq)]
pub enum PageEvent<T> {
    /// The remote answered with this page.
    Answer(Page<T>),
    /// The request failed.
    Failure,
}

/// What the caller is to do next.
#[derive(Debug, Clone, PartialEq, Eq)]
pub enum FetchAction {
    /// Send this request and report what came back.
    Request(PageRequest),
    /// Every page has arrived: take the items.
    Finish,
    /// Give up with this error.
    Abort(FetchError),
}

/// What a `FetchAction` holds.
pub enum FetchActionView {
    Request(PageRequestView),
    Finish,
    Abort(ListQueryView),
}

impl View for FetchAction {
    type V = FetchActionView;

    open spec fn view(&self) -> FetchActionView {
        match self {
            FetchAction::Request(request) => FetchActionView::Request(request@),
            FetchAction::Finish => FetchActionView::Finish,
            FetchAction::Abort(error) => FetchActionView::Abort(error.query@),
        }
    }
}

/// Where a fetch stands.
pub enum PhaseView {
    /// The page after `cursor` is to be asked for.
    Requesting { cursor: Seq<char> },
    /// The last page has arrived.
    Complete,
    /// A request failed.
    Failed,
}

/// The state of a fetch: what is listed, the items of the pages that have
/// arrived, in their order, and where the fetch stands.
pub struct PagerView<T> {
    pub query: ListQueryView,
    pub items: Seq<T>,
    pub phase: PhaseView,
}

impl<T> PagerView<T> {
    /// The state before the first request: nothing gathered, no cursor.
    pub open spec fn start(query: ListQueryView) -> PagerView<T> {
        PagerView {
            query,
            items: Seq::empty(),
            phase: PhaseView::Requesting { cursor: Seq::empty() },
        }
    }

    /// What the caller is to do in this state.
    pub open spec fn action(self) -> FetchActionView {
        match self.phase {
            PhaseView::Requesting { cursor } => FetchActionView::Request(
                PageRequestView {
                    query: self.query,
                    part: self.query.part(),
                    max_results: MAX_RESULTS,
                    page_token: cursor,
                },
            ),
            PhaseView::Complete => FetchActionView::Finish,
            PhaseView::Failed => FetchActionView::Abort(self.query),
        }
    }

    /// The state after a page has arrived: its items follow those gathered
    /// before, and its cursor, where it has one, is the next to ask with.
    /// A page that was not asked for changes nothing.
    pub open spec fn receive(self, page: Page<T>) -> PagerView<T> {
        match self.phase {
            PhaseView::Requesting { .. } => PagerView {
                query: self.query,
                items: self.items + page.items@,
                phase: match page.next_cursor {
                    Some(cursor) => PhaseView::Requesting { cursor: cursor@ },
                    None => PhaseView::Complete,
                },
            },
            _ => self,
        }
    }

    /// The state after a request has failed.
    pub open spec fn fail(self) -> PagerView<T> {
        match self.phase {
            PhaseView::Requesting { .. } => PagerView {
                query: self.query,
                items: self.items,
                phase: PhaseView::Failed,
            },
            _ => self,
        }
    }

    /// The state after `event`.
    pub open spec fn step(self, event: PageEvent<T>) -> PagerView<T> {
        match event {
            PageEvent::Answer(page) => self.receive(page),
            PageEvent::Failure => self.fail(),
        }
    }

    /// The state after the pages of `pages` have arrived one by one.
    pub open spec fn receive_all(self, pages: Seq<Page<T>>) -> PagerView<T>
        decreases pages.len(),
    {
        if pages.len() == 0 {
            self
        } else {
            self.receive_all(pages.drop_last()).receive(pages.last())
        }
    }
}

enum Phase {
    Requesting { cursor: String },
    Complete,
    Failed,
}

/// A fetch in progress.
pub struct Pager<T> {
    query: ListQuery,
    items: Vec<T>,
    phase: Phase,
}

impl<T> View for Pager<T> {
    type V = PagerView<T>;

    closed spec fn view(&self) -> PagerView<T> {
        PagerView {
            query: self.query@,
            items: self.items@,
            phase: match self.phase {
                Phase::Requesting { cursor } => PhaseView::Requesting { cursor: cursor@ },
                Phase::Complete => PhaseView::Complete,
                Phase::Failed => PhaseView::Failed,
            },
        }
    }
}

impl<T> Pager<T> {
    /// Begins a fetch.
    pub fn new(query: ListQuery) -> (pager: Pager<T>)
        ensures
            pager@ == PagerView::<T>::start(query@),
    {
        Pager { query, items: Vec::new(), phase: Phase::Requesting { cursor: String::new() } }
    }

    /// What the caller is to do now.
    pub fn action(&self) -> (action: FetchAction)
        ensures
            action@ == self@.action(),
    {
        match &self.phase {
            Phase::Requesting { cursor } => FetchAction::Request(
                PageRequest {
                    query: self.query.duplicate(),
                    part: self.query.part().to_owned(),
                    max_results: MAX_RESULTS,
                    page_token: cursor.clone(),
                },
            ),
            Phase::Complete => FetchAction::Finish,
            Phase::Failed => FetchAction::Abort(FetchError { query: self.query.duplicate() }),
        }
    }

    /// Takes in what came back from the last request, and says what to do
    /// next.
    pub fn step(&mut self, event: PageEvent<T>) -> (action: FetchAction)
        ensures
            final(self)@ == old(self)@.step(event),
            action@ == final(self)@.action(),
    {
        match event {
            PageEvent::Answer(page) => {
                if let Phase::Requesting { .. } = &self.phase {
                    let mut page = page;
                    self.items.append(&mut page.items);
                    self.phase = match page.next_cursor {
                        Some(cursor) => Phase::Requesting { cursor },
                        None => Phase::Complete,
                    };
                }
            },
            PageEvent::Failure => {
                if let Phase::Requesting { .. } = &self.phase {
                    self.phase = Phase::Failed;
                }
            },
        }
        self.action()
    }

    /// Ends the fetch. A complete fetch gives its items; of one that failed
    /// or was left unfinished nothing is handed out but the error.
    pub fn finish(self) -> (result: Result<Vec<T>, FetchError>)
        ensures
            match result {
                Ok(items) => self@.phase is Complete && items@ == self@.items,
                Err(error) => !(self@.phase is Complete) && error.query@ == self@.query,
            },
    {
        match self.phase {
            Phase::Complete => Ok(self.items),
            _ => Err(FetchError { query: self.query }),
        }
    }
}

/// The items of `pages`, page after page.
pub open spec fn collected<T>(pages: Seq<Page<T>>) -> Seq<T>
    decreases pages.len(),
{
    if pages.len() == 0 {
        Seq::empty()
    } else {
        collected(pages.drop_last()) + pages.last().items@
    }
}

/// Whether the page at index `last` is the first that names no further
/// page.
pub open spec fn ends_at<T>(pages: Seq<Page<T>>, last: int) -> bool {
    &&& 0 <= last < pages.len()
    &&& pages[last].next_cursor.is_none()
    &&& forall|i: int| 0 <= i < last ==> (#[trigger] pages[i]).next_cursor.is_some()
}

/// The index of the first page that names no further page, if there is one.
pub open spec fn listing_end<T>(pages: Seq<Page<T>>) -> Option<int> {
    if exists|last: int| ends_at(pages, last) {
        Some(choose|last: int| ends_at(pages, last))
    } else {
        None
    }
}

/// Whether `pages` is one whole listing: at least one page, each but the
/// last naming a further page, and the last naming none.
pub open spec fn is_listing<T>(pages: Seq<Page<T>>) -> bool {
    pages.len() > 0 && ends_at(pages, pages.len() - 1)
}

/// What a fetch gives against a remote that answers with `answers` in
/// turn, and fails once they are used up: the items of the pages up to the
/// first that names no further page, or the error when there is no such
/// page.
pub open spec fn fetched<T>(query: ListQueryView, answers: Seq<Page<T>>) -> Result<
    Seq<T>,
    ListQueryView,
> {
    match listing_end(answers) {
        Some(last) => Ok(collected(answers.take(last + 1))),
        None => Err(query),
    }
}

/// There is only one first page that names no further page.
pub proof fn lemma_listing_end_is<T>(pages: Seq<Page<T>>, last: int)
    requires
        ends_at(pages, last),
    ensures
        listing_end(pages) == Some(last),
{
    let chosen = choose|k: int| ends_at(pages, k);
    assert(ends_at(pages, chosen));
    if chosen < last {
        assert(pages[chosen].next_cursor.is_some());
    } else if last < chosen {
        assert(pages[last].next_cursor.is_some());
    }
}

/// While every page that has arrived named a further page, the fetch has
/// gathered the items of all of them and asks for the next page with the
/// cursor of the last, or with the empty cursor where none has arrived.
pub proof fn lemma_fetch_continues<T>(query: ListQueryView, pages: Seq<Page<T>>)
    requires
        forall|i: int| 0 <= i < pages.len() ==> (#[trigger] pages[i]).next_cursor.is_some(),
    ensures
        PagerView::<T>::start(query).receive_all(pages) == (PagerView {
            query,
            items: collected(pages),
            phase: PhaseView::Requesting {
                cursor: if pages.len() == 0 {
                    Seq::empty()
                } else {
                    pages.last().next_cursor.unwrap()@
                },
            },
        }),
    decreases pages.len(),
{
    if pages.len() > 0 {
        lemma_fetch_continues(query, pages.drop_last());
    }
}

/// A fetch over one whole listing of any number of pages ends complete,
/// with the items of every page, in page order, however they are spread
/// over the pages.
pub proof fn lemma_fetch_concatenates<T>(query: ListQueryView, pages: Seq<Page<T>>)
    requires
        is_listing(pages),
    ensures
        PagerView::<T>::start(query).receive_all(pages) == (PagerView {
            query,
            items: collected(pages),
            phase: PhaseView::Complete,
        }),
        fetched(query, pages) == Ok::<Seq<T>, ListQueryView>(collected(pages)),
{
    lemma_fetch_continues(query, pages.drop_last());
    lemma_listing_end_is(pages, pages.len() - 1);
    assert(pages.take(pages.len() - 1 + 1) == pages);
}

/// Runs a whole fetch against a remote that answers with `answers` in turn
/// and fails once they are used up.
pub fn fetch_all<T>(query: ListQuery, answers: Vec<Page<T>>) -> (result: Result<Vec<T>, FetchError>)
    ensures
        match result {
            Ok(items) => fetched(query@, answers@) == Ok::<Seq<T>, ListQueryView>(items@),
            Err(error) => fetched(query@, answers@) == Err::<Seq<T>, ListQueryView>(error.query@),
        },
{
    broadcast use vstd::std_specs::vec::axiom_spec_into_iter;

    let ghost start = PagerView::<T>::start(query@);
    let mut pager: Pager<T> = Pager::new(query);
    for page in it: answers
        invariant
            it.seq() == answers@,
            start == PagerView::<T>::start(query@),
            pager@ == start.receive_all(answers@.take(it.index())),
            forall|i: int| 0 <= i < it.index() ==> (#[trigger] answers@[i]).next_cursor.is_some(),
    {
        let ghost done = answers@.take(it.index());
        proof {
            lemma_fetch_continues(query@, done);
            assert(answers@.take(it.index() + 1).drop_last() == done);
        }
        let action = pager.step(PageEvent::Answer(page));
        if let FetchAction::Finish = action {
            proof {
                lemma_listing_end_is(answers@, it.index());
                lemma_fetch_concatenates(query@, answers@.take(it.index() + 1));
            }
            return pager.finish();
        }
    }
    proof {
        lemma_fetch_continues(query@, answers@);
        assert(answers@.take(answers@.len() as int) == answers@);
        assert forall|last: int| !ends_at(answers@, last) by {}
    }
    pager.step(PageEvent::Failure);
    pager.finish()
}

} // verus!
