//! The paginated fetcher: a four-state machine that turns a token-paginated
//! search endpoint into a flat, ordered, finite sequence of envelope-wrapped
//! items. The machine decides; its consumer performs the page requests and
//! delivers each response back.

use vstd::prelude::*;
use vstd::seq_lib::group_seq_properties;
use crate::model::{
    CrawlError, Envelope, Page, Post, RateLimit, RawPage, SearchCursor, opt_str_view, parse_page,
    raw_page_well_formed,
};

verus! {

broadcast use group_seq_properties, Seq::<_>::lemma_flatten_push;

/// The fetcher's control state.
#[derive(Clone, Copy, PartialEq, Eq, Structural, Debug)]
pub enum CursorState {
    /// Initial state; no page loaded yet.
    Idle,
    /// A page request is outstanding; its response must be delivered next.
    AwaitingPage,
    /// Buffered items are being yielded one at a time, in arrival order.
    Draining,
    /// Terminal: every further advancement yields end-of-sequence.
    Exhausted,
    /// Terminal: a page fetch failed; the fetcher is not resumable.
    Failed,
}

/// The parameters of one page request, handed to the consumer to perform.
pub struct PageRequest {
    /// The base query scoping results to the thread's root.
    pub query: String,
    /// Page-size hint, where the endpoint accepts one.
    pub page_size: Option<u32>,
    /// The stored continuation token; absent on the very first request.
    pub next_token: Option<String>,
}

/// What one advancement of the fetcher produced.
pub enum Step {
    /// The next item of the flattened sequence.
    Yield(Envelope),
    /// The consumer must fetch this page and deliver its response.
    Fetch(PageRequest),
    /// End of the sequence.
    Done,
}

/// The mathematical model of a fetcher.
pub struct CursorModel {
    pub query: Seq<char>,
    pub page_size: Option<u32>,
    pub state: CursorState,
    /// The continuation token stored from the most recent page.
    pub token: Option<Seq<char>>,
    /// The rate-limit envelope captured from the most recent page.
    pub rate: RateLimit,
    /// Items of the current page not yet yielded, in arrival order.
    pub buffered: Seq<Post>,
    /// The item sequences of the pages delivered so far, in order.
    pub delivered: Seq<Seq<Post>>,
    /// The items yielded so far, in order.
    pub yielded: Seq<Post>,
}

/// A lazy, finite, not-restartable iterator over a token-paginated search
/// endpoint. Constructed once per crawl and discarded once exhausted.
pub struct CursorIter {
    query: String,
    page_size: Option<u32>,
    state: CursorState,
    next_token: Option<String>,
    rate: RateLimit,
    buffer: Vec<Post>,
    delivered: Ghost<Seq<Seq<Post>>>,
    yielded: Ghost<Seq<Post>>,
}

impl View for CursorIter {
    type V = CursorModel;

    closed spec fn view(&self) -> CursorModel {
        CursorModel {
            query: self.query@,
            page_size: self.page_size,
            state: self.state,
            token: opt_str_view(self.next_token),
            rate: self.rate,
            buffered: self.buffer@,
            delivered: self.delivered@,
            yielded: self.yielded@,
        }
    }
}

impl CursorIter {
    /// The fetcher's invariant: what was delivered is exactly what was yielded
    /// followed by what is still buffered, and each control state constrains
    /// the buffer and token as the state machine demands.
    pub open spec fn wf(&self) -> bool {
        &&& self@.delivered.flatten() == self@.yielded + self@.buffered
        &&& self@.state is Idle ==> {
            &&& self@.delivered == Seq::<Seq<Post>>::empty()
            &&& self@.yielded == Seq::<Post>::empty()
            &&& self@.buffered == Seq::<Post>::empty()
            &&& self@.token is None
        }
        &&& self@.state is AwaitingPage ==> self@.buffered == Seq::<Post>::empty()
        &&& self@.state is Exhausted ==> {
            &&& self@.buffered == Seq::<Post>::empty()
            &&& self@.token is None
            &&& self@.yielded == self@.delivered.flatten()
        }
    }

    /// A fresh fetcher for one crawl, scoped by `query`, with an optional
    /// page-size hint. No page is loaded and nothing has been yielded.
    pub fn new(query: String, page_size: Option<u32>) -> (it: CursorIter)
        ensures
            it.wf(),
            it@.query == query@,
            it@.page_size == page_size,
            it@.state is Idle,
            it@.token is None,
            it@.delivered == Seq::<Seq<Post>>::empty(),
            it@.yielded == Seq::<Post>::empty(),
            it@.buffered == Seq::<Post>::empty(),
    {
        let it = CursorIter {
            query,
            page_size,
            state: CursorState::Idle,
            next_token: None,
            rate: RateLimit { limit: 0, remaining: 0, reset: 0 },
            buffer: Vec::new(),
            delivered: Ghost(Seq::empty()),
            yielded: Ghost(Seq::empty()),
        };
        proof {
            assert(it@.delivered.flatten() =~= it@.yielded + it@.buffered);
        }
        it
    }

    /// Sets the number of results asked for in a single network call, for
    /// endpoints that accept a page-size hint (those constructed with one).
    /// Where the endpoint accepts no hint, the fetcher is returned unchanged;
    /// otherwise any loaded results are invalidated and the fetcher starts
    /// over from its initial state.
    pub fn with_page_size(self, page_size: u32) -> (it: CursorIter)
        requires
            self.wf(),
        ensures
            it.wf(),
            self@.page_size is Some ==> {
                &&& it@.query == self@.query
                &&& it@.page_size == Some(page_size)
                &&& it@.state is Idle
                &&& it@.token is None
                &&& it@.delivered == Seq::<Seq<Post>>::empty()
                &&& it@.yielded == Seq::<Post>::empty()
            },
            self@.page_size is None ==> it@ == self@,
    {
        if self.page_size.is_some() {
            let it = CursorIter {
                page_size: Some(page_size),
                state: CursorState::Idle,
                next_token: None,
                buffer: Vec::new(),
                delivered: Ghost(Seq::empty()),
                yielded: Ghost(Seq::empty()),
                ..self
            };
            proof {
                assert(it@.delivered.flatten() =~= it@.yielded + it@.buffered);
            }
            it
        } else {
            self
        }
    }

    /// The request for the next page: the base query, the page-size hint, and
    /// the currently stored continuation token (absent on the very first
    /// request). The consumer performs it and delivers the response.
    pub fn call(&self) -> (req: PageRequest)
        ensures
            req.query@ == self@.query,
            req.page_size == self@.page_size,
            opt_str_view(req.next_token) == self@.token,
    {
        PageRequest {
            query: self.query.clone(),
            page_size: self.page_size,
            next_token: match &self.next_token {
                Some(s) => Some(s.clone()),
                None => None,
            },
        }
    }

    /// One advancement of the state machine. From `Idle`, or from `Draining`
    /// with an empty buffer and a stored token, it asks for a page; while the
    /// buffer holds items it yields the first one, wrapped in the current
    /// page's rate-limit envelope; with an empty buffer and no token it is
    /// exhausted. Exhaustion is decided by the absence of a continuation
    /// token alone, never by an empty item list.
    pub fn advance(&mut self) -> (step: Step)
        requires
            old(self).wf(),
            !(old(self)@.state is AwaitingPage),
            !(old(self)@.state is Failed),
        ensures
            final(self).wf(),
            final(self)@.query == old(self)@.query,
            final(self)@.page_size == old(self)@.page_size,
            final(self)@.delivered == old(self)@.delivered,
            final(self)@.rate == old(self)@.rate,
            old(self)@.state is Idle ==> {
                &&& final(self)@.state is AwaitingPage
                &&& final(self)@.yielded == old(self)@.yielded
                &&& final(self)@.token == old(self)@.token
                &&& (step matches Step::Fetch(req) && req.query@ == old(self)@.query
                    && req.page_size == old(self)@.page_size && opt_str_view(req.next_token)
                    == old(self)@.token)
            },
            old(self)@.state is Draining && old(self)@.buffered.len() > 0 ==> {
                &&& final(self)@.state is Draining
                &&& final(self)@.buffered == old(self)@.buffered.drop_first()
                &&& final(self)@.yielded == old(self)@.yielded.push(old(self)@.buffered[0])
                &&& final(self)@.token == old(self)@.token
                &&& (step matches Step::Yield(env) && env.rate_limit == old(self)@.rate
                    && env.post == old(self)@.buffered[0])
            },
            old(self)@.state is Draining && old(self)@.buffered.len() == 0 && old(
                self,
            )@.token is Some ==> {
                &&& final(self)@.state is AwaitingPage
                &&& final(self)@.yielded == old(self)@.yielded
                &&& final(self)@.token == old(self)@.token
                &&& (step matches Step::Fetch(req) && req.query@ == old(self)@.query
                    && req.page_size == old(self)@.page_size && opt_str_view(req.next_token)
                    == old(self)@.token)
            },
            old(self)@.state is Draining && old(self)@.buffered.len() == 0 && old(
                self,
            )@.token is None ==> {
                &&& final(self)@.state is Exhausted
                &&& final(self)@.yielded == old(self)@.yielded
                &&& step is Done
            },
            old(self)@.state is Exhausted ==> {
                &&& final(self)@ == old(self)@
                &&& step is Done
            },
    {
        match self.state {
            CursorState::Idle => {
                self.state = CursorState::AwaitingPage;
                Step::Fetch(self.call())
            },
            CursorState::Draining => {
                if self.buffer.len() > 0 {
                    let ghost first = self.buffer@[0];
                    let post = self.buffer.remove(0);
                    self.yielded = Ghost(self.yielded@.push(first));
                    proof {
                        assert(self@.yielded + self@.buffered =~= old(self)@.yielded + old(
                            self,
                        )@.buffered);
                    }
                    Step::Yield(Envelope { rate_limit: self.rate, post })
                } else {
                    match &self.next_token {
                        Some(_) => {
                            self.state = CursorState::AwaitingPage;
                            Step::Fetch(self.call())
                        },
                        None => {
                            self.state = CursorState::Exhausted;
                            proof {
                                assert(self@.yielded =~= self@.delivered.flatten());
                            }
                            Step::Done
                        },
                    }
                }
            },
            CursorState::Exhausted => Step::Done,
            CursorState::AwaitingPage | CursorState::Failed => {
                proof {
                    assert(false);
                }
                Step::Done
            },
        }
    }

    /// Delivers the response to an outstanding page request: the page's
    /// continuation token is stored (it may be absent), its items are
    /// buffered in arrival order, its rate-limit envelope is captured, and
    /// the fetcher starts draining.
    pub fn deliver_page(&mut self, page: Page, rate: RateLimit)
        requires
            old(self).wf(),
            old(self)@.state is AwaitingPage,
        ensures
            final(self).wf(),
            final(self)@.state is Draining,
            final(self)@.query == old(self)@.query,
            final(self)@.page_size == old(self)@.page_size,
            final(self)@.token == page.spec_next_token(),
            final(self)@.buffered == page.spec_items(),
            final(self)@.delivered == old(self)@.delivered.push(page.spec_items()),
            final(self)@.yielded == old(self)@.yielded,
            final(self)@.rate == rate,
    {
        let ghost items = page.spec_items();
        let token: Option<String> = match page.next_token() {
            Some(s) => Some(s.to_owned()),
            None => None,
        };
        let posts = page.into_inner();
        self.next_token = token;
        self.buffer = posts;
        self.rate = rate;
        self.state = CursorState::Draining;
        self.delivered = Ghost(self.delivered@.push(items));
        proof {
            assert(self@.delivered.flatten() =~= self@.yielded + self@.buffered);
        }
    }

    /// Delivers a page response that has not been validated yet. A malformed
    /// response surfaces a `MalformedResponse` error and leaves the fetcher
    /// failed, so no further page is ever requested.
    pub fn deliver_raw(&mut self, raw: RawPage, rate: RateLimit) -> (r: Result<(), CrawlError>)
        requires
            old(self).wf(),
            old(self)@.state is AwaitingPage,
        ensures
            final(self).wf(),
            final(self)@.query == old(self)@.query,
            final(self)@.page_size == old(self)@.page_size,
            final(self)@.yielded == old(self)@.yielded,
            r is Ok <==> raw_page_well_formed(&raw),
            raw_page_well_formed(&raw) ==> {
                &&& final(self)@.state is Draining
                &&& final(self)@.buffered == raw.data->0@
                &&& final(self)@.token == opt_str_view(raw.meta->0.next_token)
                &&& final(self)@.delivered == old(self)@.delivered.push(raw.data->0@)
                &&& final(self)@.rate == rate
            },
            !raw_page_well_formed(&raw) ==> {
                &&& r == Err::<(), CrawlError>(CrawlError::MalformedResponse)
                &&& final(self)@.state is Failed
                &&& final(self)@.delivered == old(self)@.delivered
            },
    {
        match parse_page(raw) {
            Ok(page) => {
                self.deliver_page(page, rate);
                Ok(())
            },
            Err(e) => {
                self.state = CursorState::Failed;
                Err(e)
            },
        }
    }

    /// Records that an outstanding page request failed in transport. The
    /// fetcher is left failed: an undefined, non-resumable condition, as the
    /// design does not retry.
    pub fn fail(&mut self)
        requires
            old(self).wf(),
        ensures
            final(self).wf(),
            final(self)@.state is Failed,
            final(self)@.query == old(self)@.query,
            final(self)@.page_size == old(self)@.page_size,
            final(self)@.delivered == old(self)@.delivered,
            final(self)@.yielded == old(self)@.yielded,
            final(self)@.buffered == old(self)@.buffered,
            final(self)@.token == old(self)@.token,
    {
        self.state = CursorState::Failed;
    }
}

/// Drives a fresh fetcher to exhaustion against a fixed sequence of pages,
/// delivering page `i` in answer to the fetcher's `i`-th request. The output
/// is exactly the concatenation of every page's items, in order; the run
/// terminates precisely upon the page lacking a continuation token, and an
/// empty page that carries a token does not end it.
pub fn run_fixture(query: String, page_size: Option<u32>, pages: Vec<Page>, rate: RateLimit) -> (out:
    Vec<Post>)
    requires
        pages@.len() > 0,
        forall|i: int|
            0 <= i < pages@.len() - 1 ==> (#[trigger] pages@[i].spec_next_token()) is Some,
        pages@[pages@.len() - 1].spec_next_token() is None,
    ensures
        out@ == pages@.map_values(|p: Page| p.spec_items()).flatten(),
{
    let ghost all = pages@;
    let mut pages = pages;
    let mut it = CursorIter::new(query, page_size);
    let mut out: Vec<Post> = Vec::new();
    loop
        invariant
            it.wf(),
            !(it@.state is AwaitingPage),
            !(it@.state is Failed),
            out@ == it@.yielded,
            all.len() > 0,
            pages@.len() <= all.len(),
            pages@ == all.subrange(all.len() - pages@.len(), all.len() as int),
            it@.delivered == all.subrange(0, all.len() - pages@.len()).map_values(
                |p: Page| p.spec_items(),
            ),
            forall|i: int|
                0 <= i < all.len() - 1 ==> (#[trigger] all[i].spec_next_token()) is Some,
            all[all.len() - 1].spec_next_token() is None,
            it@.state is Idle ==> pages@.len() == all.len(),
            it@.state is Draining ==> pages@.len() < all.len() && it@.token == all[all.len()
                - pages@.len() - 1].spec_next_token(),
            it@.state is Exhausted ==> pages@.len() == 0,
        ensures
            it@.state is Exhausted,
            pages@.len() == 0,
            out@ == it@.yielded,
        decreases pages@.len(), it@.buffered.len(),
    {
        match it.advance() {
            Step::Yield(env) => {
                out.push(env.post);
            },
            Step::Fetch(_req) => {
                proof {
                    if pages@.len() == 0 {
                        assert(it@.token == all[all.len() - 1].spec_next_token());
                        assert(false);
                    }
                }
                let ghost k = all.len() - pages@.len();
                let page = pages.remove(0);
                proof {
                    assert(page == all[k]);
                }
                it.deliver_page(page, rate);
                proof {
                    assert(pages@ =~= all.subrange(all.len() - pages@.len(), all.len() as int));
                    assert(it@.delivered =~= all.subrange(0, k + 1).map_values(
                        |p: Page| p.spec_items(),
                    ));
                }
            },
            Step::Done => {
                break ;
            },
        }
    }
    proof {
        assert(all.subrange(0, all.len() as int) =~= all);
        assert(out@ == all.map_values(|p: Page| p.spec_items()).flatten());
    }
    out
}

/// Pagination is deterministic: two fetchers that were each driven to
/// exhaustion and were delivered the same pages yielded the same items, in
/// the same order.
pub proof fn lemma_pagination_deterministic(a: CursorIter, b: CursorIter)
    requires
        a.wf(),
        b.wf(),
        a@.state is Exhausted,
        b@.state is Exhausted,
        a@.delivered == b@.delivered,
    ensures
        a@.yielded == b@.yielded,
{
}

} // verus!
