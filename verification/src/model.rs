//! The plain data the crawl works on: posts, pages, rate-limit envelopes,
//! raw (not yet validated) page responses, and the error taxonomy.

use vstd::prelude::*;

verus! {

/// Quota metadata attached to every API response. It is recorded and carried
/// alongside each yielded item, but never used to throttle requests.
#[derive(Clone, Copy, PartialEq, Eq, Structural, Debug)]
pub struct RateLimit {
    /// Total request quota of the window.
    pub limit: i32,
    /// Requests left in the window.
    pub remaining: i32,
    /// When the window resets (unix seconds).
    pub reset: i32,
}

/// One post of the thread, immutable once fetched.
#[derive(Debug, Clone, PartialEq)]
pub struct Post {
    /// The post's own identifier.
    pub id: u64,
    /// Identifier of the post's author.
    pub author_id: u64,
    /// The post this one replies to, if any.
    pub parent_id: Option<u64>,
    /// Creation time, unix seconds.
    pub created_at: i64,
    /// Text body.
    pub text: String,
}

/// An item of the flattened stream, wrapped in the rate-limit envelope
/// captured from the page it arrived on.
#[derive(Debug, Clone, PartialEq)]
pub struct Envelope {
    pub rate_limit: RateLimit,
    pub post: Post,
}

/// Bookkeeping bounds of a validated page.
#[derive(Debug, Clone, PartialEq)]
pub struct PageMeta {
    pub newest_id: u64,
    pub oldest_id: u64,
    pub result_count: u64,
    /// Continuation token; absence signals exhaustion.
    pub next_token: Option<String>,
}

/// A validated page: the posts in arrival order plus pagination metadata.
#[derive(Debug, Clone, PartialEq)]
pub struct Page {
    pub posts: Vec<Post>,
    pub meta: PageMeta,
}

/// Pagination metadata as it arrives, before validation: every field may be
/// missing.
pub struct RawMeta {
    pub newest_id: Option<u64>,
    pub oldest_id: Option<u64>,
    pub result_count: Option<u64>,
    pub next_token: Option<String>,
}

/// A page response as it arrives, before validation.
pub struct RawPage {
    pub data: Option<Vec<Post>>,
    pub meta: Option<RawMeta>,
}

/// Why a crawl aborted. Every error is fatal: there is no retry and no
/// partial-result salvage.
#[derive(Clone, Copy, PartialEq, Eq, Structural, Debug)]
pub enum CrawlError {
    /// The credential exchange failed.
    Authentication,
    /// The root post cannot be located.
    NotFound,
    /// A network or HTTP failure during a fetch.
    Transport,
    /// A page or profile response does not have the expected shape.
    MalformedResponse,
}

impl CrawlError {
    /// A short description, for display by unverified callers.
    pub fn describe(&self) -> (m: &'static str)
        ensures
            m@.len() > 0,
    {
        proof {
            reveal_strlit("credential exchange failed");
            reveal_strlit("root post not found");
            reveal_strlit("network failure during fetch");
            reveal_strlit("response is missing an expected field");
        }
        match self {
            CrawlError::Authentication => "credential exchange failed",
            CrawlError::NotFound => "root post not found",
            CrawlError::Transport => "network failure during fetch",
            CrawlError::MalformedResponse => "response is missing an expected field",
        }
    }
}

/// The view of an optional owned string as an optional character sequence.
pub open spec fn opt_str_view(o: Option<String>) -> Option<Seq<char>> {
    match o {
        Some(s) => Some(s@),
        None => None,
    }
}

/// A raw page is well-formed when the item list, the metadata object and all
/// of its required fields are present; only the continuation token may be
/// absent.
pub open spec fn raw_page_well_formed(raw: &RawPage) -> bool {
    &&& raw.data is Some
    &&& raw.meta is Some
    &&& raw.meta->0.newest_id is Some
    &&& raw.meta->0.oldest_id is Some
    &&& raw.meta->0.result_count is Some
}

/// Validates a raw page response into a `Page`. A response missing its item
/// list, its pagination metadata, or a required metadata field is malformed.
pub fn parse_page(raw: RawPage) -> (r: Result<Page, CrawlError>)
    ensures
        r is Ok <==> raw_page_well_formed(&raw),
        r is Err ==> r == Err::<Page, CrawlError>(CrawlError::MalformedResponse),
        r is Ok ==> {
            let page = r->Ok_0;
            &&& page.posts@ == raw.data->0@
            &&& page.meta.newest_id == raw.meta->0.newest_id->0
            &&& page.meta.oldest_id == raw.meta->0.oldest_id->0
            &&& page.meta.result_count == raw.meta->0.result_count->0
            &&& opt_str_view(page.meta.next_token) == opt_str_view(raw.meta->0.next_token)
        },
{
    let RawPage { data, meta } = raw;
    let posts = match data {
        Some(posts) => posts,
        None => {
            return Err(CrawlError::MalformedResponse);
        },
    };
    let meta = match meta {
        Some(meta) => meta,
        None => {
            return Err(CrawlError::MalformedResponse);
        },
    };
    let newest_id = match meta.newest_id {
        Some(v) => v,
        None => {
            return Err(CrawlError::MalformedResponse);
        },
    };
    let oldest_id = match meta.oldest_id {
        Some(v) => v,
        None => {
            return Err(CrawlError::MalformedResponse);
        },
    };
    let result_count = match meta.result_count {
        Some(v) => v,
        None => {
            return Err(CrawlError::MalformedResponse);
        },
    };
    Ok(Page {
        posts,
        meta: PageMeta { newest_id, oldest_id, result_count, next_token: meta.next_token },
    })
}

/// A source of token-paginated search pages: exposes the continuation token
/// and gives up its items.
pub trait SearchCursor: Sized {
    type Item;

    /// The continuation token this page carries, if any.
    spec fn spec_next_token(&self) -> Option<Seq<char>>;

    /// The items of this page, in arrival order.
    spec fn spec_items(&self) -> Seq<Self::Item>;

    /// Returns the page's continuation token; `None` signals exhaustion.
    fn next_token(&self) -> (t: Option<&str>)
        ensures
            match t {
                Some(s) => self.spec_next_token() == Some(s@),
                None => self.spec_next_token() is None,
            },
    ;

    /// Consumes the page, handing out its items in arrival order.
    fn into_inner(self) -> (items: Vec<Self::Item>)
        ensures
            items@ == self.spec_items(),
    ;
}

impl SearchCursor for Page {
    type Item = Post;

    open spec fn spec_next_token(&self) -> Option<Seq<char>> {
        opt_str_view(self.meta.next_token)
    }

    open spec fn spec_items(&self) -> Seq<Post> {
        self.posts@
    }

    fn next_token(&self) -> (t: Option<&str>) {
        match &self.meta.next_token {
            Some(s) => Some(s.as_str()),
            None => None,
        }
    }

    fn into_inner(self) -> (items: Vec<Post>) {
        self.posts
    }
}

} // verus!
