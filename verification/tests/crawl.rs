use reply_graph::builder::{BuildStep, ThreadBuilder};
use reply_graph::cursor::{CursorIter, Step};
use reply_graph::directory::{parse_color, Rgb, UserProfile};
use reply_graph::model::{
    CrawlError, Page, PageMeta, Post, RateLimit, RawMeta, RawPage, parse_page,
};
use reply_graph::retention::is_outside_retention;

fn post(id: u64, author_id: u64, parent_id: Option<u64>) -> Post {
    Post { id, author_id, parent_id, created_at: 1_700_000_000, text: format!("post {}", id) }
}

fn page(posts: Vec<Post>, next_token: Option<&str>) -> Page {
    let result_count = posts.len() as u64;
    Page {
        posts,
        meta: PageMeta {
            newest_id: 0,
            oldest_id: 0,
            result_count,
            next_token: next_token.map(|t| t.to_string()),
        },
    }
}

fn rate() -> RateLimit {
    RateLimit { limit: 450, remaining: 449, reset: 900 }
}

fn profile(handle: &str, color: &str) -> UserProfile {
    UserProfile {
        screen_name: handle.to_string(),
        name: format!("{} display", handle),
        profile_background_color: color.to_string(),
    }
}

fn fallback() -> Rgb {
    Rgb { r: 7, g: 8, b: 9 }
}

fn two_page_fixture() -> Vec<Page> {
    vec![
        page(vec![post(200, 1, Some(100)), post(201, 2, Some(100))], Some("t0")),
        page(vec![post(300, 1, Some(200))], None),
    ]
}

#[test]
fn fetcher_concatenates_pages_in_order() {
    let pages = vec![
        page(vec![post(200, 1, Some(100)), post(201, 2, Some(100))], Some("t0")),
        page(vec![post(202, 3, Some(201))], Some("t1")),
        page(vec![post(300, 1, Some(200)), post(301, 2, Some(202))], None),
    ];
    let out = reply_graph::cursor::run_fixture("conversation_id:100".to_string(), Some(10), pages, rate());
    let ids: Vec<u64> = out.iter().map(|p| p.id).collect();
    assert_eq!(ids, vec![200, 201, 202, 300, 301]);
}

#[test]
fn empty_page_with_token_does_not_terminate() {
    let pages = vec![
        page(vec![], Some("t0")),
        page(vec![post(300, 1, Some(200))], None),
    ];
    let out = reply_graph::cursor::run_fixture("q".to_string(), None, pages, rate());
    assert_eq!(out.len(), 1);
    assert_eq!(out[0].id, 300);
}

#[test]
fn empty_page_with_token_requests_next_page() {
    let mut it = CursorIter::new("q".to_string(), None);
    let step = it.advance();
    assert!(matches!(step, Step::Fetch(_)));
    it.deliver_page(page(vec![], Some("t0")), rate());
    // the buffer is empty, but a token was stored: the next advancement must
    // ask for another page, not end the sequence
    match it.advance() {
        Step::Fetch(req) => assert_eq!(req.next_token.as_deref(), Some("t0")),
        _ => panic!("an empty page with a token must not exhaust the fetcher"),
    }
    it.deliver_page(page(vec![post(1, 1, Some(0))], None), rate());
    assert!(matches!(it.advance(), Step::Yield(_)));
    assert!(matches!(it.advance(), Step::Done));
    assert!(matches!(it.advance(), Step::Done));
}

#[test]
fn fetcher_is_deterministic_across_instances() {
    let out1 = reply_graph::cursor::run_fixture("q".to_string(), Some(5), two_page_fixture(), rate());
    let out2 = reply_graph::cursor::run_fixture("q".to_string(), Some(5), two_page_fixture(), rate());
    assert_eq!(out1, out2);
}

#[test]
fn yielded_items_carry_the_page_envelope() {
    let mut it = CursorIter::new("q".to_string(), None);
    assert!(matches!(it.advance(), Step::Fetch(_)));
    let r = RateLimit { limit: 450, remaining: 12, reset: 33 };
    it.deliver_page(page(vec![post(5, 9, Some(4))], None), r);
    match it.advance() {
        Step::Yield(env) => {
            assert_eq!(env.rate_limit, r);
            assert_eq!(env.post.id, 5);
        },
        _ => panic!("a buffered item must be yielded"),
    }
}

#[test]
fn with_page_size_resets_when_sizable() {
    let it = CursorIter::new("q".to_string(), Some(10));
    let it = it.with_page_size(25);
    let req = it.call();
    assert_eq!(req.page_size, Some(25));
    assert_eq!(req.next_token, None);
    assert_eq!(req.query, "q");
}

#[test]
fn with_page_size_is_inert_without_a_hint() {
    let it = CursorIter::new("q".to_string(), None);
    let it = it.with_page_size(25);
    let req = it.call();
    assert_eq!(req.page_size, None);
}

#[test]
fn missing_pagination_metadata_is_malformed_and_halts() {
    let mut it = CursorIter::new("q".to_string(), None);
    assert!(matches!(it.advance(), Step::Fetch(_)));
    let raw = RawPage { data: Some(vec![post(1, 1, Some(0))]), meta: None };
    let r = it.deliver_raw(raw, rate());
    assert_eq!(r, Err(CrawlError::MalformedResponse));
}

#[test]
fn raw_page_with_metadata_parses() {
    let raw = RawPage {
        data: Some(vec![post(7, 1, Some(3))]),
        meta: Some(RawMeta {
            newest_id: Some(7),
            oldest_id: Some(7),
            result_count: Some(1),
            next_token: Some("tok".to_string()),
        }),
    };
    let page = parse_page(raw).expect("a complete response must parse");
    assert_eq!(page.posts.len(), 1);
    assert_eq!(page.meta.newest_id, 7);
    assert_eq!(page.meta.next_token.as_deref(), Some("tok"));
}

#[test]
fn raw_page_missing_a_required_field_is_malformed() {
    let raw = RawPage {
        data: Some(vec![]),
        meta: Some(RawMeta {
            newest_id: Some(0),
            oldest_id: Some(0),
            result_count: None,
            next_token: None,
        }),
    };
    assert_eq!(parse_page(raw), Err(CrawlError::MalformedResponse));
    let raw = RawPage { data: None, meta: None };
    assert_eq!(parse_page(raw), Err(CrawlError::MalformedResponse));
}

#[test]
fn declared_color_parses_as_hex_triple() {
    assert_eq!(parse_color("ff0a10", fallback()), Ok(Rgb { r: 255, g: 10, b: 16 }));
    assert_eq!(parse_color("ABCDEF", fallback()), Ok(Rgb { r: 171, g: 205, b: 239 }));
}

#[test]
fn unset_color_takes_the_injected_fallback() {
    assert_eq!(parse_color("000000", fallback()), Ok(fallback()));
}

#[test]
fn unparsable_color_is_malformed() {
    assert_eq!(parse_color("zz0000", fallback()), Err(CrawlError::MalformedResponse));
    assert_eq!(parse_color("fff", fallback()), Err(CrawlError::MalformedResponse));
    assert_eq!(parse_color("", fallback()), Err(CrawlError::MalformedResponse));
}

#[test]
fn end_to_end_three_reply_thread() {
    let mut b = ThreadBuilder::new(100, 9, profile("root_author", "000000"), fallback())
        .expect("the root author's profile is well-formed");

    // post 200 by author 1 (A), replying to the root
    assert_eq!(b.process_post(&post(200, 1, Some(100))), Ok(BuildStep::NeedAuthor(1)));
    b.supply_author(1, profile("author_a", "ff0000"), fallback()).unwrap();
    assert_eq!(b.process_post(&post(200, 1, Some(100))), Ok(BuildStep::Recorded));

    // post 201 by author 2 (B), replying to the root
    assert_eq!(b.process_post(&post(201, 2, Some(100))), Ok(BuildStep::NeedAuthor(2)));
    b.supply_author(2, profile("author_b", "00ff00"), fallback()).unwrap();
    assert_eq!(b.process_post(&post(201, 2, Some(100))), Ok(BuildStep::Recorded));

    // post 300 by author 1 again: no further lookup is requested
    assert_eq!(b.process_post(&post(300, 1, Some(200))), Ok(BuildStep::Recorded));

    assert_eq!(b.node_count(), 4);
    for id in [100u64, 200, 201, 300] {
        assert!(b.contains_node(id));
    }
    assert!(!b.contains_node(999));
    assert_eq!(b.edge_count(), 3);
    assert_eq!(b.edge_author(100, 200), Some(1));
    assert_eq!(b.edge_author(100, 201), Some(2));
    assert_eq!(b.edge_author(200, 300), Some(1));
    assert_eq!(b.edge_author(100, 300), None);
    assert_eq!(b.reply_count_of(1), Some(2));
    assert_eq!(b.reply_count_of(2), Some(1));
    assert_eq!(b.reply_count_of(9), Some(1));
    assert_eq!(b.author_count(), 3);
}

#[test]
fn child_may_arrive_before_its_parent_is_seen() {
    let mut b = ThreadBuilder::new(100, 9, profile("root_author", "000000"), fallback()).unwrap();
    b.supply_author(1, profile("author_a", "ff0000"), fallback()).unwrap();
    // 300 replies to 200, which has not arrived yet: 200 is created lazily
    assert_eq!(b.process_post(&post(300, 1, Some(200))), Ok(BuildStep::Recorded));
    assert!(b.contains_node(200));
    assert_eq!(b.edge_author(200, 300), Some(1));
    // 200 arrives later and is recorded like any other reply
    assert_eq!(b.process_post(&post(200, 1, Some(100))), Ok(BuildStep::Recorded));
    assert_eq!(b.edge_author(100, 200), Some(1));
    assert_eq!(b.node_count(), 3);
}

#[test]
fn repeated_author_triggers_one_lookup_and_exact_tally() {
    let mut b = ThreadBuilder::new(100, 9, profile("root_author", "000000"), fallback()).unwrap();
    assert_eq!(b.process_post(&post(200, 1, Some(100))), Ok(BuildStep::NeedAuthor(1)));
    b.supply_author(1, profile("author_a", "0000ff"), fallback()).unwrap();
    for (i, parent) in [(200u64, 100u64), (201, 100), (202, 200)] {
        // the author is cached: no lookup is ever requested again
        assert_eq!(b.process_post(&post(i, 1, Some(parent))), Ok(BuildStep::Recorded));
    }
    assert_eq!(b.reply_count_of(1), Some(3));
    assert_eq!(b.author_count(), 2);
}

#[test]
fn stream_integrity_violations_are_malformed() {
    let mut b = ThreadBuilder::new(100, 9, profile("root_author", "000000"), fallback()).unwrap();
    b.supply_author(1, profile("author_a", "ff0000"), fallback()).unwrap();
    // a reply with no parent link
    assert_eq!(b.process_post(&post(200, 1, None)), Err(CrawlError::MalformedResponse));
    // a reply claiming the root's own identifier
    assert_eq!(b.process_post(&post(100, 1, Some(100))), Err(CrawlError::MalformedResponse));
    // a duplicate identifier
    assert_eq!(b.process_post(&post(200, 1, Some(100))), Ok(BuildStep::Recorded));
    assert_eq!(b.process_post(&post(200, 1, Some(100))), Err(CrawlError::MalformedResponse));
}

#[test]
fn malformed_root_profile_fails_construction() {
    let r = ThreadBuilder::new(100, 9, profile("root_author", "not-hex"), fallback());
    assert!(r.is_err());
}

#[test]
fn retention_window_is_seven_days() {
    assert!(is_outside_retention(604_800, 0));
    assert!(!is_outside_retention(604_799, 0));
    assert!(!is_outside_retention(0, 604_800));
    // the advisory itself reads the clock; any sane clock is past 1970 + 7 days
    assert!(reply_graph::retention::root_age_advisory(0));
}

#[test]
fn error_descriptions_are_nonempty() {
    for e in [
        CrawlError::Authentication,
        CrawlError::NotFound,
        CrawlError::Transport,
        CrawlError::MalformedResponse,
    ] {
        assert!(!e.describe().is_empty());
    }
}
