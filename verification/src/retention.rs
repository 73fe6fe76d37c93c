//! The root-post age advisory: the search backend only returns posts from
//! within its retention window, so a crawl rooted in an older post may
//! legitimately find nothing. The advisory is informational only and never
//! alters control flow.

use vstd::prelude::*;

verus! {

/// The search backend's retention window, in days.
pub const RETENTION_WINDOW_DAYS: u64 = 7;

/// Seconds in a day.
pub const SECONDS_PER_DAY: u64 = 86400;

/// Whether a post created at `created_at` lies outside the retention window
/// at time `now` (both unix seconds): at least seven whole days old.
pub fn is_outside_retention(now: i64, created_at: i64) -> (r: bool)
    ensures
        r == (now - created_at >= RETENTION_WINDOW_DAYS * SECONDS_PER_DAY),
{
    let age: i128 = now as i128 - created_at as i128;
    let window: i128 = 7 * 86400;
    age >= window
}

/// Relies on chrono's `Utc::now`: the current time as unix seconds. Nothing
/// is promised of the clock's reading.
#[verifier::external_body]
fn now_unix_seconds() -> i64 {
    chrono::Utc::now().timestamp()
}

/// Whether the root post is older than the retention window right now. The
/// result depends on the clock, so nothing can be pinned here;
/// `is_outside_retention` states the result for any given reading.
pub fn root_age_advisory(created_at: i64) -> bool {
    let now = now_unix_seconds();
    is_outside_retention(now, created_at)
}

} // verus!
