//! Crawls the reply tree under a root social-media post: a token-paginated
//! fetch state machine that flattens pages into an ordered item stream, a
//! memoized author directory, and an incremental reply-graph builder.

pub mod model;
pub mod cursor;
pub mod directory;
pub mod builder;
pub mod retention;
