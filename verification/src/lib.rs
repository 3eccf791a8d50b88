//! A paginated hourly leaderboard: the read-through cache and join pipeline
//! behind a single page request, as a state machine over plain values.

pub mod clock;
pub mod machine;
pub mod model;
pub mod ranking;
pub mod response;
pub mod snapshot;
pub mod text;
pub mod world;
