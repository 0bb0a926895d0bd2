//! A caching layer for a paginated leaderboard: a data model for ranked
//! players, best-effort aggregation of fetched pages, and a staleness-driven
//! cache manager that decides when a refresh is due.

pub mod cache;
pub mod page;
pub mod player;
pub mod response;
