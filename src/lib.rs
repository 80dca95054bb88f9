//! Finds popular repositories whose most active contributor accounts for a
//! dominant share of the contributions among the top contributors.
//!
//! The library holds the decisions of the fetch-and-reduce pipeline: how a
//! requested number of repositories is split into pages, which page size is
//! asked of the upstream listing, how the shared request budget is spent and
//! reconciled with what the server reports, how many requests may be in
//! flight at once, and whether a contributor list shows one dominant
//! contributor.
pub mod api;
pub mod calculator;
pub mod fanout;
pub mod limiter;
pub mod github;
pub mod paginator;
pub mod payload;

pub use api::{Contributor, Error, Repo, Sort};
pub use calculator::BusFactor;
pub use fanout::FanOut;
pub use github::GithubRepo;
pub use paginator::{Page, Paginator};
pub use limiter::{RateLimit, RateLimiter};
