//! Checks whether a handle is free as a domain name and on social platforms.
//!
//! The library holds the decisions: which TLDs and domains to try, the
//! per-platform syntax rules for handles, which profile pages to fetch, how an
//! HTTP answer becomes a verdict, and how the answers of concurrent probes are
//! put back in platform order. Fetching pages and resolving domains is left to
//! the caller.
pub mod config;
pub mod domain;
pub mod fanout;
pub mod social;
pub mod text;
pub mod utils;

pub use utils::{validate_instagram_username, validate_tiktok_username, validate_youtube_username};
pub use social::{check_instagram_availability, check_tiktok_availability, SocialResult, SocialStatus};
pub use domain::DomainResult;
