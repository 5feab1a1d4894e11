//! A typed client for a versioned GitLab-style REST API: canonical query
//! strings for listings, and the paginated search that turns a project path
//! or an `iid` into a server-internal id.

pub mod errors;
pub mod gitlab;
pub mod groups;
pub mod issues;
pub mod listing;
pub mod merge_requests;
pub mod projects;
pub mod resolve;

pub use listing::{ListingSort, ListingVisibility};
