//! Group listings.

pub mod owned_groups;
