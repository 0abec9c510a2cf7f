//! The concrete API endpoints built on the endpoint contract.

pub mod positions;
pub mod watchlists;
