//! A minimal web-application scaffold: an ordered registry of named database
//! schema migrations, and a route-table fragment exposing one endpoint
//! (`GET guides/`) whose handler returns an empty successful response.
//!
//! The heavy lifting (running migrations, dispatching HTTP requests) is
//! delegated to external collaborators; this crate states and proves what
//! the registry and the route fragment contain.

pub mod guide;
pub mod migration;
