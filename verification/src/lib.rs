//! Translates GitHub webhook events into Discord embed notifications.
//!
//! The mapping engine is pure: an event envelope goes through a routing
//! policy and a per-kind extractor into a validating embed builder, which
//! produces a finished notification payload or a typed error.
use vstd::prelude::*;

pub mod colors;
pub mod embed_builder;
pub mod errors;
pub mod events;
pub mod model;
pub mod routing;
pub mod text;

verus! {

/// Default port the notification service listens on when the
/// configuration names none.
pub fn default_port() -> (p: u16)
    ensures
        p == 3000,
{
    3000
}

} // verus!
