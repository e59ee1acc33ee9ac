//! A verified core for a search-resource gateway.
//!
//! One upstream search query is turned into a bundle of short-lived,
//! independently addressable resources: a frozen search-map blob, a preview
//! image, per-post sample images, and keepalive handles for each. Resources
//! are served by integer id until their time-to-live runs out.
//!
//! The modules here hold the parts with real lifecycle and consistency
//! concerns: the id allocator and link registry, the two memoization
//! primitives that stand for "value not ready yet", the keepalive timer
//! engine, and the wire-format builder. The surrounding I/O (HTTP, image
//! fetching, route dispatch) lives outside the library and drives these
//! state machines with plain values.

use vstd::prelude::*;

pub mod api;
pub mod image;
pub mod links;
pub mod promise;
pub mod query;
pub mod refresh;

verus! {

/// The duration, in the engine's time units, before an unrefreshed sample
/// image resource is torn down.
pub const IMAGE_TTL: u64 = 1200;

/// The duration, in the engine's time units, before an unrefreshed batch
/// (blob and preview) is torn down.
pub const BATCH_TTL: u64 = 600;

} // verus!
