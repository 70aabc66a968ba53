//! Response rendering for an HTTP server framework.
//!
//! A handler's return value is turned into bytes, a content-type header and a
//! status code on an in-flight [`http::Response`] through two traits:
//! [`writer::Piece`], a synchronous renderer, and [`writer::Writer`], the
//! context-aware responder that every renderer satisfies through a blanket
//! adapter and that a success/failure union dispatches through.

use vstd::prelude::*;

pub mod http;
pub mod writer;

verus! {

/// Per-request state container handed to every [`writer::Writer`] call.
///
/// It is opaque to this layer: the built-in writers never read or change it.
pub struct Depot {}

impl Depot {
    /// An empty state container.
    pub fn new() -> Depot {
        Depot {}
    }
}

} // verus!
