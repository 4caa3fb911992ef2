//! Core of a local HTTP control plane that drives an embedded web view: request
//! routing, command directives, the screenshot slot, response framing and a base64
//! decoder.
use vstd::prelude::*;

pub mod base64;
pub mod buffer;
pub mod json;
pub mod response;
pub mod server;

verus! {

/// The text of an optional string.
pub open spec fn opt_text(o: Option<String>) -> Option<Seq<char>> {
    match o {
        Some(s) => Some(s@),
        None => None,
    }
}

} // verus!
