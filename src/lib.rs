//! A media player core: source resolution and the transport state of one
//! pipeline, with the media engine itself driven by the caller.
//!
//! Paths are Unix paths: a path is absolute when it starts with `/`, and
//! file URLs follow `url`'s Unix conversion. Windows paths are not modelled.
use vstd::prelude::*;

pub mod player;
pub mod uri;

verus! {

} // verus!
