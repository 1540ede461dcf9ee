//! A bounded sequence producer: an owner of two texts that hands them out
//! one at a time, in order, and then reports that nothing is left, for good.
//!
//! [`model`] holds the mathematical state of a producer and what a request
//! does to it; [`producer`] holds the executable type; [`laws`] holds what
//! is proved of every producer.

pub mod laws;
pub mod model;
pub mod producer;

pub use crate::producer::IteratorTest;

use vstd::prelude::*;

verus! {

/// Walking over items with a loop and walking over them with an iterator
/// come to the same work, so nothing is left for this function to do: it
/// takes nothing, gives nothing back and changes nothing.
pub fn loops_vs_iterators() {
}

} // verus!
