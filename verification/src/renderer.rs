//! Rendering backends.
use vstd::prelude::*;

pub mod cli;

verus! {

} // verus!
