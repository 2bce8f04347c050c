//! Agents: the state of one agent's chat, and the tree of agents with the
//! messages queued for each.
use vstd::prelude::*;

pub mod state;
pub mod tree;

verus! {

} // verus!
