//! The terminal user interface: its state, widgets and event handling.
use vstd::prelude::*;

pub mod app;
pub mod chat;
pub mod event;
pub mod highlight;
pub mod input;
pub mod state;

verus! {

} // verus!
