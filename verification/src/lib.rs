use vstd::prelude::*;

pub mod agent;
pub mod chat;
pub mod cli;
pub mod config;
pub mod errors;
pub mod events;
pub mod json;
pub mod path;
pub mod render;
pub mod renderer;
pub mod sandbox;
pub mod text;
pub mod tools;
pub mod tui;
