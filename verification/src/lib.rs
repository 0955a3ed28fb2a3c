use vstd::prelude::*;

pub mod text;
pub mod db;
pub mod registry;
pub mod ranking;
pub mod vecs;
pub mod app;
pub mod tui;
pub mod cli;
pub mod laws;
pub mod edit_laws;

verus! {

} // verus!
