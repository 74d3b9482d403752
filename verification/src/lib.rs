use vstd::prelude::*;

pub mod text;
pub mod config;
pub mod script;
pub mod keys;
pub mod commands;

verus! {
} // verus!
