use vstd::prelude::*;

pub mod classify;
pub mod config;
pub mod driver;
pub mod format;
pub mod laws;
pub mod schema;
pub mod text;

verus! {

} // verus!
