use vstd::prelude::*;

pub mod error;
pub mod ident;
pub mod repository;
pub mod service;
pub mod task;

verus! {

} // verus!
