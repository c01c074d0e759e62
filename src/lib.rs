use vstd::prelude::*;

pub mod handlers;
pub mod hub;
pub mod laws;
pub mod message;
pub mod session;

verus! {

} // verus!
