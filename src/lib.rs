use vstd::prelude::*;

pub mod fib;
pub mod laws;
pub mod session;

verus! {

} // verus!

pub use fib::{fibonacci, MAX_FIB_INPUT};
pub use session::{blank, DescriptionKind, RemotePlan, Role, WebRTC};
