//! Turns the reply of an IP-echo service into a greeting.
//!
//! The library decides what a reply means: a transport failure, a status
//! outside the success range, a body that is not a JSON object of strings,
//! or a greeting built from the decoded entries. Fetching the reply is left
//! to the host.
use vstd::prelude::*;

pub mod decode;
pub mod render;
pub mod greeting;

verus! {

} // verus!
