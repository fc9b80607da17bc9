//! The messages exchanged with the orchestration engine.
pub mod feed;
pub mod mail;
pub mod orchestration;

use vstd::prelude::*;

verus! {

/// A point in time: seconds since the Unix epoch and nanoseconds past them.
#[derive(Clone, Copy, Debug, PartialEq)]
pub struct Timestamp {
    pub seconds: i64,
    pub nanos: i32,
}

} // verus!
