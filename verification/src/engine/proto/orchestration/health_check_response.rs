//! The serving status that a health check reports.
use vstd::prelude::*;

verus! {

/// Whether a service is serving; its code is its position (0, 1, 2).
#[derive(Clone, Copy, Debug, PartialEq, Eq)]
pub enum ServingStatus {
    Unspecified,
    Serving,
    NotServing,
}

impl ServingStatus {
    /// The wire code of the status.
    pub fn code(&self) -> (c: i32)
        ensures
            c == match self {
                ServingStatus::Unspecified => 0i32,
                ServingStatus::Serving => 1i32,
                ServingStatus::NotServing => 2i32,
            },
    {
        match self {
            ServingStatus::Unspecified => 0,
            ServingStatus::Serving => 1,
            ServingStatus::NotServing => 2,
        }
    }
}

} // verus!
