use vstd::prelude::*;

verus! {

/// The appearance of a progress indicator.
#[derive(Clone, Copy, Debug, PartialEq, Eq, Structural)]
pub enum Status {
    /// Nothing has progressed yet.
    Idle,
    /// Progress is under way.
    Progressing,
    /// Progress is complete.
    Finished,
    /// Progress has failed.
    Failed,
}

} // verus!
