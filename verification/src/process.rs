//! Process identities.

use vstd::prelude::*;

verus! {

/// The identity of one process: its place in the kernel's process table.
#[derive(Clone, Copy, Debug, PartialEq, Eq, Structural)]
pub struct ProcessId {
    index: usize,
}

impl ProcessId {
    /// The place in the process table that this identity names.
    pub closed spec fn spec_index(self) -> usize {
        self.index
    }

    /// The identity of the process at place `index` of the process table.
    pub fn new(index: usize) -> (id: ProcessId)
        ensures
            id.spec_index() == index,
    {
        ProcessId { index }
    }

    /// The place in the process table that this identity names.
    #[verifier::when_used_as_spec(spec_index)]
    pub fn index(self) -> (index: usize)
        ensures
            index == self.spec_index(),
    {
        self.index
    }
}

} // verus!
