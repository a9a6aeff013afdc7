//! Memory that a process shares with the kernel for reading.

use vstd::prelude::*;

verus! {

/// A read-only handle on a region of a process's memory. The process keeps
/// the memory; the kernel reads it only while an operation runs. The
/// handle of a process that has shared nothing is empty.
#[derive(Debug)]
pub struct ReadOnlyProcessBuffer {
    bytes: Vec<u8>,
}

impl View for ReadOnlyProcessBuffer {
    type V = Seq<u8>;

    /// The bytes of the shared region.
    closed spec fn view(&self) -> Seq<u8> {
        self.bytes@
    }
}

impl ReadOnlyProcessBuffer {
    /// A handle on a region that holds `bytes`.
    pub fn new(bytes: Vec<u8>) -> (buffer: ReadOnlyProcessBuffer)
        ensures
            buffer@ == bytes@,
    {
        ReadOnlyProcessBuffer { bytes }
    }

    /// The length of the region, in bytes.
    pub fn len(&self) -> (len: usize)
        ensures
            len == self@.len(),
    {
        self.bytes.len()
    }

    /// The region's bytes, readable for as long as the handle is borrowed.
    pub fn enter(&self) -> (bytes: &[u8])
        ensures
            bytes@ == self@,
    {
        self.bytes.as_slice()
    }
}

impl Default for ReadOnlyProcessBuffer {
    /// The handle of a process that has shared nothing.
    fn default() -> (buffer: ReadOnlyProcessBuffer)
        ensures
            buffer@ == Seq::<u8>::empty(),
    {
        ReadOnlyProcessBuffer { bytes: Vec::new() }
    }
}

} // verus!
