//! A reusable scratch buffer for intermediate encoding work.

use vstd::prelude::*;

verus! {

/// The size of a scratch buffer: the largest packet the downstream
/// protocol allows.
pub const SCRATCH_CAPACITY: usize = 2097152;

/// Closes [`ScratchBuffer`] against outside implementations.
pub trait Sealed {

}

/// A source of buffers for intermediate work.
pub trait ScratchBuffer: Sealed {
    /// The bytes currently held.
    spec fn buf(&self) -> Seq<u8>;

    /// Obtains the buffer for intermediate work. The contents carried
    /// over from earlier uses are unspecified.
    fn obtain(&mut self) -> (r: &mut Vec<u8>)
        ensures
            r@ == old(self).buf(),
            final(self).buf() == final(r)@,
    ;
}

/// A scratch buffer of fixed capacity, zeroed at creation.
#[derive(Debug)]
pub struct Scratch {
    inner: Vec<u8>,
}

impl Scratch {
    /// Creates a zeroed scratch buffer of the full capacity.
    pub fn new() -> (r: Self)
        ensures
            r.buf().len() == SCRATCH_CAPACITY,
            forall|i: int| 0 <= i < r.buf().len() ==> r.buf()[i] == 0,
    {
        Self { inner: vec![0u8; SCRATCH_CAPACITY] }
    }
}

impl Default for Scratch {
    /// A zeroed scratch buffer of the full capacity.
    fn default() -> (r: Self)
        ensures
            r.buf().len() == SCRATCH_CAPACITY,
    {
        Self::new()
    }
}

impl Sealed for Scratch {

}

impl ScratchBuffer for Scratch {
    closed spec fn buf(&self) -> Seq<u8> {
        self.inner@
    }

    fn obtain(&mut self) -> (r: &mut Vec<u8>) {
        &mut self.inner
    }
}

} // verus!
