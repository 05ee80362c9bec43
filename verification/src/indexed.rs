//! Sequential index generation: the counter that hands out per-type
//! indices.  The counter is an explicitly owned value — whoever needs
//! per-type indices holds and passes its own generator — rather than
//! hidden process-wide state.

use vstd::prelude::*;

verus! {

/// A type whose values carry an index.
pub trait Indexed: Sized {
    fn index(&self) -> usize;
}

/// An indexed type whose values are indexed on demand rather than at
/// construction.
pub trait ManualIndexed: Indexed {
    fn indexed(&self) -> bool;

    fn set_indexed(&mut self);
}

/// The index counter: hands out consecutive indices from zero.
#[derive(Clone, Copy, Debug, PartialEq, Eq, Structural)]
pub struct IndexGeneratorImpl {
    pub next_index: usize,
}

impl IndexGeneratorImpl {
    pub fn new() -> (r: Self)
        ensures
            r.next_index == 0,
    {
        IndexGeneratorImpl { next_index: 0 }
    }

    /// The next free index; each call answers one more than the last.
    pub fn next(&mut self) -> (r: usize)
        requires
            old(self).next_index < usize::MAX,
        ensures
            r == old(self).next_index,
            final (self).next_index == old(self).next_index + 1,
    {
        let ret = self.next_index;
        self.next_index = self.next_index + 1;
        ret
    }

    /// Start over from zero.
    pub fn flush(&mut self)
        ensures
            final (self).next_index == 0,
    {
        self.next_index = 0
    }
}

} // verus!
