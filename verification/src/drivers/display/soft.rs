//! Software scanout: the front buffer lives in guest RAM only; its address is kept
//! for debuggers and host tools.
use vstd::prelude::*;

verus! {

/// Address of the buffer considered on screen.
pub struct SoftScanout {
    front: usize,
}

impl SoftScanout {
    pub closed spec fn spec_front(&self) -> usize {
        self.front
    }

    /// Before any buffer is announced the front address reads 0.
    pub fn new() -> (r: SoftScanout)
        ensures
            r.spec_front() == 0,
    {
        SoftScanout { front: 0 }
    }

    /// Starts scanning out the buffer at `front`.
    pub fn init(front: usize) -> (r: SoftScanout)
        ensures
            r.spec_front() == front,
    {
        SoftScanout { front }
    }

    /// Switches to the buffer at `front`.
    pub fn set_front(&mut self, front: usize)
        ensures
            final(self).spec_front() == front,
    {
        self.front = front;
    }

    /// Address of the buffer on screen.
    pub fn front_addr(&self) -> (r: usize)
        ensures
            r == self.spec_front(),
    {
        self.front
    }
}

} // verus!
