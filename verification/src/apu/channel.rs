use vstd::prelude::*;

verus! {

/// The clock surface every APU channel presents to the frame
/// counter.
pub trait Channel {
    fn clock(&mut self);

    fn clock_quarter_frame(&mut self);

    fn clock_half_frame(&mut self);
}

} // verus!
