//! Random bytes.
use vstd::prelude::*;

use crate::op::Step;

verus! {

/// A call for random bytes: `arc4random_buf` over a whole buffer of that length.
#[derive(PartialEq, Eq, Debug)]
pub struct RandomCall {
    pub len: usize,
}

/// Fills a buffer of that length. An empty one is full.
pub fn fill_bytes(len: usize) -> (step: Step<RandomCall, ()>)
    ensures
        match step {
            Step::Ask(call) => len > 0 && call.len == len,
            Step::Done(_) => len == 0,
        },
{
    if len == 0 {
        Step::Done(())
    } else {
        Step::Ask(RandomCall { len })
    }
}

/// A buffer is filled over its whole length, and an empty one is full.
pub proof fn a_buffer_is_filled_whole(len: usize, step: Step<RandomCall, ()>)
    requires
        call_ensures(fill_bytes, (len,), step),
    ensures
        step is Done <==> len == 0,
        step matches Step::Ask(call) ==> call.len == len,
{
}

} // verus!
