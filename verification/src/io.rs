//! Buffers that are read or written several at a time.
//!
//! The system has no call for that, so of several buffers the first that is not empty is
//! used and the others are left alone.
use vstd::prelude::*;

use crate::error::Error;
use crate::op::Request;

verus! {

/// The place of the first length that is not zero, or the number of lengths.
pub open spec fn first_nonzero(lens: Seq<usize>) -> int
    decreases lens.len(),
{
    if lens.len() == 0 || lens[0] != 0 {
        0
    } else {
        1 + first_nonzero(lens.drop_first())
    }
}

/// The place of the first buffer that is not empty, or the number of buffers.
pub open spec fn first_nonempty(bufs: Seq<Vec<u8>>) -> int
    decreases bufs.len(),
{
    if bufs.len() == 0 || bufs[0]@.len() != 0 {
        0
    } else {
        1 + first_nonempty(bufs.drop_first())
    }
}

proof fn first_nonzero_is(lens: Seq<usize>, at: int)
    requires
        0 <= at <= lens.len(),
        at < lens.len() ==> lens[at] != 0,
        forall|i: int| 0 <= i < at ==> lens[i] == 0,
    ensures
        first_nonzero(lens) == at,
    decreases lens.len(),
{
    if at > 0 {
        assert(lens[0] == 0);
        first_nonzero_is(lens.drop_first(), at - 1);
    }
}

proof fn first_nonempty_is(bufs: Seq<Vec<u8>>, at: int)
    requires
        0 <= at <= bufs.len(),
        at < bufs.len() ==> bufs[at]@.len() != 0,
        forall|i: int| 0 <= i < at ==> (#[trigger] bufs[i])@.len() == 0,
    ensures
        first_nonempty(bufs) == at,
    decreases bufs.len(),
{
    if at > 0 {
        assert(bufs[0]@.len() == 0);
        first_nonempty_is(bufs.drop_first(), at - 1);
    }
}

/// The first length that is not zero is found where every one before it is zero, and none is
/// where all are.
pub proof fn first_nonzero_is_found(lens: Seq<usize>, i: int)
    ensures
        0 <= i < lens.len() && lens[i] != 0 && (forall|k: int| 0 <= k < i ==> lens[k] == 0)
            ==> first_nonzero(lens) == i,
        (forall|k: int| 0 <= k < lens.len() ==> lens[k] == 0) ==> first_nonzero(lens)
            == lens.len(),
{
    if 0 <= i < lens.len() && lens[i] != 0 && (forall|k: int| 0 <= k < i ==> lens[k] == 0) {
        first_nonzero_is(lens, i);
    }
    if forall|k: int| 0 <= k < lens.len() ==> lens[k] == 0 {
        first_nonzero_is(lens, lens.len() as int);
    }
}

/// The first buffer that is not empty is found where every one before it is empty, and none is
/// where all are.
pub proof fn first_nonempty_is_found(bufs: Seq<Vec<u8>>, i: int)
    ensures
        0 <= i < bufs.len() && bufs[i]@.len() != 0 && (forall|k: int|
            0 <= k < i ==> (#[trigger] bufs[k])@.len() == 0) ==> first_nonempty(bufs) == i,
        (forall|k: int| 0 <= k < bufs.len() ==> (#[trigger] bufs[k])@.len() == 0)
            ==> first_nonempty(bufs) == bufs.len(),
{
    if 0 <= i < bufs.len() && bufs[i]@.len() != 0 && (forall|k: int|
        0 <= k < i ==> (#[trigger] bufs[k])@.len() == 0) {
        first_nonempty_is(bufs, i);
    }
    if forall|k: int| 0 <= k < bufs.len() ==> (#[trigger] bufs[k])@.len() == 0 {
        first_nonempty_is(bufs, bufs.len() as int);
    }
}

/// The place of the first length that is not zero, or the number of lengths.
pub fn find_nonzero(lens: &[usize]) -> (at: usize)
    ensures
        at == first_nonzero(lens@),
        at <= lens@.len(),
        at < lens@.len() ==> lens@[at as int] != 0,
{
    let mut at: usize = 0;
    while at < lens.len() && lens[at] == 0
        invariant
            at <= lens@.len(),
            forall|i: int| 0 <= i < at ==> lens@[i] == 0,
        decreases lens@.len() - at,
    {
        at += 1;
    }
    proof {
        first_nonzero_is(lens@, at as int);
    }
    at
}

/// The place of the first buffer that is not empty, or the number of buffers.
pub fn find_nonempty(bufs: &[Vec<u8>]) -> (at: usize)
    ensures
        at == first_nonempty(bufs@),
        at <= bufs@.len(),
        at < bufs@.len() ==> bufs@[at as int]@.len() != 0,
{
    let mut at: usize = 0;
    while at < bufs.len() && bufs[at].len() == 0
        invariant
            at <= bufs@.len(),
            forall|i: int| 0 <= i < at ==> (#[trigger] bufs@[i])@.len() == 0,
        decreases bufs@.len() - at,
    {
        at += 1;
    }
    proof {
        first_nonempty_is(bufs@, at as int);
    }
    at
}

/// A read into one of several buffers.
pub struct ReadInto<C, D> {
    /// Which of the buffers is read into.
    pub index: usize,
    /// The read.
    pub request: Request<C, D>,
}

/// Where a file is sought to.
#[derive(Clone, Copy, PartialEq, Eq, Debug)]
pub enum SeekFrom {
    /// So far behind the start.
    Start(u64),
    /// So far behind the end, or before it where negative.
    End(i64),
    /// So far behind the present place, or before it where negative.
    Current(i64),
}

/// Why a lock was not taken.
#[derive(PartialEq, Eq, Debug)]
pub enum TryLockError {
    /// The system failed.
    Error(Error),
    /// Somebody else holds it.
    WouldBlock,
}

} // verus!
