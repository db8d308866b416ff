//! Memory, over `posixc`.
//!
//! Addresses are integers, and zero is none.
use vstd::prelude::*;

use crate::op::{follows, Decode, Operation, Request, Step};

verus! {

/// An address.
pub type Address = usize;

/// The alignment that every block has that `malloc` gives.
pub const MIN_ALIGN: usize = 16;

/// The size of a pointer, which an alignment that is asked for must be a multiple of.
pub const POINTER_SIZE: usize = 8;

/// What a block has to be like.
#[derive(Clone, Copy, PartialEq, Eq, Structural, Debug)]
pub struct Layout {
    /// How long it has to be.
    pub size: usize,
    /// What its address has to be a multiple of.
    pub align: usize,
}

/// A call about memory.
#[derive(PartialEq, Eq, Debug)]
pub enum AllocCall {
    /// `malloc`.
    Malloc { size: usize },
    /// `calloc`.
    Calloc { count: usize, size: usize },
    /// `realloc`.
    Realloc { ptr: Address, size: usize },
    /// `free`.
    Free { ptr: Address },
    /// `posix_memalign`.
    MemAlign { align: usize, size: usize },
    /// Fills a block with zeros.
    Zero { ptr: Address, len: usize },
    /// Copies from one block to another.
    Copy { from: Address, to: Address, len: usize },
}

/// What such a call answers.
#[derive(PartialEq, Eq, Debug)]
pub struct AllocReply {
    /// The number that the call returned, where it returns one, or else zero.
    pub ret: i32,
    /// The block that the call gave, or zero.
    pub ptr: Address,
}

/// Whether a block like this comes from `malloc` or its kin. Any other comes from
/// `posix_memalign`, and lies within a larger block: `free` knows how to find that, and
/// `realloc` does not.
pub open spec fn from_malloc(layout: Layout) -> bool {
    layout.align <= MIN_ALIGN && layout.align <= layout.size
}

/// The call that gives a block.
pub open spec fn giving(layout: Layout) -> AllocCall {
    if from_malloc(layout) {
        AllocCall::Malloc { size: layout.size }
    } else {
        AllocCall::MemAlign {
            align: if layout.align < POINTER_SIZE {
                POINTER_SIZE
            } else {
                layout.align
            },
            size: layout.size,
        }
    }
}

/// The block that a call gave. Only `posix_memalign` tells a failure by its number.
pub open spec fn given(reply: AllocReply) -> Address {
    if reply.ret != 0 {
        0
    } else {
        reply.ptr
    }
}

/// The call that gives a block.
fn give(layout: Layout) -> (call: AllocCall)
    ensures
        call == giving(layout),
{
    if layout.align <= MIN_ALIGN && layout.align <= layout.size {
        AllocCall::Malloc { size: layout.size }
    } else {
        aligned_malloc(layout)
    }
}

/// The call that gives a block with an alignment of its own.
fn aligned_malloc(layout: Layout) -> (call: AllocCall)
    ensures
        !from_malloc(layout) ==> call == giving(layout),
{
    let align: usize = if layout.align < POINTER_SIZE {
        POINTER_SIZE
    } else {
        layout.align
    };
    AllocCall::MemAlign { align, size: layout.size }
}

/// A call that gives a block, or zero.
pub struct Block;

impl Decode for Block {
    type Reply = AllocReply;

    type Output = Address;

    open spec fn accepts(self, reply: AllocReply) -> bool {
        true
    }

    open spec fn reads(self, reply: AllocReply, out: Address) -> bool {
        out == given(reply)
    }

    fn decode(self, reply: AllocReply) -> (out: Address) {
        if reply.ret != 0 {
            0
        } else {
            reply.ptr
        }
    }
}

/// Asks for a block.
pub fn allocate(layout: Layout) -> (r: Request<AllocCall, Block>)
    ensures
        r.call == giving(layout),
{
    Request { call: give(layout), reading: Block }
}

/// Gives a block back. The call answers nothing.
pub fn dealloc(ptr: Address, layout: Layout) -> (call: AllocCall)
    ensures
        call == (AllocCall::Free { ptr }),
{
    AllocCall::Free { ptr }
}

/// Asking for a block of zeros.
pub enum AllocZeroed {
    /// A block of zeros is being asked for.
    Zeroed { layout: Layout },
    /// A block is being asked for.
    Giving { layout: Layout },
    /// The block is being filled with zeros.
    Filling { ptr: Address, len: usize },
}

/// Asks for a block of zeros.
pub fn alloc_zeroed(layout: Layout) -> (op: AllocZeroed)
    ensures
        op == if from_malloc(layout) {
            AllocZeroed::Zeroed { layout }
        } else {
            AllocZeroed::Giving { layout }
        },
{
    if layout.align <= MIN_ALIGN && layout.align <= layout.size {
        AllocZeroed::Zeroed { layout }
    } else {
        AllocZeroed::Giving { layout }
    }
}

impl Operation for AllocZeroed {
    type Call = AllocCall;

    type Reply = AllocReply;

    type Output = Address;

    open spec fn asks(self, call: AllocCall) -> bool {
        match self {
            AllocZeroed::Zeroed { layout } => call == (AllocCall::Calloc {
                count: layout.size,
                size: 1,
            }),
            AllocZeroed::Giving { layout } => call == giving(layout),
            AllocZeroed::Filling { ptr, len } => call == (AllocCall::Zero { ptr, len }),
        }
    }

    open spec fn accepts(self, reply: AllocReply) -> bool {
        true
    }

    /// A block that was not given is not filled.
    open spec fn leads_to(self, reply: AllocReply, step: Step<AllocZeroed, Address>) -> bool {
        match self {
            AllocZeroed::Zeroed { layout } => step == Step::<AllocZeroed, Address>::Done(
                given(reply),
            ),
            AllocZeroed::Giving { layout } => if given(reply) == 0 {
                step == Step::<AllocZeroed, Address>::Done(0)
            } else {
                step == Step::<AllocZeroed, Address>::Ask(
                    AllocZeroed::Filling { ptr: given(reply), len: layout.size },
                )
            },
            AllocZeroed::Filling { ptr, len } => step == Step::<AllocZeroed, Address>::Done(ptr),
        }
    }

    fn call(&self) -> (call: AllocCall) {
        match self {
            AllocZeroed::Zeroed { layout } => AllocCall::Calloc { count: layout.size, size: 1 },
            AllocZeroed::Giving { layout } => give(*layout),
            AllocZeroed::Filling { ptr, len } => AllocCall::Zero { ptr: *ptr, len: *len },
        }
    }

    fn resume(self, reply: AllocReply) -> (step: Step<AllocZeroed, Address>) {
        match self {
            AllocZeroed::Zeroed { layout: _ } => Step::Done(Block.decode(reply)),
            AllocZeroed::Giving { layout } => {
                let ptr: Address = Block.decode(reply);
                if ptr == 0 {
                    Step::Done(0)
                } else {
                    Step::Ask(AllocZeroed::Filling { ptr, len: layout.size })
                }
            },
            AllocZeroed::Filling { ptr, len: _ } => Step::Done(ptr),
        }
    }
}

/// Changing the size of a block.
pub enum Realloc {
    /// The system is changing it.
    Direct { ptr: Address, new_size: usize },
    /// Another block is being asked for.
    Giving { ptr: Address, layout: Layout, new_size: usize },
    /// What fits is being copied to it.
    Copying { ptr: Address, new: Address, len: usize },
    /// The block is being given back.
    Freeing { ptr: Address, new: Address },
}

/// Changes the size of a block, which has the layout that it was asked for with. Only a block
/// that comes from `malloc` is handed to `realloc`.
pub fn realloc(ptr: Address, layout: Layout, new_size: usize) -> (op: Realloc)
    ensures
        op == if from_malloc(layout) {
            Realloc::Direct { ptr, new_size }
        } else {
            Realloc::Giving { ptr, layout, new_size }
        },
{
    if layout.align <= MIN_ALIGN && layout.align <= layout.size {
        Realloc::Direct { ptr, new_size }
    } else {
        Realloc::Giving { ptr, layout, new_size }
    }
}

/// The smaller of two lengths.
pub open spec fn shorter(a: usize, b: usize) -> usize {
    if a < b {
        a
    } else {
        b
    }
}

impl Operation for Realloc {
    type Call = AllocCall;

    type Reply = AllocReply;

    type Output = Address;

    open spec fn asks(self, call: AllocCall) -> bool {
        match self {
            Realloc::Direct { ptr, new_size } => call == (AllocCall::Realloc {
                ptr,
                size: new_size,
            }),
            Realloc::Giving { ptr, layout, new_size } => call == giving(
                Layout { size: new_size, align: layout.align },
            ),
            Realloc::Copying { ptr, new, len } => call == (AllocCall::Copy {
                from: ptr,
                to: new,
                len,
            }),
            Realloc::Freeing { ptr, new } => call == (AllocCall::Free { ptr }),
        }
    }

    open spec fn accepts(self, reply: AllocReply) -> bool {
        true
    }

    /// Where there is no other block to be had, the block stays as it is.
    open spec fn leads_to(self, reply: AllocReply, step: Step<Realloc, Address>) -> bool {
        match self {
            Realloc::Direct { ptr, new_size } => step == Step::<Realloc, Address>::Done(
                given(reply),
            ),
            Realloc::Giving { ptr, layout, new_size } => if given(reply) == 0 {
                step == Step::<Realloc, Address>::Done(0)
            } else {
                step == Step::<Realloc, Address>::Ask(
                    Realloc::Copying {
                        ptr,
                        new: given(reply),
                        len: shorter(layout.size, new_size),
                    },
                )
            },
            Realloc::Copying { ptr, new, len } => step == Step::<Realloc, Address>::Ask(
                Realloc::Freeing { ptr, new },
            ),
            Realloc::Freeing { ptr, new } => step == Step::<Realloc, Address>::Done(new),
        }
    }

    fn call(&self) -> (call: AllocCall) {
        match self {
            Realloc::Direct { ptr, new_size } => AllocCall::Realloc { ptr: *ptr, size: *new_size },
            Realloc::Giving { ptr: _, layout, new_size } => give(
                Layout { size: *new_size, align: layout.align },
            ),
            Realloc::Copying { ptr, new, len } => AllocCall::Copy {
                from: *ptr,
                to: *new,
                len: *len,
            },
            Realloc::Freeing { ptr, new: _ } => AllocCall::Free { ptr: *ptr },
        }
    }

    fn resume(self, reply: AllocReply) -> (step: Step<Realloc, Address>) {
        match self {
            Realloc::Direct { ptr: _, new_size: _ } => Step::Done(Block.decode(reply)),
            Realloc::Giving { ptr, layout, new_size } => {
                let new: Address = Block.decode(reply);
                if new == 0 {
                    return Step::Done(0);
                }
                let len: usize = if layout.size < new_size {
                    layout.size
                } else {
                    new_size
                };
                Step::Ask(Realloc::Copying { ptr, new, len })
            },
            Realloc::Copying { ptr, new, len: _ } => Step::Ask(Realloc::Freeing { ptr, new }),
            Realloc::Freeing { ptr: _, new } => Step::Done(new),
        }
    }
}

/// Whether a call gives a block that `realloc` may be handed.
pub open spec fn gives_malloc_block(call: AllocCall) -> bool {
    call is Malloc || call is Calloc || call is Realloc
}

/// Whether what is known of a block is enough: one whose layout says that it comes from
/// `malloc` does come from it. `malloced` is whether it does.
pub open spec fn layout_tells(layout: Layout, malloced: bool) -> bool {
    from_malloc(layout) ==> malloced
}

/// A block whose layout says that it comes from `malloc` does so, whichever way it came to
/// have that layout: when it was asked for, when it was asked for as zeros, and after any
/// change of its size. So `realloc` is never handed any other block.
pub proof fn only_malloc_blocks_are_reallocated(
    layout: Layout,
    ptr: Address,
    malloced: bool,
    new_size: usize,
    call: AllocCall,
)
    ensures
        layout_tells(layout, gives_malloc_block(giving(layout))),
        from_malloc(layout) && (AllocZeroed::Zeroed { layout }).asks(call) ==> gives_malloc_block(
            call,
        ),
        ({
            let op = if from_malloc(layout) {
                Realloc::Direct { ptr, new_size }
            } else {
                Realloc::Giving { ptr, layout, new_size }
            };
            layout_tells(layout, malloced) && op.asks(call) ==> {
                &&& call is Realloc ==> malloced
                &&& layout_tells(
                    Layout { size: new_size, align: layout.align },
                    gives_malloc_block(call),
                )
            }
        }),
{
}

/// A block is given back only after what fits of it has been copied to the other one, and it
/// is given back exactly where another one takes its place.
pub proof fn old_block_outlives_the_copy(op: Realloc, reply: AllocReply, next: Realloc)
    requires
        follows(op, reply, next),
        next is Freeing,
    ensures
        op matches Realloc::Copying { ptr, new, len } && next == (Realloc::Freeing { ptr, new }),
{
}

/// A block is asked of `malloc` exactly where the alignment that every block has is enough and
/// the block is at least as long as its alignment, and else with its own alignment, which is at
/// least that of a pointer; it is as long as was asked for either way, and given back by its own
/// address.
pub proof fn a_block_is_asked_for_as_it_has_to_be(
    layout: Layout,
    r: Request<AllocCall, Block>,
    ptr: Address,
    freed: AllocCall,
    reply: AllocReply,
    out: Address,
)
    requires
        call_ensures(allocate, (layout,), r),
        call_ensures(dealloc, (ptr, layout), freed),
        r.reading.reads(reply, out),
    ensures
        layout.align <= 16 && layout.align <= layout.size ==> r.call == (AllocCall::Malloc {
            size: layout.size,
        }),
        layout.align > 16 || layout.align > layout.size ==> (r.call matches AllocCall::MemAlign {
            align,
            size,
        } && size == layout.size && align >= layout.align && align >= 8 && (align == layout.align
            || align == 8)),
        freed == (AllocCall::Free { ptr }),
        reply.ret == 0 ==> out == reply.ptr,
        reply.ret != 0 ==> out == 0,
{
}

/// A block of zeros is asked for as such where `malloc` can give it, and is asked for and then
/// filled with zeros over its whole length where it cannot; a block that was not given is not
/// filled.
pub proof fn a_block_of_zeros_is_zero_throughout(
    layout: Layout,
    op: AllocZeroed,
    reply: AllocReply,
    step: Step<AllocZeroed, Address>,
)
    requires
        call_ensures(alloc_zeroed, (layout,), op),
        op.leads_to(reply, step),
    ensures
        op.accepts(reply),
        ({
            let plain = layout.align <= 16 && layout.align <= layout.size;
            let ptr = if reply.ret == 0 {
                reply.ptr
            } else {
                0
            };
            &&& plain ==> {
                &&& forall|call: AllocCall| #[trigger]
                    op.asks(call) ==> call == (AllocCall::Calloc { count: layout.size, size: 1 })
                &&& step == Step::<AllocZeroed, Address>::Done(ptr)
            }
            &&& !plain ==> {
                &&& forall|call: AllocCall| #[trigger]
                    op.asks(call) ==> (call matches AllocCall::MemAlign { align, size } && size
                        == layout.size && align >= layout.align && align >= 8 && (align
                        == layout.align || align == 8))
                &&& ptr == 0 ==> step == Step::<AllocZeroed, Address>::Done(0)
                &&& ptr != 0 ==> (step matches Step::Ask(next) && (forall|call: AllocCall| #[trigger]
                    next.asks(call) ==> call == (AllocCall::Zero { ptr, len: layout.size })) && (
                forall|r: AllocReply, end: Step<AllocZeroed, Address>| #[trigger]
                    next.leads_to(r, end) ==> end == Step::<AllocZeroed, Address>::Done(ptr)))
            }
        }),
{
}

/// The size of a block that comes from `malloc` is changed by the system. Any other is replaced
/// by a new block of the new size: all that fits is copied to it, from the first byte on, and
/// only then is the old one given back; where there is no new block, the old one stays.
pub proof fn a_block_keeps_what_fits(
    ptr: Address,
    layout: Layout,
    new_size: usize,
    op: Realloc,
    reply: AllocReply,
    step: Step<Realloc, Address>,
)
    requires
        call_ensures(realloc, (ptr, layout, new_size), op),
        op.leads_to(reply, step),
    ensures
        op.accepts(reply),
        ({
            let plain = layout.align <= 16 && layout.align <= layout.size;
            let new = if reply.ret == 0 {
                reply.ptr
            } else {
                0
            };
            &&& plain ==> {
                &&& forall|call: AllocCall| #[trigger]
                    op.asks(call) ==> call == (AllocCall::Realloc { ptr, size: new_size })
                &&& step == Step::<Realloc, Address>::Done(new)
            }
            &&& !plain ==> {
                &&& forall|call: AllocCall| #[trigger]
                    op.asks(call) ==> if layout.align <= 16 && layout.align <= new_size {
                        call == (AllocCall::Malloc { size: new_size })
                    } else {
                        call matches AllocCall::MemAlign { align, size } && size == new_size && align
                            >= layout.align && align >= 8 && (align == layout.align || align == 8)
                    }
                &&& new == 0 ==> step == Step::<Realloc, Address>::Done(0)
                &&& new != 0 ==> (step matches Step::Ask(next) && forall|call: AllocCall| #[trigger]
                    next.asks(call) ==> (call matches AllocCall::Copy { from, to, len } && from
                        == ptr && to == new && len <= layout.size && len <= new_size && (len
                        == layout.size || len == new_size)))
            }
        }),
{
}

/// Once what fits has been copied, the old block is given back, and the new one is the result.
pub proof fn the_new_block_takes_the_place_of_the_old(
    ptr: Address,
    new: Address,
    len: usize,
    reply: AllocReply,
    step: Step<Realloc, Address>,
    last: AllocReply,
    end: Step<Realloc, Address>,
)
    requires
        (Realloc::Copying { ptr, new, len }).leads_to(reply, step),
        step matches Step::Ask(next) ==> next.leads_to(last, end),
    ensures
        step matches Step::Ask(next) && forall|call: AllocCall| #[trigger]
            next.asks(call) ==> call == (AllocCall::Free { ptr }),
        end == Step::<Realloc, Address>::Done(new),
        forall|call: AllocCall| #[trigger]
            (Realloc::Copying { ptr, new, len }).asks(call) ==> call == (AllocCall::Copy {
                from: ptr,
                to: new,
                len,
            }),
{
}

} // verus!
