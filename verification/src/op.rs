//! Operations that alternate between deciding and waiting for an answer.
use vstd::prelude::*;

verus! {

/// Where an operation stands: it waits for an answer, or it is over.
pub enum Step<S, T> {
    /// The call that `S` names has to be made before anything else can happen.
    Ask(S),
    /// The operation is over and this is its result.
    Done(T),
}

/// An operation that waits for the answer to one call at a time.
pub trait Operation: Sized {
    /// The calls it can make.
    type Call;

    /// What such a call answers.
    type Reply;

    /// What the operation gives in the end.
    type Output;

    /// Whether `call` is the one it waits for.
    spec fn asks(self, call: Self::Call) -> bool;

    /// What an answer must look like for the operation to go on with it.
    spec fn accepts(self, reply: Self::Reply) -> bool;

    /// Whether `step` is what follows once `reply` has come.
    spec fn leads_to(self, reply: Self::Reply, step: Step<Self, Self::Output>) -> bool;

    /// The call that has to be made now.
    fn call(&self) -> (call: Self::Call)
        ensures
            self.asks(call),
    ;

    /// Goes on with the answer to that call.
    fn resume(self, reply: Self::Reply) -> (step: Step<Self, Self::Output>)
        requires
            self.accepts(reply),
        ensures
            self.leads_to(reply, step),
    ;
}

/// Whether an operation that is given an answer goes on as `next`.
pub open spec fn follows<O: Operation>(op: O, reply: O::Reply, next: O) -> bool {
    op.accepts(reply) && op.leads_to(reply, Step::Ask(next))
}

/// Whether `ops` are the states that an operation goes through while it is given `replies`.
pub open spec fn runs<O: Operation>(ops: Seq<O>, replies: Seq<O::Reply>) -> bool {
    &&& ops.len() == replies.len() + 1
    &&& forall|i: int|
        0 <= i < replies.len() ==> #[trigger] follows(ops[i], replies[i], ops[i + 1])
}

/// What went on before the last answer.
pub proof fn runs_before<O: Operation>(ops: Seq<O>, replies: Seq<O::Reply>)
    requires
        runs(ops, replies),
        replies.len() > 0,
    ensures
        runs(ops.drop_last(), replies.drop_last()),
        follows(ops.drop_last().last(), replies.last(), ops.last()),
{
    let n = replies.len() as int;
    assert(follows(ops[n - 1], replies[n - 1], ops[n - 1 + 1]));
    let early = ops.drop_last();
    let answers = replies.drop_last();
    assert forall|i: int| 0 <= i < answers.len() implies #[trigger] follows(
        early[i],
        answers[i],
        early[i + 1],
    ) by {
        assert(follows(ops[i], replies[i], ops[i + 1]));
    }
}

/// How the answer to a single call is read.
pub trait Decode: Sized {
    /// What the call answers.
    type Reply;

    /// What the answer means.
    type Output;

    /// What an answer must look like to mean anything.
    spec fn accepts(self, reply: Self::Reply) -> bool;

    /// Whether `out` is what `reply` means.
    spec fn reads(self, reply: Self::Reply, out: Self::Output) -> bool;

    /// Reads the answer.
    fn decode(self, reply: Self::Reply) -> (out: Self::Output)
        requires
            self.accepts(reply),
        ensures
            self.reads(reply, out),
    ;
}

/// An operation of exactly one call: what to ask, and how to read the answer.
pub struct Request<C, D> {
    /// The call to make.
    pub call: C,
    /// How its answer is read.
    pub reading: D,
}

impl<C, D: Decode> Request<C, D> {
    /// Reads the answer to the call.
    pub fn finish(self, reply: D::Reply) -> (out: D::Output)
        requires
            self.reading.accepts(reply),
        ensures
            self.reading.reads(reply, out),
    {
        self.reading.decode(reply)
    }
}

/// The call that an operation wants made is one that it asks for, and what follows an answer is
/// what the answer leads to.
pub proof fn an_operation_does_what_it_says<O: Operation>(
    op: O,
    call: O::Call,
    reply: O::Reply,
    step: Step<O, O::Output>,
)
    requires
        call_ensures(<O as Operation>::call, (&op,), call),
        call_ensures(<O as Operation>::resume, (op, reply), step),
    ensures
        op.asks(call),
        op.leads_to(reply, step),
{
}

/// The answer to a single call is read as its request says it is.
pub proof fn a_request_is_finished_as_it_says<C, D: Decode>(
    request: Request<C, D>,
    reply: D::Reply,
    out: D::Output,
    decoded: D::Output,
)
    requires
        call_ensures(Request::<C, D>::finish, (request, reply), out),
        call_ensures(<D as Decode>::decode, (request.reading, reply), decoded),
    ensures
        request.reading.reads(reply, out),
        request.reading.reads(reply, decoded),
{
}

} // verus!
