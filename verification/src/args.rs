//! The arguments of this process.
use vstd::prelude::*;

use crate::text::copy_of;

verus! {

/// The words of an argument vector, each of which may be missing, up to the first that is.
pub open spec fn up_to_missing(argv: Seq<Option<Vec<u8>>>) -> Seq<Seq<u8>>
    decreases argv.len(),
{
    if argv.len() == 0 {
        Seq::empty()
    } else {
        match argv[0] {
            Some(word) => seq![word@] + up_to_missing(argv.drop_first()),
            None => Seq::empty(),
        }
    }
}

/// How many words of an argument vector there are to read: as many as are counted.
pub open spec fn counted(argc: i32, argv: Seq<Option<Vec<u8>>>) -> Seq<Option<Vec<u8>>> {
    if argc <= 0 {
        Seq::empty()
    } else if argc < argv.len() {
        argv.take(argc as int)
    } else {
        argv
    }
}

/// The arguments of this process, handed out one by one from both ends. Its view is those
/// that are left.
#[derive(Debug)]
pub struct Args {
    words: Vec<Vec<u8>>,
    from: usize,
    to: usize,
}

/// The bytes of some words.
pub open spec fn bytes_of(words: Seq<Vec<u8>>) -> Seq<Seq<u8>> {
    words.map_values(|word: Vec<u8>| word@)
}

impl View for Args {
    type V = Seq<Seq<u8>>;

    closed spec fn view(&self) -> Seq<Seq<u8>> {
        bytes_of(self.words@).subrange(self.from as int, self.to as int)
    }
}

proof fn words_so_far(argv: Seq<Option<Vec<u8>>>, n: int)
    requires
        0 <= n <= argv.len(),
        forall|i: int| 0 <= i < n ==> (#[trigger] argv[i]) is Some,
        n < argv.len() ==> argv[n] is None,
    ensures
        up_to_missing(argv) == Seq::new(n as nat, |i: int| argv[i]->0@),
    decreases n,
{
    if n == 0 {
        assert(up_to_missing(argv) == Seq::<Seq<u8>>::empty());
    } else {
        let rest = argv.drop_first();
        assert forall|i: int| 0 <= i < n - 1 implies (#[trigger] rest[i]) is Some by {
            assert(argv[i + 1] is Some);
        }
        assert(argv[0] is Some);
        words_so_far(rest, n - 1);
        assert(up_to_missing(argv) == Seq::new(n as nat, |i: int| argv[i]->0@));
    }
}

/// Takes the arguments over from the argument vector that the program was started with. Where
/// there was none, it is empty.
pub fn args(argc: i32, argv: &Vec<Option<Vec<u8>>>) -> (a: Args)
    ensures
        a@ == up_to_missing(counted(argc, argv@)),
{
    let count: usize = if argc <= 0 {
        0
    } else if (argc as usize) < argv.len() {
        argc as usize
    } else {
        argv.len()
    };
    let ghost all = counted(argc, argv@);
    assert(all == argv@.take(count as int));
    let mut words: Vec<Vec<u8>> = Vec::new();
    let mut i: usize = 0;
    let mut more: bool = i < count;
    while more
        invariant
            i == words@.len() <= count <= argv@.len(),
            all == argv@.take(count as int),
            forall|j: int| 0 <= j < i ==> (#[trigger] all[j]) is Some,
            forall|j: int| 0 <= j < i ==> (#[trigger] words@[j])@ == all[j]->0@,
            more ==> i < count,
            !more ==> i == count || all[i as int] is None,
        decreases
                count - i + (if more {
                    1int
                } else {
                    0
                }),
    {
        match &argv[i] {
            Some(word) => {
                words.push(copy_of(word.as_slice()));
                i = i + 1;
                more = i < count;
            },
            None => {
                more = false;
            },
        }
    }
    proof {
        words_so_far(all, i as int);
        assert(bytes_of(words@).subrange(0, i as int) == up_to_missing(all));
    }
    let to: usize = words.len();
    Args { words, from: 0, to }
}

impl Args {
    #[verifier::type_invariant]
    spec fn within(self) -> bool {
        self.from <= self.to <= self.words@.len()
    }

    /// The next argument.
    pub fn next(&mut self) -> (r: Option<Vec<u8>>)
        ensures
            match r {
                Some(arg) => old(self)@.len() > 0 && arg@ == old(self)@[0] && final(self)@ == old(
                    self,
                )@.drop_first(),
                None => old(self)@.len() == 0 && final(self)@ == old(self)@,
            },
    {
        proof {
            use_type_invariant(&*self);
        }
        if self.from < self.to {
            let arg: Vec<u8> = copy_of(self.words[self.from].as_slice());
            self.from = self.from + 1;
            assert(self@ == old(self)@.drop_first());
            Some(arg)
        } else {
            None
        }
    }

    /// The last argument.
    pub fn next_back(&mut self) -> (r: Option<Vec<u8>>)
        ensures
            match r {
                Some(arg) => old(self)@.len() > 0 && arg@ == old(self)@.last() && final(self)@
                    == old(self)@.drop_last(),
                None => old(self)@.len() == 0 && final(self)@ == old(self)@,
            },
    {
        proof {
            use_type_invariant(&*self);
        }
        if self.from < self.to {
            let arg: Vec<u8> = copy_of(self.words[self.to - 1].as_slice());
            self.to = self.to - 1;
            assert(self@ == old(self)@.drop_last());
            Some(arg)
        } else {
            None
        }
    }

    /// How many arguments are left.
    pub fn len(&self) -> (n: usize)
        ensures
            n == self@.len(),
    {
        proof {
            use_type_invariant(self);
        }
        self.to - self.from
    }

    /// How many arguments are left, at least and at most.
    pub fn size_hint(&self) -> (r: (usize, Option<usize>))
        ensures
            r.0 == self@.len(),
            r.1 == Some(r.0),
    {
        let n: usize = self.len();
        (n, Some(n))
    }
}

/// The arguments of this process are the words of the argument vector in their order, up to as
/// many as are counted, and up to the first that is missing.
pub proof fn arguments_are_the_words_that_were_given(
    argc: i32,
    argv: Vec<Option<Vec<u8>>>,
    a: Args,
    n: int,
)
    requires
        call_ensures(args, (argc, &argv), a),
        0 <= n <= argv@.len(),
        forall|i: int| 0 <= i < n ==> (#[trigger] argv@[i]) is Some,
        n == argv@.len() || n == argc || (n == 0 && argc <= 0) || (n < argc && argv@[n] is None),
        argc >= 0 ==> n <= argc,
        argc < 0 ==> n == 0,
    ensures
        a@.len() == n,
        forall|i: int| 0 <= i < n ==> #[trigger] a@[i] == argv@[i]->0@,
{
    let all = counted(argc, argv@);
    assert forall|i: int| 0 <= i < n implies (#[trigger] all[i]) is Some by {
        assert(argv@[i] is Some);
    }
    words_so_far(all, n);
}

/// Arguments are handed out from either end, each once, and there are as many left as are told.
pub proof fn arguments_are_handed_out_from_both_ends(
    a: &mut Args,
    first: Option<Vec<u8>>,
    n: usize,
    hint: (usize, Option<usize>),
)
    requires
        call_ensures(Args::next, (a,), first),
        call_ensures(Args::len, (&*old(a),), n),
        call_ensures(Args::size_hint, (&*old(a),), hint),
    ensures
        n == old(a)@.len(),
        hint == (n, Some(n)),
        old(a)@.len() == 0 ==> first is None && final(a)@ == old(a)@,
        old(a)@.len() > 0 ==> (first matches Some(word) && word@ == old(a)@[0] && final(a)@
            == old(a)@.drop_first()),
{
}

/// The last argument is handed out from the back, and the others are left.
pub proof fn the_last_argument_is_handed_out(a: &mut Args, last: Option<Vec<u8>>)
    requires
        call_ensures(Args::next_back, (a,), last),
    ensures
        old(a)@.len() == 0 ==> last is None && final(a)@ == old(a)@,
        old(a)@.len() > 0 ==> (last matches Some(word) && word@ == old(a)@.last() && final(a)@
            == old(a)@.drop_last()),
{
}

} // verus!
