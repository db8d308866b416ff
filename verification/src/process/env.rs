//! What a command changes of the environment it is run in.
use vstd::prelude::*;

use crate::text::{copy_of, same};

verus! {

/// Whether a key comes before another.
pub open spec fn before(a: Seq<u8>, b: Seq<u8>) -> bool
    decreases a.len(),
{
    if b.len() == 0 {
        false
    } else if a.len() == 0 {
        true
    } else {
        a[0] < b[0] || (a[0] == b[0] && before(a.drop_first(), b.drop_first()))
    }
}

/// Of two keys that are not the same, exactly one comes before the other.
pub proof fn before_is_total(a: Seq<u8>, b: Seq<u8>)
    ensures
        !before(a, a),
        a != b ==> (before(a, b) <==> !before(b, a)),
    decreases a.len(),
{
    if a.len() > 0 {
        before_is_total(a.drop_first(), a.drop_first());
        if b.len() > 0 {
            before_is_total(a.drop_first(), b.drop_first());
            if a[0] == b[0] && a.drop_first() == b.drop_first() {
                assert(a == seq![a[0]] + a.drop_first());
                assert(b == seq![b[0]] + b.drop_first());
            }
        }
    } else if b.len() == 0 {
        assert(a == b);
    }
}

/// What comes before a key comes before whatever follows that key.
pub proof fn before_is_transitive(a: Seq<u8>, b: Seq<u8>, c: Seq<u8>)
    requires
        before(a, b),
        before(b, c),
    ensures
        before(a, c),
    decreases a.len(),
{
    if a.len() > 0 && a[0] == b[0] && b[0] == c[0] {
        before_is_transitive(a.drop_first(), b.drop_first(), c.drop_first());
    }
}

/// Whether a key comes before another.
fn comes_before(a: &[u8], b: &[u8]) -> (yes: bool)
    ensures
        yes == before(a@, b@),
{
    let mut i: usize = 0;
    assert(a@.skip(0) == a@ && b@.skip(0) == b@);
    loop
        invariant
            i <= a@.len(),
            i <= b@.len(),
            before(a@, b@) == before(a@.skip(i as int), b@.skip(i as int)),
        decreases a@.len() - i,
    {
        let ghost x = a@.skip(i as int);
        let ghost y = b@.skip(i as int);
        if i == b.len() {
            return false;
        }
        if i == a.len() {
            return true;
        }
        assert(x[0] == a@[i as int] && y[0] == b@[i as int]);
        if a[i] != b[i] {
            return a[i] < b[i];
        }
        assert(x.drop_first() == a@.skip(i + 1) && y.drop_first() == b@.skip(i + 1));
        i += 1;
    }
}

/// A variable, and the value it is to have; none where it is to be unset.
#[derive(Debug)]
pub struct EnvVar {
    pub key: Vec<u8>,
    pub value: Option<Vec<u8>>,
}

/// The value a variable is to have, in bytes.
pub open spec fn value_bytes(value: Option<Vec<u8>>) -> Option<Seq<u8>> {
    match value {
        Some(v) => Some(v@),
        None => None,
    }
}

impl View for EnvVar {
    type V = (Seq<u8>, Option<Seq<u8>>);

    open spec fn view(&self) -> (Seq<u8>, Option<Seq<u8>>) {
        (self.key@, value_bytes(self.value))
    }
}

/// The variables of a list, each as its key and value.
pub open spec fn entries(vars: Seq<EnvVar>) -> Seq<(Seq<u8>, Option<Seq<u8>>)> {
    vars.map_values(|v: EnvVar| v@)
}

/// Whether keys rise from each variable to the next.
pub open spec fn sorted(list: Seq<(Seq<u8>, Option<Seq<u8>>)>) -> bool {
    forall|i: int, j: int| 0 <= i < j < list.len() ==> before((#[trigger] list[i]).0, (#[trigger] list[j]).0)
}

/// The values by key that a list gives. Of a key that occurs more than once, the last
/// value counts.
pub open spec fn table(list: Seq<(Seq<u8>, Option<Seq<u8>>)>) -> Map<Seq<u8>, Option<Seq<u8>>>
    decreases list.len(),
{
    if list.len() == 0 {
        Map::empty()
    } else {
        table(list.drop_last()).insert(list.last().0, list.last().1)
    }
}

/// A key is in the table exactly where it is in the list.
proof fn table_has(list: Seq<(Seq<u8>, Option<Seq<u8>>)>, key: Seq<u8>)
    ensures
        table(list).dom().contains(key) <==> exists|i: int|
            0 <= i < list.len() && (#[trigger] list[i]).0 == key,
    decreases list.len(),
{
    if list.len() > 0 {
        let rest = list.drop_last();
        table_has(rest, key);
        if exists|i: int| 0 <= i < rest.len() && (#[trigger] rest[i]).0 == key {
            let i = choose|i: int| 0 <= i < rest.len() && (#[trigger] rest[i]).0 == key;
            assert(list[i].0 == key);
        }
        if exists|i: int| 0 <= i < list.len() && (#[trigger] list[i]).0 == key {
            let i = choose|i: int| 0 <= i < list.len() && (#[trigger] list[i]).0 == key;
            if i < rest.len() {
                assert(rest[i].0 == key);
            }
        }
        assert(list[list.len() - 1] == list.last());
    }
}

/// A sorted list stays sorted without its last entry.
proof fn sorted_without_last(list: Seq<(Seq<u8>, Option<Seq<u8>>)>)
    requires
        sorted(list),
        list.len() > 0,
    ensures
        sorted(list.drop_last()),
{
    let rest = list.drop_last();
    assert forall|i: int, j: int| 0 <= i < j < rest.len() implies before(
        (#[trigger] rest[i]).0,
        (#[trigger] rest[j]).0,
    ) by {
        assert(rest[i] == list[i] && rest[j] == list[j]);
    }
}

/// In a sorted list a key has the value that stands beside it.
proof fn table_at(list: Seq<(Seq<u8>, Option<Seq<u8>>)>, i: int)
    requires
        sorted(list),
        0 <= i < list.len(),
    ensures
        table(list).dom().contains(list[i].0),
        table(list)[list[i].0] == list[i].1,
    decreases list.len(),
{
    let rest = list.drop_last();
    if i < rest.len() {
        sorted_without_last(list);
        table_at(rest, i);
        assert(rest[i] == list[i]);
        before_is_total(list[i].0, list.last().0);
        assert(before(list[i].0, list[list.len() - 1].0));
    }
}

/// A sorted list is known by the values it gives: no two give the same.
pub proof fn sorted_list_is_its_table(
    a: Seq<(Seq<u8>, Option<Seq<u8>>)>,
    b: Seq<(Seq<u8>, Option<Seq<u8>>)>,
)
    requires
        sorted(a),
        sorted(b),
        table(a) == table(b),
    ensures
        a == b,
    decreases a.len(),
{
    if a.len() == 0 {
        if b.len() > 0 {
            table_at(b, 0);
        }
    } else if b.len() == 0 {
        table_at(a, 0);
    } else {
        let x = a.last();
        let y = b.last();
        table_at(a, a.len() - 1);
        table_at(b, b.len() - 1);
        table_has(b, x.0);
        table_has(a, y.0);
        let i = choose|i: int| 0 <= i < b.len() && (#[trigger] b[i]).0 == x.0;
        let j = choose|j: int| 0 <= j < a.len() && (#[trigger] a[j]).0 == y.0;
        if x.0 != y.0 {
            assert(before(b[i].0, b[b.len() - 1].0));
            assert(before(a[j].0, a[a.len() - 1].0));
            before_is_total(x.0, y.0);
        }
        assert(x == y);
        let ra = a.drop_last();
        let rb = b.drop_last();
        table_without_last(a);
        table_without_last(b);
        sorted_without_last(a);
        sorted_without_last(b);
        sorted_list_is_its_table(ra, rb);
        assert(a == ra.push(x));
        assert(b == rb.push(y));
    }
}

proof fn table_without_last(list: Seq<(Seq<u8>, Option<Seq<u8>>)>)
    requires
        sorted(list),
        list.len() > 0,
    ensures
        table(list.drop_last()) == table(list).remove(list.last().0),
{
    let rest = list.drop_last();
    let key = list.last().0;
    table_has(rest, key);
    if table(rest).dom().contains(key) {
        let i = choose|i: int| 0 <= i < rest.len() && (#[trigger] rest[i]).0 == key;
        assert(before(list[i].0, list[list.len() - 1].0));
        before_is_total(key, key);
    }
    assert(table(rest) =~= table(rest).insert(key, list.last().1).remove(key));
}

/// Variables in the order of their keys, each once.
#[derive(Debug)]
pub struct EnvTable {
    vars: Vec<EnvVar>,
}

impl View for EnvTable {
    type V = Map<Seq<u8>, Option<Seq<u8>>>;

    closed spec fn view(&self) -> Map<Seq<u8>, Option<Seq<u8>>> {
        table(entries(self.vars@))
    }
}

/// Putting a variable at its place in a sorted list keeps it sorted, and gives the values
/// with that one put in.
proof fn insert_at(
    list: Seq<(Seq<u8>, Option<Seq<u8>>)>,
    at: int,
    new: (Seq<u8>, Option<Seq<u8>>),
)
    requires
        sorted(list),
        0 <= at <= list.len(),
        forall|i: int| 0 <= i < at ==> before((#[trigger] list[i]).0, new.0),
        forall|i: int| at <= i < list.len() ==> before(new.0, (#[trigger] list[i]).0),
    ensures
        sorted(list.insert(at, new)),
        table(list.insert(at, new)) == table(list).insert(new.0, new.1),
    decreases list.len(),
{
    let wider = list.insert(at, new);
    assert(sorted(wider)) by {
        assert forall|i: int, j: int| 0 <= i < j < wider.len() implies before(
            (#[trigger] wider[i]).0,
            (#[trigger] wider[j]).0,
        ) by {
            let a = if i < at {
                list[i]
            } else if i == at {
                new
            } else {
                list[i - 1]
            };
            let b = if j < at {
                list[j]
            } else if j == at {
                new
            } else {
                list[j - 1]
            };
            assert(wider[i] == a && wider[j] == b);
        }
    }
    if at == list.len() {
        assert(wider.drop_last() == list);
    } else {
        let rest = list.drop_last();
        let last = list.last();
        assert(list[list.len() - 1] == last);
        sorted_without_last(list);
        assert forall|i: int| 0 <= i < at implies before((#[trigger] rest[i]).0, new.0) by {
            assert(rest[i] == list[i]);
        }
        assert forall|i: int| at <= i < rest.len() implies before(new.0, (#[trigger] rest[i]).0) by {
            assert(rest[i] == list[i]);
        }
        insert_at(rest, at, new);
        assert(wider.drop_last() == rest.insert(at, new));
        assert(wider.last() == last);
        before_is_total(new.0, last.0);
        assert(before(new.0, last.0));
        assert(new.0 != last.0) by {
            before_is_total(new.0, new.0);
        }
        assert(table(wider) =~= table(list).insert(new.0, new.1));
    }
}

/// Changing the value beside a key changes only what that key gives.
proof fn update_at(list: Seq<(Seq<u8>, Option<Seq<u8>>)>, at: int, value: Option<Seq<u8>>)
    requires
        sorted(list),
        0 <= at < list.len(),
    ensures
        sorted(list.update(at, (list[at].0, value))),
        table(list.update(at, (list[at].0, value))) == table(list).insert(list[at].0, value),
    decreases list.len(),
{
    let new = list.update(at, (list[at].0, value));
    assert(sorted(new)) by {
        assert forall|i: int, j: int| 0 <= i < j < new.len() implies before(
            (#[trigger] new[i]).0,
            (#[trigger] new[j]).0,
        ) by {
            assert(new[i].0 == list[i].0 && new[j].0 == list[j].0);
        }
    }
    let rest = list.drop_last();
    if at == list.len() - 1 {
        assert(new.drop_last() == rest);
        assert(table(new) =~= table(list).insert(list[at].0, value));
    } else {
        sorted_without_last(list);
        assert(rest[at] == list[at]);
        update_at(rest, at, value);
        assert(new.drop_last() == rest.update(at, (rest[at].0, value)));
        assert(new.last() == list.last());
        assert(before(list[at].0, list[list.len() - 1].0));
        before_is_total(list[at].0, list[at].0);
        assert(table(new) =~= table(list).insert(list[at].0, value));
    }
}

/// Taking a variable out takes only its key out.
proof fn remove_at(list: Seq<(Seq<u8>, Option<Seq<u8>>)>, at: int)
    requires
        sorted(list),
        0 <= at < list.len(),
    ensures
        sorted(list.remove(at)),
        table(list.remove(at)) == table(list).remove(list[at].0),
    decreases list.len(),
{
    let new = list.remove(at);
    assert(sorted(new)) by {
        assert forall|i: int, j: int| 0 <= i < j < new.len() implies before(
            (#[trigger] new[i]).0,
            (#[trigger] new[j]).0,
        ) by {
            let a = if i < at {
                list[i]
            } else {
                list[i + 1]
            };
            let b = if j < at {
                list[j]
            } else {
                list[j + 1]
            };
            assert(new[i] == a && new[j] == b);
        }
    }
    if at == list.len() - 1 {
        table_without_last(list);
        assert(new == list.drop_last());
    } else {
        let rest = list.drop_last();
        sorted_without_last(list);
        assert(rest[at] == list[at]);
        remove_at(rest, at);
        assert(new.drop_last() == rest.remove(at));
        assert(new.last() == list.last());
        assert(before(list[at].0, list[list.len() - 1].0));
        before_is_total(list[at].0, list[at].0);
        assert(table(new) =~= table(list).remove(list[at].0));
    }
}

/// A copy of a value.
fn copy_value(value: &Option<Vec<u8>>) -> (copy: Option<Vec<u8>>)
    ensures
        value_bytes(copy) == value_bytes(*value),
{
    match value {
        Some(v) => Some(copy_of(v.as_slice())),
        None => None,
    }
}

impl EnvTable {
    /// The variables in the order of their keys.
    pub closed spec fn ordered(self) -> Seq<(Seq<u8>, Option<Seq<u8>>)> {
        entries(self.vars@)
    }

    #[verifier::type_invariant]
    spec fn keys_rise(self) -> bool {
        sorted(entries(self.vars@))
    }

    /// No variables.
    pub fn new() -> (t: EnvTable)
        ensures
            t@ == Map::<Seq<u8>, Option<Seq<u8>>>::empty(),
    {
        let vars: Vec<EnvVar> = Vec::new();
        assert(entries(vars@) == Seq::<(Seq<u8>, Option<Seq<u8>>)>::empty());
        EnvTable { vars }
    }

    /// The variables in the order of their keys.
    pub fn vars(&self) -> (vars: &[EnvVar])
        ensures
            entries(vars@) == self.ordered(),
            sorted(self.ordered()),
            table(self.ordered()) == self@,
    {
        proof {
            use_type_invariant(self);
        }
        self.vars.as_slice()
    }

    /// The place of the first variable whose key does not come before `key`.
    fn place(&self, key: &[u8]) -> (at: usize)
        ensures
            at <= self.vars@.len(),
            forall|i: int|
                0 <= i < at ==> before((#[trigger] entries(self.vars@)[i]).0, key@),
            at < self.vars@.len() ==> !before(entries(self.vars@)[at as int].0, key@),
    {
        let mut at: usize = 0;
        while at < self.vars.len() && comes_before(self.vars[at].key.as_slice(), key)
            invariant
                at <= self.vars@.len(),
                forall|i: int|
                    0 <= i < at ==> before((#[trigger] entries(self.vars@)[i]).0, key@),
            decreases self.vars@.len() - at,
        {
            at += 1;
        }
        at
    }

    /// What stands from a place on comes after a key, where the variable there does not
    /// have the key itself.
    proof fn from_place_on(self, key: Seq<u8>, at: int)
        requires
            sorted(entries(self.vars@)),
            0 <= at <= self.vars@.len(),
            at < self.vars@.len() ==> !before(entries(self.vars@)[at].0, key) && entries(
                self.vars@,
            )[at].0 != key,
        ensures
            forall|i: int|
                at <= i < self.vars@.len() ==> before(key, (#[trigger] entries(self.vars@)[i]).0),
    {
        let list = entries(self.vars@);
        assert forall|i: int| at <= i < self.vars@.len() implies before(
            key,
            (#[trigger] list[i]).0,
        ) by {
            before_is_total(key, list[at].0);
            if i > at {
                assert(before(list[at].0, list[i].0));
                before_is_transitive(key, list[at].0, list[i].0);
            }
        }
    }

    /// Gives a key a value, or the wish to be unset.
    pub fn insert(&mut self, key: &[u8], value: Option<Vec<u8>>)
        ensures
            final(self)@ == old(self)@.insert(key@, value_bytes(value)),
    {
        proof {
            use_type_invariant(&*self);
        }
        let at: usize = self.place(key);
        let ghost list = entries(self.vars@);
        let mut vars: Vec<EnvVar> = Vec::new();
        core::mem::swap(&mut vars, &mut self.vars);
        if at < vars.len() && same(vars[at].key.as_slice(), key) {
            let new: EnvVar = EnvVar { key: copy_of(key), value };
            proof {
                update_at(list, at as int, value_bytes(value));
                assert(entries(vars@.update(at as int, new)) == list.update(
                    at as int,
                    (list[at as int].0, value_bytes(value)),
                ));
            }
            vars.set(at, new);
        } else {
            let new: EnvVar = EnvVar { key: copy_of(key), value };
            proof {
                old(self).from_place_on(key@, at as int);
                insert_at(list, at as int, new@);
                assert(entries(vars@.insert(at as int, new)) == list.insert(at as int, new@));
            }
            vars.insert(at, new);
        }
        self.vars = vars;
    }

    /// Takes a key out.
    pub fn remove(&mut self, key: &[u8])
        ensures
            final(self)@ == old(self)@.remove(key@),
    {
        proof {
            use_type_invariant(&*self);
        }
        let at: usize = self.place(key);
        let ghost list = entries(self.vars@);
        let mut vars: Vec<EnvVar> = Vec::new();
        core::mem::swap(&mut vars, &mut self.vars);
        if at < vars.len() && same(vars[at].key.as_slice(), key) {
            proof {
                remove_at(list, at as int);
                assert(entries(vars@.remove(at as int)) == list.remove(at as int));
            }
            let gone: EnvVar = vars.remove(at);
        } else {
            proof {
                old(self).from_place_on(key@, at as int);
                table_has(list, key@);
                if table(list).dom().contains(key@) {
                    let i = choose|i: int| 0 <= i < list.len() && (#[trigger] list[i]).0 == key@;
                    before_is_total(key@, key@);
                }
                assert(table(list) =~= table(list).remove(key@));
            }
        }
        self.vars = vars;
    }
}

/// What a command changes of the environment it is run in.
#[derive(Debug)]
pub struct CommandEnv {
    clear: bool,
    changes: EnvTable,
}

impl CommandEnv {
    /// Whether the command starts from an empty environment.
    pub closed spec fn clears(self) -> bool {
        self.clear
    }

    /// The variables that are changed: set to a value, or unset.
    pub closed spec fn changes(self) -> Map<Seq<u8>, Option<Seq<u8>>> {
        self.changes@
    }

    /// The changes, in the order of their keys.
    pub closed spec fn ordered(self) -> Seq<(Seq<u8>, Option<Seq<u8>>)> {
        self.changes.ordered()
    }

    /// No change.
    pub fn new() -> (e: CommandEnv)
        ensures
            !e.clears(),
            e.changes() == Map::<Seq<u8>, Option<Seq<u8>>>::empty(),
    {
        CommandEnv { clear: false, changes: EnvTable::new() }
    }

    /// Sets a variable.
    pub fn set(&mut self, key: &[u8], value: &[u8])
        ensures
            final(self).clears() == old(self).clears(),
            final(self).changes() == old(self).changes().insert(key@, Some(value@)),
    {
        self.changes.insert(key, Some(copy_of(value)));
    }

    /// Unsets a variable. In an environment that starts empty it is enough not to set it.
    pub fn remove(&mut self, key: &[u8])
        ensures
            final(self).clears() == old(self).clears(),
            final(self).changes() == if old(self).clears() {
                old(self).changes().remove(key@)
            } else {
                old(self).changes().insert(key@, None)
            },
    {
        if self.clear {
            self.changes.remove(key);
        } else {
            self.changes.insert(key, None);
        }
    }

    /// Starts from an empty environment, and forgets the changes made so far.
    pub fn clear(&mut self)
        ensures
            final(self).clears(),
            final(self).changes() == Map::<Seq<u8>, Option<Seq<u8>>>::empty(),
    {
        self.clear = true;
        self.changes = EnvTable::new();
    }

    /// Whether the command starts from an empty environment.
    pub fn does_clear(&self) -> (yes: bool)
        ensures
            yes == self.clears(),
    {
        self.clear
    }

    /// The changes, in the order of their keys.
    pub fn iter(&self) -> (vars: &[EnvVar])
        ensures
            entries(vars@) == self.ordered(),
            sorted(self.ordered()),
            table(self.ordered()) == self.changes(),
    {
        self.changes.vars()
    }

    /// The environment that the command is run in, given the one that is there.
    pub fn capture(&self, current: &[EnvVar]) -> (r: EnvTable)
        ensures
            r@ == captured(
                if self.clears() {
                    Map::empty()
                } else {
                    table(entries(current@))
                },
                self.changes(),
            ),
    {
        let mut r: EnvTable = EnvTable::new();
        if !self.clear {
            let mut i: usize = 0;
            assert(entries(current@).take(0) == Seq::<(Seq<u8>, Option<Seq<u8>>)>::empty());
            while i < current.len()
                invariant
                    i <= current@.len(),
                    r@ == table(entries(current@).take(i as int)),
                decreases current@.len() - i,
            {
                let ghost list = entries(current@);
                assert(list.take(i + 1).drop_last() == list.take(i as int));
                assert(list.take(i + 1).last() == current@[i as int]@);
                r.insert(current[i].key.as_slice(), copy_value(&current[i].value));
                i += 1;
            }
            assert(entries(current@).take(current@.len() as int) == entries(current@));
        }
        let ghost base = r@;
        let vars: &[EnvVar] = self.changes.vars();
        let ghost list = entries(vars@);
        let mut i: usize = 0;
        assert(list.take(0) == Seq::<(Seq<u8>, Option<Seq<u8>>)>::empty());
        assert(r@ =~= captured(base, table(list.take(0))));
        while i < vars.len()
            invariant
                i <= vars@.len(),
                list == entries(vars@),
                r@ == captured(base, table(list.take(i as int))),
            decreases vars@.len() - i,
        {
            let ghost was = r@;
            let ghost part = table(list.take(i as int));
            let key: &[u8] = vars[i].key.as_slice();
            assert(list.take(i + 1).drop_last() == list.take(i as int));
            assert(list.take(i + 1).last() == vars@[i as int]@);
            match &vars[i].value {
                Some(v) => {
                    r.insert(key, Some(copy_of(v.as_slice())));
                },
                None => {
                    r.remove(key);
                },
            }
            assert(r@ =~= captured(base, part.insert(key@, vars@[i as int]@.1)));
            i += 1;
        }
        assert(list.take(vars@.len() as int) == list);
        r
    }
}

/// An environment with changes made to it: what is set has its new value, what is unset
/// is gone, and the rest is as it was.
pub open spec fn captured(
    base: Map<Seq<u8>, Option<Seq<u8>>>,
    changes: Map<Seq<u8>, Option<Seq<u8>>>,
) -> Map<Seq<u8>, Option<Seq<u8>>> {
    Map::new(
        |key: Seq<u8>|
            if changes.dom().contains(key) {
                changes[key] is Some
            } else {
                base.dom().contains(key)
            },
        |key: Seq<u8>|
            if changes.dom().contains(key) {
                changes[key]
            } else {
                base[key]
            },
    )
}

/// Keys are in the order of the first byte in which they differ, and a key comes before
/// whatever goes on behind it.
pub proof fn keys_are_ordered_by_their_first_difference(a: Seq<u8>, b: Seq<u8>, k: int)
    requires
        0 <= k <= a.len(),
        k <= b.len(),
        a.take(k) == b.take(k),
    ensures
        k == a.len() && k < b.len() ==> before(a, b) && !before(b, a),
        k < a.len() && k < b.len() && a[k] < b[k] ==> before(a, b) && !before(b, a),
        k == a.len() && k == b.len() ==> !before(a, b),
    decreases k,
{
    if k > 0 {
        assert(a.take(k)[0] == a[0] && b.take(k)[0] == b[0]);
        assert(a.drop_first().take(k - 1) == a.take(k).drop_first());
        assert(b.drop_first().take(k - 1) == b.take(k).drop_first());
        keys_are_ordered_by_their_first_difference(a.drop_first(), b.drop_first(), k - 1);
    }
}

/// Of a key that occurs in a list the last value counts, and a key that does not occur has
/// none.
pub proof fn the_last_value_counts(
    list: Seq<(Seq<u8>, Option<Seq<u8>>)>,
    i: int,
    key: Seq<u8>,
)
    ensures
        0 <= i < list.len() && list[i].0 == key && (forall|j: int|
            i < j < list.len() ==> (#[trigger] list[j]).0 != key) ==> table(list).dom().contains(
            key,
        ) && table(list)[key] == list[i].1,
        (forall|j: int| 0 <= j < list.len() ==> (#[trigger] list[j]).0 != key) ==> !table(
            list,
        ).dom().contains(key),
    decreases list.len(),
{
    if list.len() > 0 {
        let rest = list.drop_last();
        assert(list[list.len() - 1] == list.last());
        the_last_value_counts(rest, i, key);
        if forall|j: int| 0 <= j < list.len() ==> (#[trigger] list[j]).0 != key {
            assert forall|j: int| 0 <= j < rest.len() implies (#[trigger] rest[j]).0 != key by {
                assert(rest[j] == list[j]);
            }
        }
        if 0 <= i < rest.len() && list[i].0 == key && (forall|j: int|
            i < j < list.len() ==> (#[trigger] list[j]).0 != key) {
            assert(rest[i] == list[i]);
            assert forall|j: int| i < j < rest.len() implies (#[trigger] rest[j]).0 != key by {
                assert(rest[j] == list[j]);
            }
        }
    }
}

/// An environment with changes made to it has, of every variable that is changed, the new
/// value or nothing, and of every other what it had.
pub proof fn changes_touch_only_their_variables(
    base: Map<Seq<u8>, Option<Seq<u8>>>,
    changes: Map<Seq<u8>, Option<Seq<u8>>>,
    key: Seq<u8>,
)
    ensures
        changes.dom().contains(key) && changes[key] is Some ==> captured(
            base,
            changes,
        ).dom().contains(key) && captured(base, changes)[key] == changes[key],
        changes.dom().contains(key) && changes[key] is None ==> !captured(
            base,
            changes,
        ).dom().contains(key),
        !changes.dom().contains(key) ==> (captured(base, changes).dom().contains(key)
            <==> base.dom().contains(key)),
        !changes.dom().contains(key) && base.dom().contains(key) ==> captured(base, changes)[key]
            == base[key],
{
}

/// The changes of a command are listed each once and in the order of their keys, and they are
/// all of them.
pub proof fn changes_are_listed_once_and_in_order(
    e: CommandEnv,
    vars: &[EnvVar],
    current: &[EnvVar],
    all: EnvTable,
)
    requires
        call_ensures(CommandEnv::iter, (&e,), vars),
        call_ensures(CommandEnv::capture, (&e, current), all),
    ensures
        entries(vars@) == e.ordered(),
        forall|i: int, j: int|
            0 <= i < j < e.ordered().len() ==> before(
                (#[trigger] e.ordered()[i]).0,
                (#[trigger] e.ordered()[j]).0,
            ),
        table(e.ordered()) == e.changes(),
        forall|i: int|
            0 <= i < vars@.len() ==> #[trigger] entries(vars@)[i] == (
                vars@[i].key@,
                match vars@[i].value {
                    Some(v) => Some(v@),
                    None => None,
                },
            ),
        all@ == captured(
            if e.clears() {
                Map::empty()
            } else {
                table(entries(current@))
            },
            e.changes(),
        ),
{
}

/// Giving a variable a value or taking it out changes what that one key gives, and what every
/// other key gives stays as it was.
pub proof fn a_key_is_changed_alone(
    a: &mut EnvTable,
    b: &mut EnvTable,
    key: &[u8],
    value: Option<Vec<u8>>,
    other: Seq<u8>,
)
    requires
        call_ensures(EnvTable::insert, (a, key, value), ()),
        call_ensures(EnvTable::remove, (b, key), ()),
        other != key@,
    ensures
        final(a)@.dom().contains(key@) && final(a)@[key@] == (match value {
            Some(v) => Some(v@),
            None => None,
        }),
        final(a)@.dom().contains(other) <==> old(a)@.dom().contains(other),
        old(a)@.dom().contains(other) ==> final(a)@[other] == old(a)@[other],
        !final(b)@.dom().contains(key@),
        final(b)@.dom().contains(other) <==> old(b)@.dom().contains(other),
        old(b)@.dom().contains(other) ==> final(b)@[other] == old(b)@[other],
{
}

/// A variable that a command sets has that value; one that it unsets is to be unset, or is just
/// not set where the command starts from nothing; no other variable is touched by either. To
/// start from nothing forgets all changes.
pub proof fn a_command_changes_one_variable_at_a_time(
    s: &mut CommandEnv,
    r: &mut CommandEnv,
    c: &mut CommandEnv,
    key: &[u8],
    value: &[u8],
    other: Seq<u8>,
)
    requires
        call_ensures(CommandEnv::set, (s, key, value), ()),
        call_ensures(CommandEnv::remove, (r, key), ()),
        call_ensures(CommandEnv::clear, (c,), ()),
        other != key@,
    ensures
        final(s).clears() == old(s).clears(),
        final(s).changes().dom().contains(key@) && final(s).changes()[key@] == Some(value@),
        final(s).changes().dom().contains(other) <==> old(s).changes().dom().contains(other),
        old(s).changes().dom().contains(other) ==> final(s).changes()[other]
            == old(s).changes()[other],
        final(r).clears() == old(r).clears(),
        old(r).clears() ==> !final(r).changes().dom().contains(key@),
        !old(r).clears() ==> final(r).changes().dom().contains(key@) && final(r).changes()[key@]
            is None,
        final(r).changes().dom().contains(other) <==> old(r).changes().dom().contains(other),
        old(r).changes().dom().contains(other) ==> final(r).changes()[other]
            == old(r).changes()[other],
        final(c).clears(),
        !final(c).changes().dom().contains(other),
        forall|new: CommandEnv| #[trigger]
            call_ensures(CommandEnv::new, (), new) ==> !new.clears() && new.changes() == Map::<
                Seq<u8>,
                Option<Seq<u8>>,
            >::empty(),
        forall|new: EnvTable| #[trigger]
            call_ensures(EnvTable::new, (), new) ==> new@ == Map::<
                Seq<u8>,
                Option<Seq<u8>>,
            >::empty(),
        forall|e: CommandEnv, yes: bool| #[trigger]
            call_ensures(CommandEnv::does_clear, (&e,), yes) ==> yes == e.clears(),
{
}

} // verus!
