//! Paths: what separates their components, and what makes one absolute.
//!
//! Separators and components are those of unix, but a path is rooted at a named volume
//! or assign (`SYS:C/List`, `PIPE:name`) and not at one global root.
use vstd::prelude::*;

use crate::text::{
    append_range, copy_of, first, first_is, first_is_first, position,
};

verus! {

/// The separator between components.
pub const SLASH: u8 = 0x2f;

/// What ends the name of a volume.
pub const COLON: u8 = 0x3a;

/// What stands for "here" as a component, and, doubled, for "up".
pub const DOT: u8 = 0x2e;

/// Whether a byte separates components.
pub fn is_sep_byte(b: u8) -> (yes: bool)
    ensures
        yes == (b == SLASH),
{
    b == SLASH
}

/// Whether a byte separates components of a verbatim path: the same bytes do.
pub fn is_verbatim_sep(b: u8) -> (yes: bool)
    ensures
        yes == (b == SLASH),
{
    is_sep_byte(b)
}

/// Paths have no prefix of a fixed kind.
pub const HAS_PREFIXES: bool = false;

/// A prefix of a fixed kind. A volume is not one: its name has any length.
#[derive(Clone, Copy, PartialEq, Eq, Debug)]
pub enum Prefix {
    /// A disk that one letter names.
    Disk(u8),
}

/// The prefix of a path: never one, a volume is found by [`volume_len`].
pub fn parse_prefix(path: &[u8]) -> (prefix: Option<Prefix>)
    ensures
        prefix is None,
{
    None
}

// ------------------------------------------------------------------------------------
// Components
// ------------------------------------------------------------------------------------

/// The components of a path, the empty ones among them.
pub open spec fn split(path: Seq<u8>) -> Seq<Seq<u8>>
    decreases path.len(),
    via split_decreases
{
    let at = first(path, SLASH);
    if at >= path.len() {
        seq![path]
    } else {
        seq![path.take(at)] + split(path.skip(at + 1))
    }
}

#[via_fn]
proof fn split_decreases(path: Seq<u8>) {
    first_is_first(path, SLASH);
}

/// Components with separators between them.
pub open spec fn join(parts: Seq<Seq<u8>>) -> Seq<u8>
    decreases parts.len(),
{
    if parts.len() == 0 {
        Seq::empty()
    } else if parts.len() == 1 {
        parts[0]
    } else {
        parts[0].push(SLASH) + join(parts.drop_first())
    }
}

/// A component that stays at the directory reached so far.
pub open spec fn stays(part: Seq<u8>) -> bool {
    part.len() == 0 || part == seq![DOT]
}

/// A component that goes up to the parent.
pub open spec fn goes_up(part: Seq<u8>) -> bool {
    part == seq![DOT, DOT]
}

/// One move from a directory to another.
pub enum Move {
    /// To the parent.
    Up,
    /// To the entry of that name.
    Down(Seq<u8>),
}

/// The moves that components ask for.
pub open spec fn moves(parts: Seq<Seq<u8>>) -> Seq<Move>
    decreases parts.len(),
{
    if parts.len() == 0 {
        Seq::empty()
    } else if stays(parts[0]) {
        moves(parts.drop_first())
    } else if goes_up(parts[0]) {
        seq![Move::Up] + moves(parts.drop_first())
    } else {
        seq![Move::Down(parts[0])] + moves(parts.drop_first())
    }
}

/// The moves that a path without a root asks for.
pub open spec fn walk(path: Seq<u8>) -> Seq<Move> {
    moves(split(path))
}

/// A path has at least one component, and no component holds a separator.
pub proof fn split_has_no_slash(path: Seq<u8>)
    ensures
        split(path).len() >= 1,
        forall|i: int| 0 <= i < split(path).len() ==> !(#[trigger] split(path)[i]).contains(SLASH),
    decreases path.len(),
{
    first_is_first(path, SLASH);
    let at = first(path, SLASH);
    if at < path.len() {
        split_has_no_slash(path.skip(at + 1));
        assert forall|i: int| 0 <= i < split(path).len() implies !(#[trigger] split(
            path,
        )[i]).contains(SLASH) by {
            if i > 0 {
                assert(split(path)[i] == split(path.skip(at + 1))[i - 1]);
            }
        }
    }
}

/// Joining the components of a path gives the path back.
pub proof fn join_split(path: Seq<u8>)
    ensures
        join(split(path)) == path,
    decreases path.len(),
{
    first_is_first(path, SLASH);
    let at = first(path, SLASH);
    if at < path.len() {
        let rest = path.skip(at + 1);
        join_split(rest);
        split_has_no_slash(rest);
        assert(split(path).drop_first() == split(rest));
        assert(path == path.take(at).push(SLASH) + rest);
    }
}

/// Splitting what was joined gives the components back.
pub proof fn split_join(parts: Seq<Seq<u8>>)
    requires
        parts.len() >= 1,
        forall|i: int| 0 <= i < parts.len() ==> !(#[trigger] parts[i]).contains(SLASH),
    ensures
        split(join(parts)) == parts,
    decreases parts.len(),
{
    let path = join(parts);
    if parts.len() == 1 {
        first_is_first(path, SLASH);
        assert(!parts[0].contains(SLASH));
        assert(split(path) == parts);
    } else {
        let rest = parts.drop_first();
        split_join(rest);
        let n = parts[0].len() as int;
        assert(path[n] == SLASH);
        assert forall|i: int| 0 <= i < n implies path[i] != SLASH by {
            assert(path[i] == parts[0][i]);
            assert(!parts[0].contains(SLASH));
        }
        first_is(path, SLASH, n);
        assert(path.take(n) == parts[0]);
        assert(path.skip(n + 1) == join(rest));
        assert(split(path) == parts);
    }
}

/// A component at the end comes behind a separator.
pub proof fn join_push(parts: Seq<Seq<u8>>, last: Seq<u8>)
    ensures
        join(parts.push(last)) == if parts.len() == 0 {
            last
        } else {
            join(parts).push(SLASH) + last
        },
    decreases parts.len(),
{
    if parts.len() > 0 {
        let rest = parts.drop_first();
        join_push(rest, last);
        assert(parts.push(last).drop_first() == rest.push(last));
        if parts.len() == 1 {
            assert(join(parts.push(last)) == parts[0].push(SLASH) + last);
        } else {
            assert(join(parts.push(last)) == join(parts).push(SLASH) + last);
        }
    }
}

/// Moves of components that follow one another.
pub proof fn moves_add(a: Seq<Seq<u8>>, b: Seq<Seq<u8>>)
    ensures
        moves(a + b) == moves(a) + moves(b),
    decreases a.len(),
{
    if a.len() == 0 {
        assert(a + b == b);
        assert(moves(a) + moves(b) == moves(b));
    } else {
        moves_add(a.drop_first(), b);
        assert((a + b).drop_first() == a.drop_first() + b);
        assert(moves(a + b) == moves(a) + moves(b));
    }
}

/// Splitting at a separator splits the components there.
pub proof fn split_at_slash(a: Seq<u8>, b: Seq<u8>)
    ensures
        split(a.push(SLASH) + b) == split(a) + split(b),
    decreases a.len(),
{
    let path = a.push(SLASH) + b;
    first_is_first(a, SLASH);
    let at = first(a, SLASH);
    assert forall|i: int| 0 <= i < at implies path[i] != SLASH by {
        assert(path[i] == a[i]);
    }
    assert(path[at] == SLASH);
    first_is(path, SLASH, at);
    assert(path.take(at) == a.take(at));
    if at < a.len() {
        let rest = a.skip(at + 1);
        split_at_slash(rest, b);
        assert(path.skip(at + 1) == rest.push(SLASH) + b);
        assert(split(path) == split(a) + split(b));
    } else {
        assert(path.skip(at + 1) == b);
        assert(a.take(at) == a);
        assert(split(path) == split(a) + split(b));
    }
}

/// Where components stand between separators does not matter: a path split in two at a
/// separator asks for the moves of the first half, then for those of the second.
pub proof fn walk_at_slash(a: Seq<u8>, b: Seq<u8>)
    ensures
        walk(a.push(SLASH) + b) == walk(a) + walk(b),
{
    split_at_slash(a, b);
    moves_add(split(a), split(b));
}

/// The empty path and the path of one dot ask for no move.
pub proof fn walk_nowhere()
    ensures
        walk(Seq::empty()) == Seq::<Move>::empty(),
        walk(seq![DOT]) == Seq::<Move>::empty(),
{
    reveal_with_fuel(moves, 2);
    let e = Seq::<u8>::empty();
    first_is_first(e, SLASH);
    assert(split(e) == seq![e]);
    assert(moves(seq![e]) == moves(seq![e].drop_first()));
    let d = seq![DOT];
    assert(!d.contains(SLASH));
    first_is_first(d, SLASH);
    assert(split(d) == seq![d]);
    assert(moves(seq![d]) == moves(seq![d].drop_first()));
}

/// Whether a component is the name of an entry: it is not empty, none of `.` and `..`, and
/// holds no separator.
pub open spec fn is_name(part: Seq<u8>) -> bool {
    &&& part.len() > 0
    &&& part != seq![0x2eu8]
    &&& part != seq![0x2eu8, 0x2eu8]
    &&& forall|i: int| 0 <= i < part.len() ==> part[i] != 0x2f
}

/// The name of an entry asks for one move, down to the entry of that very name, and two dots
/// ask for one move up.
pub proof fn a_name_is_one_move(name: Seq<u8>)
    requires
        is_name(name),
    ensures
        walk(name) == seq![Move::Down(name)],
        walk(seq![0x2eu8, 0x2eu8]) == seq![Move::Up],
{
    reveal_with_fuel(moves, 2);
    assert(!name.contains(SLASH));
    first_is_first(name, SLASH);
    assert(split(name) == seq![name]);
    assert(seq![name].drop_first() == Seq::<Seq<u8>>::empty());
    assert(walk(name) == seq![Move::Down(name)]);
    let up = seq![0x2eu8, 0x2eu8];
    assert(!up.contains(SLASH));
    first_is_first(up, SLASH);
    assert(split(up) == seq![up]);
    assert(up != seq![DOT]) by {
        assert(up.len() == 2);
    }
    assert(seq![up].drop_first() == Seq::<Seq<u8>>::empty());
    assert(walk(up) == seq![Move::Up]);
}

/// Names with separators between them ask for one move down each, to those very names in
/// that order.
pub proof fn names_are_moves_down(names: Seq<Seq<u8>>)
    requires
        forall|i: int| 0 <= i < names.len() ==> is_name(#[trigger] names[i]),
    ensures
        walk(join(names)) == names.map_values(|name: Seq<u8>| Move::Down(name)),
    decreases names.len(),
{
    let downs = names.map_values(|name: Seq<u8>| Move::Down(name));
    if names.len() == 0 {
        walk_nowhere();
        assert(walk(join(names)) == downs);
    } else {
        let rest = names.drop_last();
        assert forall|i: int| 0 <= i < rest.len() implies is_name(#[trigger] rest[i]) by {
            assert(rest[i] == names[i]);
        }
        names_are_moves_down(rest);
        assert(is_name(names[names.len() - 1]));
        a_name_is_one_move(names.last());
        join_push(rest, names.last());
        assert(rest.push(names.last()) == names);
        if rest.len() == 0 {
            assert(walk(join(names)) == downs);
        } else {
            walk_at_slash(join(rest), names.last());
            assert(walk(join(names)) == downs);
        }
    }
}

// ------------------------------------------------------------------------------------
// Absolute paths
// ------------------------------------------------------------------------------------

/// The length of a leading `VOLUME:`, where the path starts with one. A volume's name runs
/// to the first colon and holds no separator: `a/b:c` is a file called `b:c`.
pub open spec fn volume(path: Seq<u8>) -> Option<int> {
    let colon = first(path, COLON);
    if colon < path.len() && colon < first(path, SLASH) {
        Some(colon + 1)
    } else {
        None
    }
}

/// Whether a path is rooted, at a volume or at a leading separator.
pub open spec fn absolute_path(path: Seq<u8>) -> bool {
    volume(path) is Some || (path.len() > 0 && path[0] == SLASH)
}

/// The length of a leading `VOLUME:`, where the path starts with one.
pub fn volume_len(path: &[u8]) -> (len: Option<usize>)
    ensures
        match len {
            Some(n) => volume(path@) == Some(n as int),
            None => volume(path@) is None,
        },
{
    let colon: usize = position(path, COLON);
    let slash: usize = position(path, SLASH);
    if colon < path.len() && colon < slash {
        Some(colon + 1)
    } else {
        None
    }
}

/// Whether a path is absolute.
pub fn is_absolute(path: &[u8]) -> (yes: bool)
    ensures
        yes == absolute_path(path@),
{
    volume_len(path).is_some() || (path.len() > 0 && path[0] == SLASH)
}

/// A path below a directory: an absolute one stands for itself, any other goes behind
/// the directory and a separator where the directory does not end in one.
pub open spec fn joined(base: Seq<u8>, path: Seq<u8>) -> Seq<u8> {
    if absolute_path(path) {
        path
    } else {
        with_separator(base) + path
    }
}

/// A directory, ready for a name to be put behind it.
pub open spec fn with_separator(base: Seq<u8>) -> Seq<u8> {
    if base.len() == 0 || base.last() == SLASH {
        base
    } else {
        base.push(SLASH)
    }
}

/// Appends the separator that a name needs before it.
fn push_separator(base: &mut Vec<u8>)
    ensures
        final(base)@ == with_separator(old(base)@),
{
    let n: usize = base.len();
    if n > 0 && base[n - 1] != SLASH {
        base.push(SLASH);
    }
}

/// A path below a directory.
pub fn join_paths(base: &[u8], path: &[u8]) -> (r: Vec<u8>)
    ensures
        r@ == joined(base@, path@),
{
    if is_absolute(path) {
        copy_of(path)
    } else {
        let mut r: Vec<u8> = copy_of(base);
        push_separator(&mut r);
        append_range(&mut r, path, 0, path.len());
        assert(path@.subrange(0, path@.len() as int) == path@);
        r
    }
}

/// A directory with components put behind it one by one, but for those that stay.
pub open spec fn extended(base: Seq<u8>, parts: Seq<Seq<u8>>) -> Seq<u8>
    decreases parts.len(),
{
    if parts.len() == 0 {
        base
    } else if stays(parts[0]) {
        extended(base, parts.drop_first())
    } else {
        extended(with_separator(base) + parts[0], parts.drop_first())
    }
}

/// The absolute path that a path means in a current directory. One that is absolute is
/// left as it is; of any other, the components go behind the current directory, and a
/// separator at its end stays at the end.
pub open spec fn absolute_in(path: Seq<u8>, current: Seq<u8>) -> Seq<u8> {
    if absolute_path(path) {
        path
    } else {
        let whole = extended(current, split(path));
        if path.len() > 0 && path.last() == SLASH {
            with_separator(whole)
        } else {
            whole
        }
    }
}

/// Whether the component between two places stays where it is.
pub fn part_stays(path: &[u8], from: usize, to: usize) -> (yes: bool)
    requires
        from <= to <= path@.len(),
    ensures
        yes == stays(path@.subrange(from as int, to as int)),
{
    let yes: bool = to == from || (to - from == 1 && path[from] == DOT);
    proof {
        let part = path@.subrange(from as int, to as int);
        if yes && to > from {
            assert(part == seq![DOT]);
        }
        if !yes && part == seq![DOT] {
            assert(part.len() == 1 && part[0] == DOT);
        }
    }
    yes
}

/// The end of the component that starts at a place.
pub fn part_end(path: &[u8], from: usize) -> (to: usize)
    requires
        from <= path@.len(),
    ensures
        from <= to <= path@.len(),
        to - from == first(path@.skip(from as int), SLASH),
{
    let mut to: usize = from;
    while to < path.len() && path[to] != SLASH
        invariant
            from <= to <= path@.len(),
            forall|i: int| from <= i < to ==> path@[i] != SLASH,
        decreases path@.len() - to,
    {
        to += 1;
    }
    proof {
        first_is(path@.skip(from as int), SLASH, to - from);
    }
    to
}

/// What the components from a place on are, given where the first of them ends.
pub proof fn split_from(path: Seq<u8>, from: int, to: int)
    requires
        0 <= from <= to <= path.len(),
        to - from == first(path.skip(from), SLASH),
    ensures
        to == path.len() ==> split(path.skip(from)) == seq![path.subrange(from, to)],
        to < path.len() ==> split(path.skip(from)) == seq![path.subrange(from, to)] + split(
            path.skip(to + 1),
        ),
{
    let rest = path.skip(from);
    if to < path.len() {
        assert(rest.take(to - from) == path.subrange(from, to));
        assert(rest.skip(to - from + 1) == path.skip(to + 1));
    } else {
        assert(rest == path.subrange(from, to));
    }
}

/// Makes a path absolute without changing what it means. `current` is the current
/// directory, which is not looked at where the path is absolute.
pub fn absolute_from(path: &[u8], current: &[u8]) -> (r: Vec<u8>)
    ensures
        r@ == absolute_in(path@, current@),
{
    if is_absolute(path) {
        return copy_of(path);
    }
    let mut r: Vec<u8> = copy_of(current);
    let mut from: usize = 0;
    let mut more: bool = true;
    assert(path@.skip(0) == path@);
    while more
        invariant
            from <= path@.len(),
            more ==> extended(r@, split(path@.skip(from as int))) == extended(
                current@,
                split(path@),
            ),
            !more ==> r@ == extended(current@, split(path@)),
        decreases path@.len() - from + (if more { 1int } else { 0 }),
    {
        let to: usize = part_end(path, from);
        let ghost before = r@;
        let ghost part = path@.subrange(from as int, to as int);
        proof {
            split_from(path@, from as int, to as int);
        }
        if !part_stays(path, from, to) {
            push_separator(&mut r);
            append_range(&mut r, path, from, to);
        }
        let ghost parts = split(path@.skip(from as int));
        assert(extended(before, parts) == extended(r@, parts.drop_first()));
        if to < path.len() {
            assert(parts.drop_first() == split(path@.skip(to + 1)));
            from = to + 1;
        } else {
            assert(parts.drop_first() == Seq::<Seq<u8>>::empty());
            from = to;
            more = false;
        }
    }
    let n: usize = path.len();
    if n > 0 && path[n - 1] == SLASH {
        push_separator(&mut r);
    }
    r
}

/// Putting components behind a directory leaves its beginning alone.
proof fn extended_keeps_base(base: Seq<u8>, parts: Seq<Seq<u8>>)
    ensures
        base.len() <= extended(base, parts).len(),
        extended(base, parts).take(base.len() as int) == base,
    decreases parts.len(),
{
    if parts.len() == 0 {
        assert(base.take(base.len() as int) == base);
    } else if stays(parts[0]) {
        extended_keeps_base(base, parts.drop_first());
    } else {
        let longer = with_separator(base) + parts[0];
        extended_keeps_base(longer, parts.drop_first());
        let whole = extended(longer, parts.drop_first());
        assert(longer.take(base.len() as int) == base);
        assert(whole.take(base.len() as int) == whole.take(longer.len() as int).take(
            base.len() as int,
        ));
    }
}

/// A path that begins like an absolute one, through its volume or its root, is absolute.
pub proof fn absolute_by_prefix(base: Seq<u8>, whole: Seq<u8>)
    requires
        absolute_path(base),
        base.len() <= whole.len(),
        whole.take(base.len() as int) == base,
    ensures
        absolute_path(whole),
        volume(base) is Some ==> volume(whole) == volume(base),
{
    assert forall|i: int| 0 <= i < base.len() implies whole[i] == base[i] by {
        assert(whole.take(base.len() as int)[i] == base[i]);
    }
    if volume(base) is Some {
        first_is_first(base, COLON);
        first_is_first(base, SLASH);
        first_is_first(whole, SLASH);
        let colon = first(base, COLON);
        first_is(whole, COLON, colon);
        if first(whole, SLASH) <= colon {
            assert(base[first(whole, SLASH)] == SLASH);
        }
    }
}

/// Making a path absolute gives an absolute path, in any current directory that is one.
pub proof fn absolute_gives_absolute(path: Seq<u8>, current: Seq<u8>)
    requires
        absolute_path(current),
    ensures
        absolute_path(absolute_in(path, current)),
{
    if !absolute_path(path) {
        let whole = extended(current, split(path));
        extended_keeps_base(current, split(path));
        let r = absolute_in(path, current);
        assert(r.take(current.len() as int) == whole.take(current.len() as int));
        absolute_by_prefix(current, r);
    }
}

/// Making a path absolute twice changes nothing the second time.
pub proof fn absolute_is_idempotent(path: Seq<u8>, current: Seq<u8>, other: Seq<u8>)
    requires
        absolute_path(current),
    ensures
        absolute_in(absolute_in(path, current), other) == absolute_in(path, current),
{
    absolute_gives_absolute(path, current);
}

/// A path starts with a volume exactly where a colon comes before every separator, and the
/// volume ends with the first colon. Such a path is absolute, and so is one that starts with
/// a separator, and no other.
pub proof fn a_volume_ends_with_the_first_colon(
    path: &[u8],
    n: int,
    len: Option<usize>,
    yes: bool,
)
    requires
        call_ensures(volume_len, (path,), len),
        call_ensures(is_absolute, (path,), yes),
    ensures
        0 < n <= path@.len() && path@[n - 1] == 0x3a && (forall|i: int|
            0 <= i < n - 1 ==> path@[i] != 0x3a && path@[i] != 0x2f) ==> len == Some(n as usize),
        len matches Some(m) ==> 0 < m <= path@.len() && path@[m - 1] == 0x3a && forall|i: int|
            0 <= i < m - 1 ==> path@[i] != 0x3a && path@[i] != 0x2f,
        yes <==> len is Some || (path@.len() > 0 && path@[0] == 0x2f),
{
    first_is_first(path@, COLON);
    first_is_first(path@, SLASH);
    if 0 < n <= path@.len() && path@[n - 1] == 0x3a && (forall|i: int|
        0 <= i < n - 1 ==> path@[i] != 0x3a && path@[i] != 0x2f) {
        first_is(path@, COLON, n - 1);
        assert(first(path@, SLASH) > n - 1);
    }
}

/// An absolute path below a directory is itself; any other stands whole behind the whole
/// directory, with one separator between them, unless the directory is empty or ends in one.
pub proof fn a_join_keeps_both_halves(base: &[u8], path: &[u8], r: Vec<u8>)
    requires
        call_ensures(join_paths, (base, path), r),
    ensures
        absolute_path(path@) ==> r@ == path@,
        !absolute_path(path@) && (base@.len() == 0 || base@.last() == 0x2f) ==> r@ == base@ + path@,
        !absolute_path(path@) && base@.len() > 0 && base@.last() != 0x2f ==> r@ == base@ + seq![
            0x2fu8,
        ] + path@,
{
    assert(base@.push(SLASH) == base@ + seq![0x2fu8]);
}

proof fn extended_in_two(base: Seq<u8>, a: Seq<Seq<u8>>, b: Seq<Seq<u8>>)
    ensures
        extended(base, a + b) == extended(extended(base, a), b),
    decreases a.len(),
{
    if a.len() == 0 {
        assert(a + b == b);
    } else {
        assert((a + b).drop_first() == a.drop_first() + b);
        if stays(a[0]) {
            extended_in_two(base, a.drop_first(), b);
        } else {
            extended_in_two(with_separator(base) + a[0], a.drop_first(), b);
        }
    }
}

proof fn extended_by_one(base: Seq<u8>, part: Seq<u8>)
    ensures
        extended(base, seq![part]) == if part.len() == 0 || part == seq![0x2eu8] {
            base
        } else {
            with_separator(base) + part
        },
{
    reveal_with_fuel(extended, 2);
    assert(seq![part].drop_first() == Seq::<Seq<u8>>::empty());
}

/// A path of one component that is made absolute stands behind the current directory and a
/// separator; nothing and one dot mean the current directory itself.
pub proof fn one_component_goes_behind_the_directory(part: Seq<u8>, current: Seq<u8>)
    requires
        !absolute_path(part),
        forall|i: int| 0 <= i < part.len() ==> part[i] != 0x2f,
    ensures
        part.len() == 0 || part == seq![0x2eu8] ==> absolute_in(part, current) == current,
        part.len() > 0 && part != seq![0x2eu8] && (current.len() == 0 || current.last() == 0x2f)
            ==> absolute_in(part, current) == current + part,
        part.len() > 0 && part != seq![0x2eu8] && current.len() > 0 && current.last() != 0x2f
            ==> absolute_in(part, current) == current + seq![0x2fu8] + part,
        forall|p: &[u8], c: &[u8], r: Vec<u8>|
            p@ == part && c@ == current && #[trigger] call_ensures(absolute_from, (p, c), r) ==> r@
                == absolute_in(part, current),
{
    assert(!part.contains(SLASH));
    first_is_first(part, SLASH);
    assert(split(part) == seq![part]);
    extended_by_one(current, part);
    assert(current.push(SLASH) == current + seq![0x2fu8]);
    if part.len() > 0 {
        assert(part.last() != 0x2f);
    }
}

/// A relative path that goes on behind a separator is made absolute by making its beginning
/// absolute first and then the rest below that, as far as the rest says anything; a separator
/// at its end stays there, once.
pub proof fn making_absolute_goes_piece_by_piece(a: Seq<u8>, b: Seq<u8>, current: Seq<u8>)
    requires
        !absolute_path(a.push(0x2f) + b),
        !absolute_path(a),
        !absolute_path(b),
        a.len() > 0,
        a.last() != 0x2f,
        current.len() > 0,
    ensures
        b.len() > 0 ==> absolute_in(a.push(0x2f) + b, current) == absolute_in(
            b,
            absolute_in(a, current),
        ),
        absolute_in(a.push(0x2f), current) == if absolute_in(a, current).last() == 0x2f {
            absolute_in(a, current)
        } else {
            absolute_in(a, current).push(0x2f)
        },
        forall|p: &[u8], c: &[u8], r: Vec<u8>|
            c@ == current && #[trigger] call_ensures(absolute_from, (p, c), r) ==> r@
                == absolute_in(p@, current),
{
    let none = Seq::<u8>::empty();
    split_at_slash(a, b);
    extended_in_two(current, split(a), split(b));
    split_at_slash(a, none);
    extended_in_two(current, split(a), split(none));
    first_is_first(none, SLASH);
    assert(split(none) == seq![none]);
    let whole = extended(current, split(a));
    extended_by_one(whole, none);
    extended_keeps_base(current, split(a));
    assert(a.push(0x2f) + none == a.push(0x2f));
    let all = a.push(0x2f) + b;
    if b.len() > 0 {
        assert(all.last() == b.last());
    }
    assert(!absolute_path(a.push(0x2f))) by {
        if absolute_path(a.push(0x2f)) {
            assert(all.take(a.push(0x2f).len() as int) == a.push(0x2f));
            absolute_by_prefix(a.push(0x2f), all);
        }
    }
    assert(a.push(0x2f).last() == 0x2f);
}

/// Making a path absolute that is absolute already changes nothing, whatever the current
/// directory is.
pub proof fn absolute_paths_are_left_alone(path: &[u8], current: &[u8], r: Vec<u8>)
    requires
        call_ensures(absolute_from, (path, current), r),
        path@.len() > 0,
        path@[0] == 0x2f || exists|n: int|
            0 <= n < path@.len() && #[trigger] path@[n] == 0x3a && forall|i: int|
                0 <= i < n ==> path@[i] != 0x3a && path@[i] != 0x2f,
    ensures
        r@ == path@,
{
    if path@[0] != 0x2f {
        let n = choose|n: int|
            0 <= n < path@.len() && #[trigger] path@[n] == 0x3a && forall|i: int|
                0 <= i < n ==> path@[i] != 0x3a && path@[i] != 0x2f;
        first_is(path@, COLON, n);
        first_is_first(path@, SLASH);
        assert(first(path@, SLASH) > n);
    }
}

/// What follows a separator does not make a relative path absolute, a colon in it least of all.
proof fn relative_stays_relative(a: Seq<u8>, b: Seq<u8>)
    requires
        !absolute_path(a),
        a.len() > 0,
    ensures
        !absolute_path(a.push(0x2f) + b),
{
    let path = a.push(0x2f) + b;
    assert(path[a.len() as int] == 0x2f);
    assert(path[0] == a[0]);
    first_is_first(path, COLON);
    first_is_first(path, SLASH);
    first_is_first(a, COLON);
    first_is_first(a, SLASH);
    if volume(path) is Some {
        let colon = first(path, COLON);
        assert(colon < a.len());
        assert(a[colon] == COLON);
        assert forall|i: int| 0 <= i < colon implies a[i] != COLON by {
            assert(path[i] == a[i]);
        }
        first_is(a, COLON, colon);
        assert(first(a, SLASH) > colon) by {
            if first(a, SLASH) <= colon {
                assert(path[first(a, SLASH)] == SLASH);
            }
        }
    }
}

/// A relative path is made absolute up to its last separator, and its last component then stands
/// behind that and one separator, whatever it holds, a colon or two dots as well. Separators in a
/// row are one, and a dot between them is none.
pub proof fn the_last_component_goes_behind_the_rest(
    a: Seq<u8>,
    name: Seq<u8>,
    b: Seq<u8>,
    current: Seq<u8>,
)
    requires
        !absolute_path(a),
        a.len() > 0,
        name.len() > 0,
        name != seq![0x2eu8],
        forall|i: int| 0 <= i < name.len() ==> name[i] != 0x2f,
        current.len() > 0,
    ensures
        absolute_in(a.push(0x2f) + name, current) == (if absolute_in(a, current).last() == 0x2f {
            absolute_in(a, current) + name
        } else {
            absolute_in(a, current) + seq![0x2fu8] + name
        }),
        absolute_in(a + seq![0x2fu8, 0x2fu8] + b, current) == absolute_in(
            a + seq![0x2fu8] + b,
            current,
        ),
        b.len() > 0 ==> absolute_in(a + seq![0x2fu8, 0x2eu8, 0x2fu8] + b, current) == absolute_in(
            a + seq![0x2fu8] + b,
            current,
        ),
{
    relative_stays_relative(a, name);
    split_at_slash(a, name);
    extended_in_two(current, split(a), split(name));
    assert(!name.contains(SLASH));
    first_is_first(name, SLASH);
    assert(split(name) == seq![name]);
    let whole = extended(current, split(a));
    extended_by_one(whole, name);
    extended_keeps_base(current, split(a));
    assert((a.push(0x2f) + name).last() == name.last());
    assert(whole.push(SLASH) + name == whole + seq![0x2fu8] + name);
    let none = Seq::<u8>::empty();
    let dot = seq![0x2eu8];
    first_is_first(none, SLASH);
    assert(split(none) == seq![none]);
    assert(!dot.contains(SLASH));
    first_is_first(dot, SLASH);
    assert(split(dot) == seq![dot]);
    extended_by_one(whole, none);
    extended_by_one(whole, dot);
    split_at_slash(a, b);
    extended_in_two(current, split(a), split(b));
    split_at_slash(a, none.push(SLASH) + b);
    split_at_slash(none, b);
    extended_in_two(current, split(a), split(none) + split(b));
    extended_in_two(whole, split(none), split(b));
    split_at_slash(a, dot.push(SLASH) + b);
    split_at_slash(dot, b);
    extended_in_two(current, split(a), split(dot) + split(b));
    extended_in_two(whole, split(dot), split(b));
    let one = a.push(0x2f) + b;
    let two = a.push(0x2f) + (none.push(SLASH) + b);
    let dotted = a.push(0x2f) + (dot.push(SLASH) + b);
    assert(a + seq![0x2fu8] + b == one);
    assert(a + seq![0x2fu8, 0x2fu8] + b == two);
    assert(a + seq![0x2fu8, 0x2eu8, 0x2fu8] + b == dotted);
    relative_stays_relative(a, b);
    relative_stays_relative(a, none.push(SLASH) + b);
    relative_stays_relative(a, dot.push(SLASH) + b);
    assert(two.last() == one.last());
    assert(b.len() > 0 ==> dotted.last() == one.last());
}

/// Only a slash separates components, there are no prefixes of a fixed kind, and none is found.
pub proof fn only_a_slash_separates(b: u8, path: &[u8])
    ensures
        forall|yes: bool| #[trigger] call_ensures(is_sep_byte, (b,), yes) ==> (yes <==> b == 0x2f),
        forall|yes: bool| #[trigger]
            call_ensures(is_verbatim_sep, (b,), yes) ==> (yes <==> b == 0x2f),
        forall|prefix: Option<Prefix>| #[trigger]
            call_ensures(parse_prefix, (path,), prefix) ==> prefix is None,
        !HAS_PREFIXES,
{
}

} // verus!
