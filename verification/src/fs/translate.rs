//! From the paths that callers write to the paths that AROS reads.
//!
//! Callers join components the unix way. AROS reads the result differently: a separator
//! straight after the colon of a volume means the parent of its root, an empty component
//! means one step up, and dots mean nothing.
use vstd::prelude::*;

use crate::error::{Error, ErrorKind};
use crate::path::{
    a_name_is_one_move, goes_up, is_name, join, join_push, moves, names_are_moves_down, part_end, split, split_from, split_has_no_slash, split_join,
    stays, walk, walk_at_slash, walk_nowhere, Move, COLON, DOT, SLASH,
};
use crate::text::{
    append_range, copy_range, first, first_is, first_is_first, nul_free, nul_free_means_no_zero,
    position, CString,
};

verus! {

/// A move the way AROS spells it as a component: a step up is an empty one.
pub open spec fn part_of(m: Move) -> Seq<u8> {
    match m {
        Move::Up => Seq::empty(),
        Move::Down(name) => name,
    }
}

/// Moves the way AROS spells them as components.
pub open spec fn parts_of(moves: Seq<Move>) -> Seq<Seq<u8>> {
    moves.map_values(|m: Move| part_of(m))
}

/// Whether there are moves and all of them go up.
pub open spec fn only_up(moves: Seq<Move>) -> bool {
    moves.len() > 0 && forall|i: int| 0 <= i < moves.len() ==> moves[i] is Up
}

/// Moves the way AROS spells them as a path. Components that all are empty need one more
/// separator than there is between them, since a step up is a separator.
pub open spec fn spelled(moves: Seq<Move>) -> Seq<u8> {
    if only_up(moves) {
        join(parts_of(moves)).push(SLASH)
    } else {
        join(parts_of(moves))
    }
}

/// The device that a path names: everything through its first colon.
pub open spec fn device(path: Seq<u8>) -> Seq<u8> {
    let colon = first(path, COLON);
    if colon < path.len() {
        path.take(colon + 1)
    } else {
        Seq::empty()
    }
}

/// What follows the device.
pub open spec fn beyond_device(path: Seq<u8>) -> Seq<u8> {
    path.skip(device(path).len() as int)
}

/// Whether a path without a device starts with a separator, which AROS reads as "up".
pub open spec fn leading_slash(path: Seq<u8>) -> bool {
    device(path).len() == 0 && path.len() > 0 && path[0] == SLASH
}

/// The separator at the start that a path keeps.
pub open spec fn lead(path: Seq<u8>) -> Seq<u8> {
    if leading_slash(path) {
        seq![SLASH]
    } else {
        Seq::empty()
    }
}

/// A path the way AROS reads it: the device untouched, the leading separator of a path
/// without one, and the moves that the rest asks for.
pub open spec fn translated(path: Seq<u8>) -> Seq<u8> {
    device(path) + lead(path) + spelled(walk(beyond_device(path)))
}

/// The moves that AROS makes for what follows a device: every component that is empty
/// goes up, but of separators alone there is one component more than there are steps.
pub open spec fn aros_walk(path: Seq<u8>) -> Seq<Move> {
    let parts = split(path);
    if forall|i: int| 0 <= i < parts.len() ==> (#[trigger] parts[i]).len() == 0 {
        Seq::new((parts.len() - 1) as nat, |i: int| Move::Up)
    } else {
        parts.map_values(
            |part: Seq<u8>|
                if part.len() == 0 {
                    Move::Up
                } else {
                    Move::Down(part)
                },
        )
    }
}

/// Whether every name can stand between separators.
spec fn spellable(moves: Seq<Move>) -> bool {
    forall|i: int|
        0 <= i < moves.len() ==> match #[trigger] moves[i] {
            Move::Up => true,
            Move::Down(name) => name.len() > 0 && !name.contains(SLASH),
        }
}

proof fn moves_spellable(parts: Seq<Seq<u8>>)
    requires
        forall|i: int| 0 <= i < parts.len() ==> !(#[trigger] parts[i]).contains(SLASH),
    ensures
        spellable(moves(parts)),
    decreases parts.len(),
{
    if parts.len() > 0 {
        moves_spellable(parts.drop_first());
        let rest = moves(parts.drop_first());
        assert forall|i: int| 0 <= i < moves(parts).len() implies match #[trigger] moves(
            parts,
        )[i] {
            Move::Up => true,
            Move::Down(name) => name.len() > 0 && !name.contains(SLASH),
        } by {
            if !stays(parts[0]) {
                if i == 0 {
                    assert(!parts[0].contains(SLASH));
                } else {
                    assert(moves(parts)[i] == rest[i - 1]);
                }
            } else {
                assert(moves(parts)[i] == rest[i]);
            }
        }
    }
}

proof fn parts_have_no_slash(moves: Seq<Move>)
    requires
        spellable(moves),
    ensures
        forall|i: int|
            0 <= i < parts_of(moves).len() ==> !(#[trigger] parts_of(moves)[i]).contains(SLASH),
{
    assert forall|i: int| 0 <= i < parts_of(moves).len() implies !(#[trigger] parts_of(
        moves,
    )[i]).contains(SLASH) by {
        assert(parts_of(moves)[i] == part_of(moves[i]));
    }
}

/// What AROS reads out of spelled moves, behind any number of leading separators that a
/// path keeps (none or one).
proof fn aros_walk_spelled(up: bool, moves: Seq<Move>)
    requires
        spellable(moves),
    ensures
        aros_walk((if up { seq![SLASH] } else { Seq::empty() }) + spelled(moves)) == (if up {
            seq![Move::Up]
        } else {
            Seq::empty()
        }) + moves,
{
    let head = if up {
        seq![SLASH]
    } else {
        Seq::empty()
    };
    let path = head + spelled(moves);
    let empty = Seq::<u8>::empty();
    parts_have_no_slash(moves);
    let parts = if moves.len() == 0 {
        seq![empty]
    } else if only_up(moves) {
        parts_of(moves).push(empty)
    } else {
        parts_of(moves)
    };
    if only_up(moves) {
        join_push(parts_of(moves), empty);
    }
    assert(spelled(moves) == join(parts));
    let all = if up {
        seq![empty] + parts
    } else {
        parts
    };
    if up {
        assert(all.drop_first() == parts);
        assert(path == join(all));
    } else {
        assert(path == join(all));
    }
    assert forall|i: int| 0 <= i < all.len() implies !(#[trigger] all[i]).contains(SLASH) by {
        if up && i > 0 {
            assert(all[i] == parts[i - 1]);
        }
    }
    split_join(all);
    let wanted = (if up {
        seq![Move::Up]
    } else {
        Seq::empty()
    }) + moves;
    if moves.len() == 0 || only_up(moves) {
        assert forall|i: int| 0 <= i < all.len() implies (#[trigger] all[i]).len() == 0 by {
            let j = if up {
                i - 1
            } else {
                i
            };
            if 0 <= j < moves.len() {
                assert(moves[j] is Up);
            }
        }
        assert(aros_walk(path) == wanted);
    } else {
        let k = choose|k: int| 0 <= k < moves.len() && !(moves[k] is Up);
        let at = if up {
            k + 1
        } else {
            k
        };
        assert(all[at] == part_of(moves[k]));
        assert(all[at].len() > 0);
        assert forall|i: int| 0 <= i < wanted.len() implies aros_walk(path)[i] == wanted[i] by {
            let j = if up {
                i - 1
            } else {
                i
            };
            if 0 <= j < moves.len() {
                assert(all[i] == part_of(moves[j]));
                assert(wanted[i] == moves[j]);
            }
        }
        assert(aros_walk(path) == wanted);
    }
}

/// Translation keeps what a path means: read by AROS, what follows the device makes the
/// moves that the caller's path asks for, after a step up where the path had a leading
/// separator and no device.
pub proof fn translation_keeps_the_walk(path: Seq<u8>)
    ensures
        translated(path).take(device(path).len() as int) == device(path),
        aros_walk(translated(path).skip(device(path).len() as int)) == (if leading_slash(path) {
            seq![Move::Up]
        } else {
            Seq::empty()
        }) + walk(beyond_device(path)),
{
    let w = walk(beyond_device(path));
    split_has_no_slash(beyond_device(path));
    moves_spellable(split(beyond_device(path)));
    aros_walk_spelled(leading_slash(path), w);
    let d = device(path);
    assert(translated(path) == d + (lead(path) + spelled(w)));
    assert(translated(path).skip(d.len() as int) == lead(path) + spelled(w));
    assert(translated(path).take(d.len() as int) == d);
}

/// The device of a path is all of it through its first colon, and nothing where it has none.
pub proof fn the_device_ends_with_the_first_colon(path: Seq<u8>)
    ensures
        path == device(path) + beyond_device(path),
        device(path).len() == 0 <==> forall|i: int| 0 <= i < path.len() ==> path[i] != 0x3a,
        device(path).len() > 0 ==> device(path).last() == 0x3a,
        forall|i: int| 0 <= i < device(path).len() - 1 ==> device(path)[i] != 0x3a,
{
    first_is_first(path, COLON);
    if forall|i: int| 0 <= i < path.len() ==> path[i] != 0x3a {
        first_is(path, COLON, path.len() as int);
    }
}

/// A path that AROS is given is its device, a separator where it starts with one and has no
/// device, and behind them one component for each move: the name that is gone down to, or
/// nothing where it goes up. Moves that only go up are as many separators, and no move is
/// nothing.
pub proof fn every_move_is_one_component(path: Seq<u8>, i: int)
    ensures
        ({
            let moves = walk(beyond_device(path));
            let head = device(path) + (if device(path).len() == 0 && path.len() > 0 && path[0]
                == 0x2f {
                seq![0x2fu8]
            } else {
                Seq::empty()
            });
            let rest = translated(path).skip(head.len() as int);
            &&& translated(path) == head + rest
            &&& moves.len() == 0 ==> rest.len() == 0
            &&& moves.len() > 0 && (forall|k: int| 0 <= k < moves.len() ==> moves[k] is Up)
                ==> rest == Seq::new(moves.len(), |k: int| 0x2fu8)
            &&& (exists|k: int| 0 <= k < moves.len() && moves[k] is Down) ==> split(rest).len()
                == moves.len() && (0 <= i < moves.len() ==> split(rest)[i] == match moves[i] {
                Move::Up => Seq::<u8>::empty(),
                Move::Down(name) => name,
            })
        }),
{
    let w = walk(beyond_device(path));
    let head = device(path) + lead(path);
    let rest = translated(path).skip(head.len() as int);
    assert(translated(path) == head + spelled(w));
    assert(rest == spelled(w));
    split_has_no_slash(beyond_device(path));
    moves_spellable(split(beyond_device(path)));
    parts_have_no_slash(w);
    if w.len() == 0 {
        assert(parts_of(w).len() == 0);
    } else if only_up(w) {
        ups_are_slashes(w);
    } else {
        split_join(parts_of(w));
        if 0 <= i < w.len() {
            assert(parts_of(w)[i] == part_of(w[i]));
        }
    }
}

proof fn ups_are_slashes(moves: Seq<Move>)
    requires
        moves.len() > 0,
        forall|i: int| 0 <= i < moves.len() ==> moves[i] is Up,
    ensures
        spelled(moves) == Seq::new(moves.len(), |i: int| 0x2fu8),
{
    joined_ups(moves);
    assert(spelled(moves) == Seq::new(moves.len(), |i: int| 0x2fu8));
}

proof fn joined_ups(moves: Seq<Move>)
    requires
        moves.len() > 0,
        forall|i: int| 0 <= i < moves.len() ==> moves[i] is Up,
    ensures
        join(parts_of(moves)) == Seq::new((moves.len() - 1) as nat, |i: int| 0x2fu8),
    decreases moves.len(),
{
    assert(parts_of(moves)[0] == part_of(moves[0]));
    if moves.len() > 1 {
        let rest = moves.drop_first();
        assert forall|i: int| 0 <= i < rest.len() implies rest[i] is Up by {
            assert(moves[i + 1] is Up);
        }
        joined_ups(rest);
        assert(parts_of(moves).drop_first() == parts_of(rest));
    }
    assert(join(parts_of(moves)) == Seq::new((moves.len() - 1) as nat, |i: int| 0x2fu8));
}

/// A path that is nothing but names with single separators between them, behind a device, or
/// without one and perhaps behind a leading separator, goes to the system byte for byte as the
/// caller wrote it.
pub proof fn clean_paths_are_left_alone(dev: Seq<u8>, names: Seq<Seq<u8>>)
    requires
        dev.len() > 0 ==> dev.last() == 0x3a && forall|i: int|
            0 <= i < dev.len() - 1 ==> dev[i] != 0x3a,
        forall|i: int| 0 <= i < names.len() ==> is_name(#[trigger] names[i]),
        dev.len() == 0 ==> forall|i: int|
            0 <= i < names.len() ==> !(#[trigger] names[i]).contains(0x3a),
    ensures
        translated(dev + join(names)) == dev + join(names),
        dev.len() == 0 ==> translated(seq![0x2fu8] + join(names)) == seq![0x2fu8] + join(names),
{
    let rest = join(names);
    let path = dev + rest;
    let downs = names.map_values(|name: Seq<u8>| Move::Down(name));
    names_are_moves_down(names);
    assert(parts_of(downs) == names);
    if names.len() > 0 {
        assert(!(downs[0] is Up));
    }
    assert(spelled(downs) == rest);
    if dev.len() > 0 {
        first_is(path, COLON, dev.len() - 1);
        assert(path.take(dev.len() as int) == dev);
        assert(path.skip(dev.len() as int) == rest);
        assert(translated(path) == path);
    } else {
        names_hold_no_colon(names);
        first_is_first(rest, COLON);
        assert(path == rest);
        assert(device(path) == Seq::<u8>::empty());
        assert(beyond_device(path) == path);
        if path.len() > 0 && path[0] == SLASH {
            assert(names.len() > 0);
            assert(is_name(names[0]));
            assert(path[0] == names[0][0]);
        }
        assert(translated(path) == path);
        let slashed = seq![0x2fu8] + rest;
        assert forall|i: int| 0 <= i < slashed.len() implies slashed[i] != COLON by {
            if i > 0 {
                assert(slashed[i] == rest[i - 1]);
                assert(!rest.contains(COLON));
            }
        }
        first_is(slashed, COLON, slashed.len() as int);
        assert(device(slashed) == Seq::<u8>::empty());
        assert(beyond_device(slashed) == slashed);
        walk_at_slash(Seq::empty(), rest);
        walk_nowhere();
        assert(slashed == Seq::<u8>::empty().push(SLASH) + rest);
        assert(walk(slashed) == downs);
        assert(translated(slashed) == slashed);
    }
}

proof fn names_hold_no_colon(names: Seq<Seq<u8>>)
    requires
        forall|i: int| 0 <= i < names.len() ==> !(#[trigger] names[i]).contains(0x3a),
    ensures
        !join(names).contains(0x3a),
{
    in_parts_of_join(names, 0x3a);
}

/// Whoever asks for a file by a clean path gets that very path handed to the system, and only
/// a path with a NUL is refused.
pub proof fn clean_paths_are_handed_over(
    dev: Seq<u8>,
    names: Seq<Seq<u8>>,
    path: &[u8],
    r: Result<CString, Error>,
)
    requires
        dev.len() > 0 ==> dev.last() == 0x3a && forall|i: int|
            0 <= i < dev.len() - 1 ==> dev[i] != 0x3a,
        forall|i: int| 0 <= i < names.len() ==> is_name(#[trigger] names[i]),
        dev.len() == 0 ==> forall|i: int|
            0 <= i < names.len() ==> !(#[trigger] names[i]).contains(0x3a),
        path@ == dev + join(names),
        call_ensures(cstr, (path,), r),
    ensures
        r matches Ok(c) ==> c@ == path@,
        r is Ok <==> forall|i: int| 0 <= i < path@.len() ==> path@[i] != 0,
        r matches Err(e) ==> e == Error::Simple(ErrorKind::InvalidInput),
{
    clean_paths_are_left_alone(dev, names);
    nul_free_means_no_zero(path@);
}

/// What the system is handed for a path, whichever it is, is that path translated, and the
/// path is refused exactly where there is a NUL in it.
pub proof fn paths_are_handed_over_translated(path: &[u8], r: Result<CString, Error>)
    requires
        call_ensures(cstr, (path,), r),
    ensures
        r matches Ok(c) ==> c@ == translated(path@),
        r is Ok <==> forall|i: int| 0 <= i < path@.len() ==> path@[i] != 0,
        r matches Err(e) ==> e == Error::Simple(ErrorKind::InvalidInput),
{
    nul_free_means_no_zero(path@);
}

/// Two dots go up one step from where the path has come to: a name and the two dots behind
/// it stay two components, the second of them empty, and whatever follows comes behind that.
pub proof fn two_dots_are_an_empty_component(dev: Seq<u8>, a: Seq<u8>, b: Seq<u8>)
    requires
        dev.len() > 0,
        dev.last() == 0x3a,
        forall|i: int| 0 <= i < dev.len() - 1 ==> dev[i] != 0x3a,
        is_name(a),
        is_name(b),
    ensures
        translated(dev + seq![0x2eu8, 0x2eu8]) == dev + seq![0x2fu8],
        translated(dev + seq![0x2eu8, 0x2eu8, 0x2fu8] + b) == dev + seq![0x2fu8] + b,
        translated(dev + a + seq![0x2fu8, 0x2eu8, 0x2eu8]) == dev + a + seq![0x2fu8],
        translated(dev + a + seq![0x2fu8, 0x2eu8, 0x2eu8, 0x2fu8] + b) == dev + a + seq![
            0x2fu8,
            0x2fu8,
        ] + b,
{
    let up = seq![0x2eu8, 0x2eu8];
    a_name_is_one_move(a);
    a_name_is_one_move(b);
    behind_device(dev, up);
    ups_are_slashes(seq![Move::Up]);
    assert(Seq::new(1, |i: int| 0x2fu8) == seq![0x2fu8]);
    up_and_down(dev, b);
    down_and_up(dev, a);
    down_up_and_down(dev, a, b);
}

proof fn up_and_down(dev: Seq<u8>, b: Seq<u8>)
    requires
        dev.len() > 0,
        dev.last() == 0x3a,
        forall|i: int| 0 <= i < dev.len() - 1 ==> dev[i] != 0x3a,
        is_name(b),
    ensures
        translated(dev + seq![0x2eu8, 0x2eu8, 0x2fu8] + b) == dev + seq![0x2fu8] + b,
{
    let up = seq![0x2eu8, 0x2eu8];
    let rest = up.push(SLASH) + b;
    let m = seq![Move::Up, Move::Down(b)];
    a_name_is_one_move(b);
    walk_at_slash(up, b);
    assert(walk(rest) == m);
    behind_device(dev, rest);
    assert(dev + seq![0x2eu8, 0x2eu8, 0x2fu8] + b == dev + rest);
    assert(!(m[1] is Up));
    assert(parts_of(m) == seq![Seq::<u8>::empty(), b]);
    join_push(seq![Seq::<u8>::empty()], b);
    assert(seq![Seq::<u8>::empty()].push(b) == parts_of(m));
    assert(dev + spelled(m) == dev + seq![0x2fu8] + b);
}

proof fn down_and_up(dev: Seq<u8>, a: Seq<u8>)
    requires
        dev.len() > 0,
        dev.last() == 0x3a,
        forall|i: int| 0 <= i < dev.len() - 1 ==> dev[i] != 0x3a,
        is_name(a),
    ensures
        translated(dev + a + seq![0x2fu8, 0x2eu8, 0x2eu8]) == dev + a + seq![0x2fu8],
{
    let up = seq![0x2eu8, 0x2eu8];
    let rest = a.push(SLASH) + up;
    let m = seq![Move::Down(a), Move::Up];
    a_name_is_one_move(a);
    walk_at_slash(a, up);
    assert(walk(rest) == m);
    behind_device(dev, rest);
    assert(dev + a + seq![0x2fu8, 0x2eu8, 0x2eu8] == dev + rest);
    assert(!(m[0] is Up));
    assert(parts_of(m) == seq![a, Seq::<u8>::empty()]);
    join_push(seq![a], Seq::empty());
    assert(seq![a].push(Seq::empty()) == parts_of(m));
    assert(dev + spelled(m) == dev + a + seq![0x2fu8]);
}

proof fn down_up_and_down(dev: Seq<u8>, a: Seq<u8>, b: Seq<u8>)
    requires
        dev.len() > 0,
        dev.last() == 0x3a,
        forall|i: int| 0 <= i < dev.len() - 1 ==> dev[i] != 0x3a,
        is_name(a),
        is_name(b),
    ensures
        translated(dev + a + seq![0x2fu8, 0x2eu8, 0x2eu8, 0x2fu8] + b) == dev + a + seq![
            0x2fu8,
            0x2fu8,
        ] + b,
{
    let up = seq![0x2eu8, 0x2eu8];
    let rest = (a.push(SLASH) + up).push(SLASH) + b;
    let m = seq![Move::Down(a), Move::Up, Move::Down(b)];
    a_name_is_one_move(a);
    a_name_is_one_move(b);
    walk_at_slash(a, up);
    walk_at_slash(a.push(SLASH) + up, b);
    assert(walk(rest) == m);
    behind_device(dev, rest);
    assert(dev + a + seq![0x2fu8, 0x2eu8, 0x2eu8, 0x2fu8] + b == dev + rest);
    assert(!(m[0] is Up));
    assert(parts_of(m) == seq![a, Seq::<u8>::empty(), b]);
    join_push(seq![a], Seq::empty());
    join_push(seq![a].push(Seq::empty()), b);
    assert(seq![a].push(Seq::empty()).push(b) == parts_of(m));
    assert(dev + spelled(m) == dev + a + seq![0x2fu8, 0x2fu8] + b);
}

proof fn behind_device(dev: Seq<u8>, rest: Seq<u8>)
    requires
        dev.len() > 0,
        dev.last() == 0x3a,
        forall|i: int| 0 <= i < dev.len() - 1 ==> dev[i] != 0x3a,
    ensures
        translated(dev + rest) == dev + spelled(walk(rest)),
{
    let path = dev + rest;
    first_is(path, COLON, dev.len() - 1);
    assert(path.take(dev.len() as int) == dev);
    assert(path.skip(dev.len() as int) == rest);
    assert(translated(path) == dev + spelled(walk(rest)));
}

/// The device of a path does not depend on what follows it.
proof fn device_of_prefix(prefix: Seq<u8>, rest: Seq<u8>)
    requires
        prefix.contains(COLON),
    ensures
        device(prefix + rest) == device(prefix),
        beyond_device(prefix + rest) == beyond_device(prefix) + rest,
{
    first_is_first(prefix, COLON);
    first_is(prefix + rest, COLON, first(prefix, COLON));
    assert(device(prefix + rest) == device(prefix));
    assert(beyond_device(prefix + rest) == beyond_device(prefix) + rest);
}

/// A separator straight after the colon is the trace of a join and changes nothing:
/// `SYS:/C` is read like `SYS:C`.
pub proof fn slash_after_device_is_dropped(dev: Seq<u8>, rest: Seq<u8>)
    requires
        first(dev, COLON) == dev.len() - 1,
    ensures
        translated(dev.push(SLASH) + rest) == translated(dev + rest),
{
    first_is_first(dev, COLON);
    assert(dev.push(SLASH) + rest == dev + (seq![SLASH] + rest));
    device_of_prefix(dev, rest);
    device_of_prefix(dev, seq![SLASH] + rest);
    assert(beyond_device(dev) + (seq![SLASH] + rest) == Seq::<u8>::empty().push(SLASH) + rest);
    assert(beyond_device(dev) + rest == rest);
    walk_at_slash(Seq::empty(), rest);
    walk_nowhere();
    assert(walk(beyond_device(dev.push(SLASH) + rest)) == walk(rest));
}

/// What lies between two halves of a path that are joined by separators.
proof fn device_of_halves(a: Seq<u8>, middle: Seq<u8>, b: Seq<u8>)
    requires
        a.contains(COLON) || !b.contains(COLON),
        !middle.contains(COLON),
        middle.len() > 0,
        middle[0] == SLASH,
    ensures
        device(a + middle + b) == device(a),
        beyond_device(a + middle + b) == beyond_device(a) + middle + b,
        leading_slash(a + middle + b) == (device(a).len() == 0 && (a.len() == 0 || a[0] == SLASH)),
{
    let path = a + middle + b;
    assert(path == a + (middle + b));
    first_is_first(a, COLON);
    if a.contains(COLON) {
        device_of_prefix(a, middle + b);
    } else {
        assert forall|i: int| 0 <= i < path.len() implies path[i] != COLON by {
            if i < a.len() {
                assert(path[i] == a[i]);
            } else if i < a.len() + middle.len() {
                assert(path[i] == middle[i - a.len()]);
            } else {
                assert(path[i] == b[i - a.len() - middle.len()]);
            }
        }
        first_is(path, COLON, path.len() as int);
    }
    assert(beyond_device(path) == beyond_device(a) + middle + b);
}

/// Separators in a row and components of one dot are noise that joins leave behind:
/// wherever a separator may stand, `//` and `/./` are read like it.
pub proof fn noise_vanishes(a: Seq<u8>, b: Seq<u8>)
    requires
        a.contains(COLON) || !b.contains(COLON),
    ensures
        translated(a + seq![SLASH, SLASH] + b) == translated(a + seq![SLASH] + b),
        translated(a + seq![SLASH, DOT, SLASH] + b) == translated(a + seq![SLASH] + b),
{
    let one = seq![SLASH];
    let two = seq![SLASH, SLASH];
    let dot = seq![SLASH, DOT, SLASH];
    device_of_halves(a, one, b);
    device_of_halves(a, two, b);
    device_of_halves(a, dot, b);
    let x = beyond_device(a);
    let none = Seq::<u8>::empty();
    walk_nowhere();
    walk_at_slash(x, b);
    assert(x + one + b == x.push(SLASH) + b);
    walk_at_slash(x, none.push(SLASH) + b);
    walk_at_slash(none, b);
    assert(x + two + b == x.push(SLASH) + (none.push(SLASH) + b));
    walk_at_slash(x, seq![DOT].push(SLASH) + b);
    walk_at_slash(seq![DOT], b);
    assert(x + dot + b == x.push(SLASH) + (seq![DOT].push(SLASH) + b));
    assert(walk(x + one + b) == walk(x + two + b));
    assert(walk(x + one + b) == walk(x + dot + b));
}

/// A separator at the end of a path is noise too: `SYS:C/` is read like `SYS:C`, where
/// AROS would otherwise take it for the parent of `C`.
pub proof fn trailing_slash_is_dropped(a: Seq<u8>)
    requires
        a.len() > 0,
    ensures
        translated(a.push(SLASH)) == translated(a),
{
    let none = Seq::<u8>::empty();
    assert(a.push(SLASH) == a + seq![SLASH] + none);
    device_of_halves(a, seq![SLASH], none);
    walk_at_slash(beyond_device(a), none);
    walk_nowhere();
    assert(beyond_device(a) + seq![SLASH] + none == beyond_device(a).push(SLASH) + none);
    assert(walk(beyond_device(a.push(SLASH))) == walk(beyond_device(a)));
}

/// Whether some byte is in some component.
spec fn in_parts(parts: Seq<Seq<u8>>, b: u8) -> bool {
    exists|i: int| 0 <= i < parts.len() && (#[trigger] parts[i]).contains(b)
}

proof fn in_parts_of_join(parts: Seq<Seq<u8>>, b: u8)
    requires
        b != SLASH,
    ensures
        join(parts).contains(b) == in_parts(parts, b),
    decreases parts.len(),
{
    if parts.len() == 1 {
        assert(in_parts(parts, b) == parts[0].contains(b));
    } else if parts.len() > 1 {
        let rest = parts.drop_first();
        in_parts_of_join(rest, b);
        let path = join(parts);
        if path.contains(b) {
            let k = choose|k: int| 0 <= k < path.len() && path[k] == b;
            if k < parts[0].len() {
                assert(parts[0][k] == b);
                assert(parts[0].contains(b));
            } else {
                assert(path[k] == join(rest)[k - parts[0].len() - 1]);
                assert(join(rest).contains(b));
                let i = choose|i: int| 0 <= i < rest.len() && (#[trigger] rest[i]).contains(b);
                assert(parts[i + 1] == rest[i]);
            }
        }
        if in_parts(parts, b) {
            let i = choose|i: int| 0 <= i < parts.len() && (#[trigger] parts[i]).contains(b);
            if i == 0 {
                let k = choose|k: int| 0 <= k < parts[0].len() && parts[0][k] == b;
                assert(path[k] == b);
            } else {
                assert(rest[i - 1] == parts[i]);
                let k = choose|k: int| 0 <= k < join(rest).len() && join(rest)[k] == b;
                assert(path[k + parts[0].len() + 1] == b);
            }
        }
    }
}

proof fn in_parts_of_moves(parts: Seq<Seq<u8>>, b: u8)
    requires
        b != DOT,
    ensures
        in_parts(parts_of(moves(parts)), b) == in_parts(parts, b),
    decreases parts.len(),
{
    let kept = parts_of(moves(parts));
    if parts.len() == 0 {
        assert(kept.len() == 0);
    } else {
        let rest = parts.drop_first();
        in_parts_of_moves(rest, b);
        let kept_rest = parts_of(moves(rest));
        if stays(parts[0]) || goes_up(parts[0]) {
            assert(!parts[0].contains(b));
        }
        if in_parts(parts, b) {
            let i = choose|i: int| 0 <= i < parts.len() && (#[trigger] parts[i]).contains(b);
            if i == 0 {
                assert(kept[0] == parts[0]);
            } else {
                assert(rest[i - 1] == parts[i]);
                let j = choose|j: int|
                    0 <= j < kept_rest.len() && (#[trigger] kept_rest[j]).contains(b);
                if stays(parts[0]) {
                    assert(kept[j] == kept_rest[j]);
                } else {
                    assert(kept[j + 1] == kept_rest[j]);
                }
            }
        }
        if in_parts(kept, b) {
            let j = choose|j: int| 0 <= j < kept.len() && (#[trigger] kept[j]).contains(b);
            if stays(parts[0]) {
                assert(kept_rest[j] == kept[j]);
            } else if j == 0 {
                assert(kept[0] == part_of(moves(parts)[0]));
                assert(parts[0].contains(b));
            } else {
                assert(kept_rest[j - 1] == kept[j]);
            }
            if !(j == 0 && !stays(parts[0])) {
                assert(in_parts(rest, b));
                let i = choose|i: int| 0 <= i < rest.len() && (#[trigger] rest[i]).contains(b);
                assert(parts[i + 1] == rest[i]);
            }
        }
    }
}

/// Translation neither brings a NUL in nor loses one, so a path is refused exactly where
/// the caller's own path holds a NUL.
pub proof fn translation_keeps_nul(path: Seq<u8>)
    ensures
        nul_free(translated(path)) == nul_free(path),
{
    let d = device(path);
    let b = beyond_device(path);
    let w = walk(b);
    let s = spelled(w);
    let t = translated(path);
    first_is_first(path, COLON);
    crate::path::join_split(b);
    in_parts_of_join(split(b), 0);
    in_parts_of_moves(split(b), 0);
    in_parts_of_join(parts_of(w), 0);
    assert(join(parts_of(w)).contains(0) == b.contains(0));
    assert(s.contains(0) == b.contains(0)) by {
        let j = join(parts_of(w));
        if s.contains(0) {
            let k = choose|k: int| 0 <= k < s.len() && s[k] == 0;
            assert(j[k] == 0);
        }
        if j.contains(0) {
            let k = choose|k: int| 0 <= k < j.len() && j[k] == 0;
            assert(s[k] == 0);
        }
    }
    assert(path == d + b);
    let h = d.len() + lead(path).len();
    if t.contains(0) {
        let k = choose|k: int| 0 <= k < t.len() && t[k] == 0;
        if k < d.len() {
            assert(path[k] == 0);
        } else {
            assert(k >= h);
            assert(s[k - h] == 0);
            let i = choose|i: int| 0 <= i < b.len() && b[i] == 0;
            assert(path[d.len() + i] == 0);
        }
    }
    if path.contains(0) {
        let k = choose|k: int| 0 <= k < path.len() && path[k] == 0;
        if k < d.len() {
            assert(t[k] == 0);
        } else {
            assert(b[k - d.len()] == 0);
            let i = choose|i: int| 0 <= i < s.len() && s[i] == 0;
            assert(t[h + i] == 0);
        }
    }
}

/// Whether the component between two places goes up.
fn part_goes_up(path: &[u8], from: usize, to: usize) -> (yes: bool)
    requires
        from <= to <= path@.len(),
    ensures
        yes == goes_up(path@.subrange(from as int, to as int)),
{
    let yes: bool = to - from == 2 && path[from] == DOT && path[from + 1] == DOT;
    proof {
        let part = path@.subrange(from as int, to as int);
        if yes {
            assert(part == seq![DOT, DOT]);
        }
        if part == seq![DOT, DOT] {
            assert(part.len() == 2 && part[0] == DOT && part[1] == DOT);
        }
    }
    yes
}

/// A path the way AROS reads it.
fn translate(path: &[u8]) -> (out: Vec<u8>)
    ensures
        out@ == translated(path@),
{
    let n: usize = path.len();
    let colon: usize = position(path, COLON);
    let start: usize = if colon < n {
        colon + 1
    } else {
        0
    };
    let mut out: Vec<u8> = copy_range(path, 0, start);
    assert(out@ == device(path@));
    if start == 0 && n > 0 && path[0] == SLASH {
        out.push(SLASH);
    }
    assert(out@ == device(path@) + lead(path@));
    let ghost head = out@;
    let ghost done: Seq<Move> = Seq::empty();
    let mut from: usize = start;
    let mut more: bool = true;
    let mut none_yet: bool = true;
    let mut all_up: bool = true;
    let ghost all = walk(path@.skip(start as int));
    assert(done + moves(split(path@.skip(from as int))) == all);
    while more
        invariant
            from <= n,
            n == path@.len(),
            more ==> done + moves(split(path@.skip(from as int))) == all,
            !more ==> done == all,
            none_yet == (done.len() == 0),
            all_up == (forall|i: int| 0 <= i < done.len() ==> done[i] is Up),
            out@ == head + join(parts_of(done)),
        decreases n - from + (if more { 1int } else { 0 }),
    {
        let to: usize = part_end(path, from);
        let ghost part = path@.subrange(from as int, to as int);
        let ghost parts = split(path@.skip(from as int));
        let ghost before = done;
        proof {
            split_from(path@, from as int, to as int);
            assert(parts[0] == part);
        }
        if !crate::path::part_stays(path, from, to) {
            let ghost m = if goes_up(part) {
                Move::Up
            } else {
                Move::Down(part)
            };
            proof {
                join_push(parts_of(before), part_of(m));
                assert(parts_of(before.push(m)) == parts_of(before).push(part_of(m)));
                done = before.push(m);
            }
            if !none_yet {
                out.push(SLASH);
            }
            if !part_goes_up(path, from, to) {
                append_range(&mut out, path, from, to);
                all_up = false;
                assert(!(done[before.len() as int] is Up));
            } else {
                assert(forall|i: int| 0 <= i < before.len() ==> done[i] == before[i]);
                assert(all_up == (forall|i: int| 0 <= i < done.len() ==> done[i] is Up)) by {
                    if all_up {
                        assert forall|i: int| 0 <= i < done.len() implies done[i] is Up by {
                            if i < before.len() {
                                assert(before[i] is Up);
                            }
                        }
                    } else {
                        let k = choose|k: int| 0 <= k < before.len() && !(before[k] is Up);
                        assert(!(done[k] is Up));
                    }
                }
            }
            none_yet = false;
            assert(out@ == head + join(parts_of(done)));
            assert(before + moves(parts) == done + moves(parts.drop_first()));
        } else {
            assert(moves(parts) == moves(parts.drop_first()));
        }
        if to < n {
            assert(parts.drop_first() == split(path@.skip(to + 1)));
            from = to + 1;
        } else {
            assert(parts.drop_first() == Seq::<Seq<u8>>::empty());
            assert(done == all);
            from = to;
            more = false;
        }
    }
    if !none_yet && all_up {
        out.push(SLASH);
    }
    assert(only_up(done) == (!none_yet && all_up));
    assert(out@ == translated(path@));
    out
}

/// Hands a path over to the system the way AROS reads it, or refuses one with a NUL.
pub fn cstr(path: &[u8]) -> (r: Result<CString, Error>)
    ensures
        match r {
            Ok(c) => nul_free(path@) && c@ == translated(path@),
            Err(e) => !nul_free(path@) && e == Error::Simple(ErrorKind::InvalidInput),
        },
{
    let out: Vec<u8> = translate(path);
    proof {
        translation_keeps_nul(path@);
    }
    match CString::new(out) {
        Some(c) => Ok(c),
        None => Err(Error::Simple(ErrorKind::InvalidInput)),
    }
}

} // verus!
