//! Characters, digits, and the byte strings that C code reads up to a NUL.
use vstd::prelude::*;
use vstd::utf8::{decode_utf8, valid_utf8};

use crate::error::{Error, ErrorKind};

verus! {

/// `String::push` puts one character behind those that are there.
pub assume_specification[ String::push ](s: &mut String, c: char)
    ensures
        final(s)@ == old(s)@.push(c),
;

/// The characters that `String::from_utf8_lossy` gives for some bytes.
pub uninterp spec fn lossy(bytes: Seq<u8>) -> Seq<char>;

/// Calls `String::from_utf8_lossy` and takes the text over. The result is a function of
/// the bytes; bytes that are UTF-8 throughout come out as the text they encode. How
/// many replacement characters stand for bytes that are not UTF-8 is not stated.
#[verifier::external_body]
pub(crate) fn to_string_lossy(bytes: &[u8]) -> (text: String)
    ensures
        text@ == lossy(bytes@),
        valid_utf8(bytes@) ==> text@ == decode_utf8(bytes@),
{
    String::from_utf8_lossy(bytes).into_owned()
}

/// The character of a decimal digit.
pub open spec fn digit(d: nat) -> char {
    (0x30 + d) as char
}

/// A number in decimal, without leading zeros.
pub open spec fn digits(n: nat) -> Seq<char>
    decreases n,
{
    if n < 10 {
        seq![digit(n)]
    } else {
        digits(n / 10).push(digit(n % 10))
    }
}

/// A number in decimal, with a sign where it is negative.
pub open spec fn decimal(n: int) -> Seq<char> {
    if n < 0 {
        seq!['-'] + digits((-n) as nat)
    } else {
        digits(n as nat)
    }
}

/// The character of a decimal digit.
fn digit_char(d: u64) -> (c: char)
    requires
        d < 10,
    ensures
        c == digit(d as nat),
{
    match d {
        0 => '0',
        1 => '1',
        2 => '2',
        3 => '3',
        4 => '4',
        5 => '5',
        6 => '6',
        7 => '7',
        8 => '8',
        _ => '9',
    }
}

/// Appends a number in decimal.
fn push_digits(out: &mut String, n: u64)
    ensures
        final(out)@ == old(out)@ + digits(n as nat),
    decreases n,
{
    if n >= 10 {
        push_digits(out, n / 10);
    }
    out.push(digit_char(n % 10));
}

/// Appends a number in decimal, with a sign where it is negative.
pub fn push_decimal(out: &mut String, n: i64)
    ensures
        final(out)@ == old(out)@ + decimal(n as int),
{
    if n < 0 {
        out.push('-');
        let magnitude: u64 = (-(n + 1)) as u64 + 1;
        push_digits(out, magnitude);
        assert(out@ == old(out)@ + decimal(n as int));
    } else {
        push_digits(out, n as u64);
    }
}

/// Different numbers have different decimals.
pub proof fn digits_are_unique(a: nat, b: nat)
    ensures
        digits(a) == digits(b) ==> a == b,
    decreases a,
{
    if digits(a) == digits(b) {
        assert(digits(a).last() == digit(a % 10));
        assert(digits(b).last() == digit(b % 10));
        digits_not_empty(a / 10);
        digits_not_empty(b / 10);
        if a < 10 {
            if b >= 10 {
                assert(digits(b).len() > 1);
            }
        } else {
            if b < 10 {
                assert(digits(a).len() > 1);
            }
            assert(digits(a).drop_last() == digits(a / 10));
            assert(digits(b).drop_last() == digits(b / 10));
            digits_are_unique(a / 10, b / 10);
        }
    }
}

/// A number has at least one digit.
proof fn digits_not_empty(n: nat)
    ensures
        digits(n).len() > 0,
{
}

/// Whether some bytes hold no NUL, so that C code reads all of them.
pub open spec fn nul_free(bytes: Seq<u8>) -> bool {
    !bytes.contains(0u8)
}

/// Bytes for C code to read, up to a NUL that is not among them.
#[derive(PartialEq, Eq, Debug)]
pub struct CString {
    bytes: Vec<u8>,
}

impl View for CString {
    type V = Seq<u8>;

    closed spec fn view(&self) -> Seq<u8> {
        self.bytes@
    }
}

impl CString {
    #[verifier::type_invariant]
    spec fn holds_no_nul(self) -> bool {
        nul_free(self.bytes@)
    }

    /// Takes bytes over, unless there is a NUL among them.
    pub fn new(bytes: Vec<u8>) -> (r: Option<CString>)
        ensures
            match r {
                Some(c) => nul_free(bytes@) && c@ == bytes@,
                None => !nul_free(bytes@),
            },
    {
        if contains(bytes.as_slice(), 0) {
            None
        } else {
            Some(CString { bytes })
        }
    }

    /// The bytes, none of which is NUL.
    pub fn as_bytes(&self) -> (bytes: &[u8])
        ensures
            bytes@ == self@,
            nul_free(bytes@),
    {
        proof {
            use_type_invariant(self);
        }
        self.bytes.as_slice()
    }
}

impl CString {
    /// Another of the same bytes.
    pub fn duplicate(&self) -> (copy: CString)
        ensures
            copy@ == self@,
    {
        proof {
            use_type_invariant(self);
        }
        CString { bytes: copy_of(self.bytes.as_slice()) }
    }
}

/// Takes bytes over for C code, or refuses them for the NUL among them.
pub fn c_string(bytes: &[u8]) -> (r: Result<CString, Error>)
    ensures
        match r {
            Ok(c) => nul_free(bytes@) && c@ == bytes@,
            Err(e) => !nul_free(bytes@) && e == Error::Simple(ErrorKind::InvalidInput),
        },
{
    match CString::new(copy_of(bytes)) {
        Some(c) => Ok(c),
        None => Err(Error::Simple(ErrorKind::InvalidInput)),
    }
}

/// The place of the first `b`, or the length where there is none.
pub open spec fn first(bytes: Seq<u8>, b: u8) -> int
    decreases bytes.len(),
{
    if bytes.len() == 0 || bytes[0] == b {
        0
    } else {
        1 + first(bytes.drop_first(), b)
    }
}

/// What the place of the first `b` is among the places.
pub proof fn first_is_first(bytes: Seq<u8>, b: u8)
    ensures
        0 <= first(bytes, b) <= bytes.len(),
        first(bytes, b) < bytes.len() ==> bytes[first(bytes, b)] == b,
        forall|i: int| 0 <= i < first(bytes, b) ==> bytes[i] != b,
        bytes.contains(b) <==> first(bytes, b) < bytes.len(),
    decreases bytes.len(),
{
    if bytes.len() > 0 && bytes[0] != b {
        let rest = bytes.drop_first();
        first_is_first(rest, b);
        assert forall|i: int| 0 <= i < first(bytes, b) implies bytes[i] != b by {
            if i > 0 {
                assert(rest[i - 1] == bytes[i]);
            }
        }
        if bytes.contains(b) {
            let k = choose|k: int| 0 <= k < bytes.len() && bytes[k] == b;
            assert(rest[k - 1] == b);
        }
    } else if bytes.len() > 0 {
        assert(bytes[0] == b);
    }
}

/// The place is the first one where that is so and nowhere before.
pub proof fn first_is(bytes: Seq<u8>, b: u8, at: int)
    requires
        0 <= at <= bytes.len(),
        at < bytes.len() ==> bytes[at] == b,
        forall|i: int| 0 <= i < at ==> bytes[i] != b,
    ensures
        first(bytes, b) == at,
{
    first_is_first(bytes, b);
    let f = first(bytes, b);
    if f < at {
        assert(bytes[f] != b);
    }
}

/// The place of the first `b`, or the length where there is none.
pub fn position(bytes: &[u8], b: u8) -> (at: usize)
    ensures
        at == first(bytes@, b),
        at <= bytes@.len(),
{
    let mut at: usize = 0;
    while at < bytes.len() && bytes[at] != b
        invariant
            at <= bytes@.len(),
            forall|i: int| 0 <= i < at ==> bytes@[i] != b,
        decreases bytes@.len() - at,
    {
        at += 1;
    }
    proof {
        first_is(bytes@, b, at as int);
    }
    at
}

/// Whether `b` is among the bytes.
pub fn contains(bytes: &[u8], b: u8) -> (yes: bool)
    ensures
        yes == bytes@.contains(b),
{
    let at: usize = position(bytes, b);
    proof {
        first_is_first(bytes@, b);
    }
    at < bytes.len()
}

/// A copy of some bytes.
pub fn copy_of(bytes: &[u8]) -> (copy: Vec<u8>)
    ensures
        copy@ == bytes@,
{
    copy_range(bytes, 0, bytes.len())
}

/// A copy of the bytes from one place up to another.
pub fn copy_range(bytes: &[u8], from: usize, to: usize) -> (copy: Vec<u8>)
    requires
        from <= to <= bytes@.len(),
    ensures
        copy@ == bytes@.subrange(from as int, to as int),
{
    let mut copy: Vec<u8> = Vec::new();
    append_range(&mut copy, bytes, from, to);
    copy
}

/// Appends the bytes from one place up to another.
pub fn append_range(out: &mut Vec<u8>, bytes: &[u8], from: usize, to: usize)
    requires
        from <= to <= bytes@.len(),
    ensures
        final(out)@ == old(out)@ + bytes@.subrange(from as int, to as int),
{
    let ghost start = out@;
    let mut i: usize = from;
    while i < to
        invariant
            from <= i <= to <= bytes@.len(),
            out@ == start + bytes@.subrange(from as int, i as int),
        decreases to - i,
    {
        out.push(bytes[i]);
        i += 1;
    }
}

/// Whether two byte strings are the same.
pub fn same(a: &[u8], b: &[u8]) -> (yes: bool)
    ensures
        yes == (a@ == b@),
{
    if a.len() != b.len() {
        return false;
    }
    let mut i: usize = 0;
    while i < a.len()
        invariant
            i <= a@.len(),
            a@.len() == b@.len(),
            forall|j: int| 0 <= j < i ==> a@[j] == b@[j],
        decreases a@.len() - i,
    {
        if a[i] != b[i] {
            return false;
        }
        i += 1;
    }
    assert(a@ == b@);
    true
}

/// The bytes that a C string in a buffer holds: those before the first NUL, or all.
pub fn until_nul(buffer: &[u8]) -> (text: Vec<u8>)
    ensures
        text@ == buffer@.take(first(buffer@, 0)),
{
    let n: usize = position(buffer, 0);
    copy_range(buffer, 0, n)
}

/// Bytes are free of NULs exactly where none of them is zero.
pub proof fn nul_free_means_no_zero(bytes: Seq<u8>)
    ensures
        nul_free(bytes) <==> forall|i: int| 0 <= i < bytes.len() ==> bytes[i] != 0,
{
    if forall|i: int| 0 <= i < bytes.len() ==> bytes[i] != 0 {
        assert(!bytes.contains(0u8));
    }
}

/// A digit is the character of its value, a digit more is one place more, and what is below
/// zero has a sign before it.
pub proof fn decimals_are_positional(n: nat, d: nat, below: int)
    requires
        d < 10,
        below < 0,
    ensures
        digits(d) == seq![(0x30 + d) as char],
        n > 0 ==> digits(10 * n + d) == digits(n).push((0x30 + d) as char),
        decimal(n as int) == digits(n),
        decimal(below) == seq!['-'] + digits((-below) as nat),
{
}

/// What C code is handed is byte for byte what the caller gave, and nothing but a NUL is
/// refused.
pub proof fn c_strings_hold_the_very_bytes(bytes: &[u8], r: Result<CString, Error>)
    requires
        call_ensures(c_string, (bytes,), r),
    ensures
        r is Ok <==> forall|i: int| 0 <= i < bytes@.len() ==> bytes@[i] != 0,
        r matches Ok(c) ==> c@ == bytes@,
        r matches Err(e) ==> e == Error::Simple(ErrorKind::InvalidInput),
{
    nul_free_means_no_zero(bytes@);
}

/// What is read out of a buffer is all of it before its first NUL, and all of it where there
/// is none.
pub proof fn a_buffer_is_read_up_to_its_nul(buffer: &[u8], text: Vec<u8>)
    requires
        call_ensures(until_nul, (buffer,), text),
    ensures
        text@.len() <= buffer@.len(),
        forall|i: int| 0 <= i < text@.len() ==> text@[i] == buffer@[i] && text@[i] != 0,
        text@.len() < buffer@.len() ==> buffer@[text@.len() as int] == 0,
{
    first_is_first(buffer@, 0);
}

/// A number that is appended stands in decimal behind what was there.
pub proof fn numbers_are_appended_in_decimal(out: &mut String, n: i64)
    requires
        call_ensures(push_decimal, (out, n), ()),
    ensures
        final(out)@ == old(out)@ + decimal(n as int),
{
}

} // verus!
