//! How a file is opened.
use vstd::prelude::*;

use crate::error::Error;

verus! {

// The access modes are AROS's own: reading is not zero, and an access mode of zero is
// refused by the system.
/// Opens for reading.
pub const O_RDONLY: i32 = 0x0001;

/// Opens for writing.
pub const O_WRONLY: i32 = 0x0002;

/// Opens for both.
pub const O_RDWR: i32 = 0x0003;

/// The bits of the access mode.
pub const O_ACCMODE: i32 = 0x0003;

/// Makes the file where there is none.
pub const O_CREAT: i32 = 0x0040;

/// Fails where there is a file already.
pub const O_EXCL: i32 = 0x0080;

/// Empties the file.
pub const O_TRUNC: i32 = 0x0200;

/// Writes at the end.
pub const O_APPEND: i32 = 0x0400;

/// The error number of an argument that makes no sense.
pub const EINVAL: i32 = 22;

/// How a file is to be opened.
#[derive(Clone, Copy, Debug)]
pub struct OpenOptions {
    pub read: bool,
    pub write: bool,
    pub append: bool,
    pub truncate: bool,
    pub create: bool,
    pub create_new: bool,
}

impl OpenOptions {
    /// Nothing asked for yet.
    pub fn new() -> (o: OpenOptions)
        ensures
            o == (OpenOptions {
                read: false,
                write: false,
                append: false,
                truncate: false,
                create: false,
                create_new: false,
            }),
    {
        OpenOptions {
            read: false,
            write: false,
            append: false,
            truncate: false,
            create: false,
            create_new: false,
        }
    }

    /// Whether to read.
    pub fn read(&mut self, read: bool)
        ensures
            *final(self) == (OpenOptions { read, ..*old(self) }),
    {
        self.read = read;
    }

    /// Whether to write.
    pub fn write(&mut self, write: bool)
        ensures
            *final(self) == (OpenOptions { write, ..*old(self) }),
    {
        self.write = write;
    }

    /// Whether to write at the end.
    pub fn append(&mut self, append: bool)
        ensures
            *final(self) == (OpenOptions { append, ..*old(self) }),
    {
        self.append = append;
    }

    /// Whether to empty the file.
    pub fn truncate(&mut self, truncate: bool)
        ensures
            *final(self) == (OpenOptions { truncate, ..*old(self) }),
    {
        self.truncate = truncate;
    }

    /// Whether to make the file where there is none.
    pub fn create(&mut self, create: bool)
        ensures
            *final(self) == (OpenOptions { create, ..*old(self) }),
    {
        self.create = create;
    }

    /// Whether to make the file and fail where there is one.
    pub fn create_new(&mut self, create_new: bool)
        ensures
            *final(self) == (OpenOptions { create_new, ..*old(self) }),
    {
        self.create_new = create_new;
    }

    /// Whether the options make sense together: there is something to do with the file;
    /// only a writer makes or empties one; and a file is not emptied to be appended to,
    /// unless it has to be a new one anyway.
    pub open spec fn sensible(self) -> bool {
        &&& self.read || self.write || self.append
        &&& self.write || self.append || !(self.truncate || self.create || self.create_new)
        &&& self.append && self.truncate ==> self.create_new
    }

    /// The access mode: appending is writing too.
    pub open spec fn access(self) -> i32 {
        if self.write || self.append {
            if self.read {
                O_RDWR
            } else {
                O_WRONLY
            }
        } else {
            O_RDONLY
        }
    }

    /// The flags for what happens to the file before it is used. A new file needs no
    /// emptying.
    pub open spec fn creation(self) -> i32 {
        if self.create_new {
            O_CREAT | O_EXCL
        } else if self.create && self.truncate {
            O_CREAT | O_TRUNC
        } else if self.create {
            O_CREAT
        } else if self.truncate {
            O_TRUNC
        } else {
            0
        }
    }

    /// The flags that the system is given.
    pub open spec fn open_flags(self) -> i32 {
        self.access() | (if self.append {
            O_APPEND
        } else {
            0
        }) | self.creation()
    }

    /// The flags that the system is given, or the error of options that make no sense
    /// together.
    pub fn flags(&self) -> (r: Result<i32, Error>)
        ensures
            r == if self.sensible() {
                Ok::<i32, Error>(self.open_flags())
            } else {
                Err(Error::Os(EINVAL))
            },
    {
        let access: i32 = match (self.read, self.write, self.append) {
            (true, false, false) => O_RDONLY,
            (false, true, false) => O_WRONLY,
            (true, true, false) => O_RDWR,
            (false, _, true) => O_WRONLY | O_APPEND,
            (true, _, true) => O_RDWR | O_APPEND,
            (false, false, false) => return Err(Error::Os(EINVAL)),
        };
        if !self.write && !self.append && (self.truncate || self.create || self.create_new) {
            return Err(Error::Os(EINVAL));
        }
        if self.append && self.truncate && !self.create_new {
            return Err(Error::Os(EINVAL));
        }
        let mut f: i32 = access;
        if self.create_new {
            f = f | O_CREAT | O_EXCL;
        } else {
            if self.create {
                f = f | O_CREAT;
            }
            if self.truncate {
                f = f | O_TRUNC;
            }
        }
        proof {
            let a = self.access();
            assert(a | 0 | 0 == a && a | 0 == a) by (bit_vector);
            assert(forall|x: i32, y: i32, z: i32| #![auto] x | (y | z) == (x | y) | z)
                by (bit_vector);
            assert(forall|x: i32| #![auto] x | 0 == x) by (bit_vector);
        }
        Ok(f)
    }
}

/// The flags never ask for an access mode of zero; they allow writing exactly where the
/// options write or append, and reading exactly where they read; and the file is
/// written at its end exactly where they append.
pub proof fn flags_grant_what_was_asked(o: OpenOptions)
    requires
        o.sensible(),
    ensures
        o.open_flags() & O_ACCMODE != 0,
        (o.open_flags() & O_WRONLY != 0) == (o.write || o.append),
        (o.open_flags() & O_RDONLY != 0) == o.read,
        (o.open_flags() & O_APPEND != 0) == o.append,
        (o.open_flags() & O_EXCL != 0) == o.create_new,
        (o.open_flags() & O_CREAT != 0) == (o.create || o.create_new),
        (o.open_flags() & O_TRUNC != 0) == (o.truncate && !o.create_new),
{
    let a = o.access();
    let p: i32 = if o.append {
        0x400
    } else {
        0
    };
    let c = o.creation();
    assert(0x40i32 | 0x80 == 0xc0 && 0x40i32 | 0x200 == 0x240) by (bit_vector);
    let f = a | p | c;
    assert(f & 3 == a && f & 0x400 == p && f & 0x80 == c & 0x80 && f & 0x40 == c & 0x40 && f & 0x200
        == c & 0x200 && f & 2 == a & 2 && f & 1 == a & 1) by (bit_vector)
        requires
            f == a | p | c,
            a == 1 || a == 2 || a == 3,
            p == 0 || p == 0x400,
            c == 0 || c == 0x40 || c == 0xc0 || c == 0x200 || c == 0x240,
    ;
    assert(1i32 & 1 == 1 && 1i32 & 2 == 0 && 2i32 & 1 == 0 && 2i32 & 2 == 2 && 3i32 & 1 == 1 && 3i32
        & 2 == 2) by (bit_vector);
    assert(0i32 & 0x40 == 0 && 0i32 & 0x80 == 0 && 0i32 & 0x200 == 0) by (bit_vector);
    assert(0x40i32 & 0x40 != 0 && 0x40i32 & 0x80 == 0 && 0x40i32 & 0x200 == 0) by (bit_vector);
    assert(0xc0i32 & 0x40 != 0 && 0xc0i32 & 0x80 != 0 && 0xc0i32 & 0x200 == 0) by (bit_vector);
    assert(0x200i32 & 0x40 == 0 && 0x200i32 & 0x80 == 0 && 0x200i32 & 0x200 != 0) by (bit_vector);
    assert(0x240i32 & 0x40 != 0 && 0x240i32 & 0x80 == 0 && 0x240i32 & 0x200 != 0) by (bit_vector);
}

/// Options are refused exactly where they make no sense together, and else every flag of the
/// system is set exactly where it was asked for: nothing that was asked for is left out, and
/// nothing else is asked for.
pub proof fn flags_say_exactly_what_was_asked(o: OpenOptions, r: Result<i32, Error>)
    requires
        call_ensures(OpenOptions::flags, (&o,), r),
    ensures
        r is Err <==> {
            ||| !o.read && !o.write && !o.append
            ||| !o.write && !o.append && (o.truncate || o.create || o.create_new)
            ||| o.append && o.truncate && !o.create_new
        },
        r matches Err(e) ==> e == Error::Os(22),
        r matches Ok(f) ==> {
            &&& (f & 0x001 != 0) == o.read
            &&& (f & 0x002 != 0) == (o.write || o.append)
            &&& (f & 0x040 != 0) == (o.create || o.create_new)
            &&& (f & 0x080 != 0) == o.create_new
            &&& (f & 0x200 != 0) == (o.truncate && !o.create_new)
            &&& (f & 0x400 != 0) == o.append
            &&& f & !0x6c3i32 == 0
        },
{
    if o.sensible() {
        flags_grant_what_was_asked(o);
        let a = o.access();
        let p: i32 = if o.append {
            0x400
        } else {
            0
        };
        let c = o.creation();
        let f = a | p | c;
        assert(0x40i32 | 0x80 == 0xc0 && 0x40i32 | 0x200 == 0x240) by (bit_vector);
        assert(f & !0x6c3i32 == 0) by (bit_vector)
            requires
                f == a | p | c,
                a == 1 || a == 2 || a == 3,
                p == 0 || p == 0x400,
                c == 0 || c == 0x40 || c == 0xc0 || c == 0x200 || c == 0x240,
        ;
    }
}

/// Options start with nothing asked for.
pub proof fn nothing_is_asked_for_at_first(o: OpenOptions)
    requires
        call_ensures(OpenOptions::new, (), o),
    ensures
        !o.read && !o.write && !o.append && !o.truncate && !o.create && !o.create_new,
{
}

/// Each option changes what it is named after, to what it is told, and nothing else.
pub proof fn every_option_changes_only_itself()
    ensures
        forall|o: &mut OpenOptions, yes: bool, r: ()| #[trigger]
            call_ensures(OpenOptions::read, (o, yes), r) ==> *final(o) == (OpenOptions {
                read: yes,
                ..*o
            }),
        forall|o: &mut OpenOptions, yes: bool, r: ()| #[trigger]
            call_ensures(OpenOptions::write, (o, yes), r) ==> *final(o) == (OpenOptions {
                write: yes,
                ..*o
            }),
        forall|o: &mut OpenOptions, yes: bool, r: ()| #[trigger]
            call_ensures(OpenOptions::append, (o, yes), r) ==> *final(o) == (OpenOptions {
                append: yes,
                ..*o
            }),
        forall|o: &mut OpenOptions, yes: bool, r: ()| #[trigger]
            call_ensures(OpenOptions::truncate, (o, yes), r) ==> *final(o) == (OpenOptions {
                truncate: yes,
                ..*o
            }),
        forall|o: &mut OpenOptions, yes: bool, r: ()| #[trigger]
            call_ensures(OpenOptions::create, (o, yes), r) ==> *final(o) == (OpenOptions {
                create: yes,
                ..*o
            }),
        forall|o: &mut OpenOptions, yes: bool, r: ()| #[trigger]
            call_ensures(OpenOptions::create_new, (o, yes), r) ==> *final(o) == (OpenOptions {
                create_new: yes,
                ..*o
            }),
{
}

} // verus!
