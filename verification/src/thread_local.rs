//! Keys for what each thread has of its own.
use vstd::prelude::*;

use crate::error::{Error, ErrorKind};
use crate::op::{Decode, Request};

verus! {

/// A key.
pub type Key = u32;

/// A call about keys. Addresses are integers, and zero is none.
#[derive(PartialEq, Eq, Debug)]
pub enum KeyCall {
    /// `pthread_key_create`.
    Create { dtor: i64 },
    /// `pthread_setspecific`.
    SetValue { key: Key, value: i64 },
    /// `pthread_getspecific`.
    GetValue { key: Key },
    /// `pthread_key_delete`.
    Delete { key: Key },
}

/// What such a call answers. What the call does not tell is zero.
#[derive(PartialEq, Eq, Debug)]
pub struct KeyReply {
    /// The number that the call returned.
    pub ret: i32,
    /// The key that the call made.
    pub key: Key,
    /// The address that the call found.
    pub value: i64,
}

/// A call that makes a key.
pub struct Created;

impl Decode for Created {
    type Reply = KeyReply;

    type Output = Result<Key, Error>;

    open spec fn accepts(self, reply: KeyReply) -> bool {
        true
    }

    open spec fn reads(self, reply: KeyReply, out: Result<Key, Error>) -> bool {
        out == if reply.ret != 0 {
            Err::<Key, Error>(Error::Message(ErrorKind::Uncategorized, "out of TLS keys"))
        } else {
            Ok(reply.key)
        }
    }

    fn decode(self, reply: KeyReply) -> (out: Result<Key, Error>) {
        if reply.ret != 0 {
            Err(Error::Message(ErrorKind::Uncategorized, "out of TLS keys"))
        } else {
            Ok(reply.key)
        }
    }
}

/// A call that cannot fail on a key that there is.
pub struct Sure;

impl Decode for Sure {
    type Reply = KeyReply;

    type Output = bool;

    open spec fn accepts(self, reply: KeyReply) -> bool {
        true
    }

    open spec fn reads(self, reply: KeyReply, out: bool) -> bool {
        out == (reply.ret == 0)
    }

    fn decode(self, reply: KeyReply) -> (out: bool) {
        reply.ret == 0
    }
}

/// A call that finds an address.
pub struct Held;

impl Decode for Held {
    type Reply = KeyReply;

    type Output = i64;

    open spec fn accepts(self, reply: KeyReply) -> bool {
        true
    }

    open spec fn reads(self, reply: KeyReply, out: i64) -> bool {
        out == reply.value
    }

    fn decode(self, reply: KeyReply) -> (out: i64) {
        reply.value
    }
}

/// Makes a key. What a thread has under it is handed to `dtor`, if there is one, when the
/// thread ends. Without a key to be had the program cannot go on.
pub fn create(dtor: Option<i64>) -> (r: Request<KeyCall, Created>)
    ensures
        r.call == (KeyCall::Create {
            dtor: match dtor {
                Some(address) => address,
                None => 0,
            },
        }),
{
    let dtor: i64 = match dtor {
        Some(address) => address,
        None => 0,
    };
    Request { call: KeyCall::Create { dtor }, reading: Created }
}

/// Sets what this thread has under a key.
pub fn set(key: Key, value: i64) -> (r: Request<KeyCall, Sure>)
    ensures
        r.call == (KeyCall::SetValue { key, value }),
{
    Request { call: KeyCall::SetValue { key, value }, reading: Sure }
}

/// Asks what this thread has under a key.
pub fn get(key: Key) -> (r: Request<KeyCall, Held>)
    ensures
        r.call == (KeyCall::GetValue { key }),
{
    Request { call: KeyCall::GetValue { key }, reading: Held }
}

/// Removes a key.
pub fn destroy(key: Key) -> (r: Request<KeyCall, Sure>)
    ensures
        r.call == (KeyCall::Delete { key }),
{
    Request { call: KeyCall::Delete { key }, reading: Sure }
}

/// A key that is made is the one that was answered, and every call about a key is made with that
/// key; what a thread has under a key is what was last set under it, as far as the system tells
/// it back.
pub proof fn a_key_finds_what_was_set_under_it(
    dtor: Option<i64>,
    key: Key,
    value: i64,
    created: Request<KeyCall, Created>,
    stored: Request<KeyCall, Sure>,
    asked: Request<KeyCall, Held>,
    removed: Request<KeyCall, Sure>,
    reply: KeyReply,
)
    requires
        call_ensures(create, (dtor,), created),
        call_ensures(set, (key, value), stored),
        call_ensures(get, (key,), asked),
        call_ensures(destroy, (key,), removed),
    ensures
        dtor is None ==> created.call == (KeyCall::Create { dtor: 0 }),
        dtor matches Some(address) ==> created.call == (KeyCall::Create { dtor: address }),
        stored.call == (KeyCall::SetValue { key, value }),
        asked.call == (KeyCall::GetValue { key }),
        removed.call == (KeyCall::Delete { key }),
        forall|out: Result<Key, Error>| #[trigger]
            created.reading.reads(reply, out) ==> {
                &&& out is Ok <==> reply.ret == 0
                &&& out matches Ok(k) ==> k == reply.key
                &&& out matches Err(e) ==> e == Error::Message(
                    ErrorKind::Uncategorized,
                    "out of TLS keys",
                )
            },
        forall|out: bool| #[trigger] stored.reading.reads(reply, out) ==> out == (reply.ret == 0),
        forall|out: i64| #[trigger]
            asked.reading.reads(reply, out) ==> (reply.value == value ==> out == value),
{
}

} // verus!
