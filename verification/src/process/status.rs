//! How processes end.
use vstd::prelude::*;

use crate::text::{decimal, push_decimal};

verus! {

/// How a child ended. Its view is the code it ended with.
#[derive(Clone, Copy, PartialEq, Eq, Debug, Default)]
pub struct ExitStatus(i32);

impl View for ExitStatus {
    type V = i32;

    closed spec fn view(&self) -> i32 {
        self.0
    }
}

impl ExitStatus {
    /// The status of a child that ended with a code.
    pub fn from_code(code: i32) -> (s: ExitStatus)
        ensures
            s@ == code,
    {
        ExitStatus(code)
    }

    /// Nothing to say of a child that ended with zero, an error for any other.
    pub fn exit_ok(&self) -> (r: Result<(), ExitStatusError>)
        ensures
            match r {
                Ok(()) => self@ == 0,
                Err(e) => self@ != 0 && e@ == self@,
            },
    {
        if self.0 == 0 {
            Ok(())
        } else {
            Err(ExitStatusError(self.0))
        }
    }

    /// The code. There always is one: nothing ends a child but itself.
    pub fn code(&self) -> (code: Option<i32>)
        ensures
            code == Some(self@),
    {
        Some(self.0)
    }

    /// The status in words.
    pub fn to_text(&self) -> (text: String)
        ensures
            text@ == "exit code: "@ + decimal(self@ as int),
    {
        let mut text: String = String::from_str("exit code: ");
        push_decimal(&mut text, self.0 as i64);
        text
    }
}

/// How a child ended that did not end well. Its view is the code, which is not zero.
#[derive(Clone, Copy, PartialEq, Eq, Debug)]
pub struct ExitStatusError(i32);

impl View for ExitStatusError {
    type V = i32;

    closed spec fn view(&self) -> i32 {
        self.0
    }
}

impl ExitStatusError {
    #[verifier::type_invariant]
    spec fn not_zero(self) -> bool {
        self.0 != 0
    }

    /// The code, which is not zero.
    pub fn code(self) -> (code: Option<i32>)
        ensures
            code == Some(self@),
            self@ != 0,
    {
        proof {
            use_type_invariant(&self);
        }
        Some(self.0)
    }

    /// The status that the error stands for.
    pub fn into_status(self) -> (s: ExitStatus)
        ensures
            s@ == self@,
            s@ != 0,
    {
        proof {
            use_type_invariant(&self);
        }
        ExitStatus(self.0)
    }
}

/// What this process ends with. Its view is the code.
#[derive(Clone, Copy, PartialEq, Eq, Debug)]
pub struct ExitCode(u8);

impl View for ExitCode {
    type V = u8;

    closed spec fn view(&self) -> u8 {
        self.0
    }
}

impl ExitCode {
    /// All went well.
    pub fn success() -> (c: ExitCode)
        ensures
            c@ == 0,
    {
        ExitCode(0)
    }

    /// Something failed.
    pub fn failure() -> (c: ExitCode)
        ensures
            c@ == 1,
    {
        ExitCode(1)
    }

    /// The code as the system takes it.
    pub fn as_i32(&self) -> (code: i32)
        ensures
            code == self@,
    {
        self.0 as i32
    }
}

impl From<u8> for ExitCode {
    fn from(code: u8) -> (c: ExitCode) {
        ExitCode(code)
    }
}

impl vstd::std_specs::convert::FromSpecImpl<u8> for ExitCode {
    open spec fn obeys_from_spec() -> bool {
        true
    }

    closed spec fn from_spec(code: u8) -> ExitCode {
        ExitCode(code)
    }
}

/// The number of this process. There is only one to speak of.
pub fn getpid() -> (id: u32)
    ensures
        id == 1,
{
    1
}

/// A child that ended with a code has that very code, whichever it is: it is well exactly
/// where the code is zero, and else the error has the code and stands for the same status.
pub proof fn a_status_keeps_its_code(
    code: i32,
    status: ExitStatus,
    told: Option<i32>,
    well: Result<(), ExitStatusError>,
    text: String,
)
    requires
        call_ensures(ExitStatus::from_code, (code,), status),
        call_ensures(ExitStatus::code, (&status,), told),
        call_ensures(ExitStatus::exit_ok, (&status,), well),
        call_ensures(ExitStatus::to_text, (&status,), text),
    ensures
        status@ == code,
        told == Some(code),
        well is Ok <==> code == 0,
        text@ == "exit code: "@ + decimal(code as int),
        well matches Err(e) ==> {
            &&& forall|c: Option<i32>| #[trigger]
                call_ensures(ExitStatusError::code, (e,), c) ==> c == Some(code)
            &&& forall|s: ExitStatus| #[trigger]
                call_ensures(ExitStatusError::into_status, (e,), s) ==> s@ == code
        },
{
}

/// What this process ends with is zero where all went well, one where something failed, and
/// else the very code that was given.
pub proof fn an_exit_code_is_its_number(
    code: u8,
    success: ExitCode,
    failure: ExitCode,
    given: ExitCode,
    n: i32,
)
    requires
        call_ensures(ExitCode::success, (), success),
        call_ensures(ExitCode::failure, (), failure),
        given@ == code,
        call_ensures(ExitCode::as_i32, (&given,), n),
    ensures
        success@ == 0 && failure@ == 1 && n == code,
        <ExitCode as vstd::std_specs::convert::FromSpec<u8>>::from_spec(code)@ == code,
        forall|id: u32| #[trigger] call_ensures(getpid, (), id) ==> id == 1,
{
}

} // verus!
