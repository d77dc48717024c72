//! The error type shared by every fallible operation, and the Node-API status check.

use vstd::prelude::*;

verus! {

/// The status that Node-API reports for a call that succeeded.
pub const NAPI_OK: i32 = 0;

/// A failure, as the status code that was reported and a description of what failed.
#[derive(Debug)]
pub struct Error {
    pub status: i32,
    pub reason: String,
}

/// What an [`Error`] says.
pub struct ErrorView {
    pub status: i32,
    pub reason: Seq<char>,
}

impl View for Error {
    type V = ErrorView;

    open spec fn view(&self) -> ErrorView {
        ErrorView { status: self.status, reason: self.reason@ }
    }
}

impl Clone for Error {
    fn clone(&self) -> (copy: Self)
        ensures
            copy == *self,
    {
        Error { status: self.status, reason: self.reason.clone() }
    }
}

/// Turns the status of a Node-API call into a result: anything but [`NAPI_OK`] is an error that
/// keeps the status and carries `message`.
pub fn check_status(status: i32, message: &str) -> (checked: Result<(), Error>)
    ensures
        checked is Ok <==> status == NAPI_OK,
        checked matches Err(error) ==> error@ == (ErrorView { status, reason: message@ }),
        checked matches Err(error) ==> error.status == status && error.reason@ == message@,
{
    if status == NAPI_OK {
        Ok(())
    } else {
        Err(Error { status, reason: message.to_owned() })
    }
}

/// What an error says is its status and its reason, all of both: errors that say the same agree in
/// both, and errors that agree in both say the same.
pub proof fn errors_say_status_and_reason(a: Error, b: Error)
    ensures
        a@.status == a.status,
        a@.reason == a.reason@,
        a@ == b@ <==> a.status == b.status && a.reason@ == b.reason@,
{
}

} // verus!
