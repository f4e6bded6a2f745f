//! The typed error domain: every fallible native call reports failure as a
//! single error kind carrying the native status code.

use vstd::prelude::*;

verus! {

/// A failed platform call, carrying the status code the platform reported.
///
/// This is the only error kind of the library: missing or inaccessible
/// stores, malformed store names, wrong archive passwords and corrupt
/// archive bytes all surface as the native code of the call that failed.
#[derive(Clone, Copy, Debug, PartialEq, Eq, Structural)]
pub struct CngError {
    code: i32,
}

impl View for CngError {
    type V = i32;

    closed spec fn view(&self) -> i32 {
        self.code
    }
}

impl CngError {
    /// Wraps the status code of a failed native call.
    pub fn from_code(code: i32) -> (e: CngError)
        ensures
            e@ == code,
    {
        CngError { code }
    }

    /// The native status code this error carries.
    pub fn code(&self) -> (c: i32)
        ensures
            c == self@,
    {
        self.code
    }
}

} // verus!
