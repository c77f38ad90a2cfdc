use vstd::prelude::*;
use vstd::string::StringExecFns;

verus! {

/// The platform's `EINVAL`: the error number that stands for a rejected
/// signal number when this error joins the operating system's own errors.
pub const EINVAL: i32 = 22;

/// A signal number that a set primitive refused as out of range.
///
/// It carries nothing beyond its kind: the primitives do not say why.
#[derive(Clone, Copy, PartialEq, Eq, Debug)]
pub struct InvalidSignalError(());

impl InvalidSignalError {
    /// The error, for a caller that ran a set primitive itself and saw it fail.
    pub fn new() -> (r: InvalidSignalError) {
        InvalidSignalError(())
    }

    /// The human-readable description of this error.
    pub fn message(&self) -> (r: String)
        ensures
            r@ == "Invalid signal"@,
    {
        String::from_str("Invalid signal")
    }

    /// The operating-system error number that this error maps to.
    pub fn raw_os_error(&self) -> (r: i32)
        ensures
            r == EINVAL,
    {
        EINVAL
    }
}

} // verus!
