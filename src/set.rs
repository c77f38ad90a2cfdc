use vstd::prelude::*;

use crate::error::InvalidSignalError;

verus! {

#[verifier::external_type_specification]
#[verifier::external_body]
pub struct ExSigsetT(libc::sigset_t);

/// A signal set in the operating system's native layout.
///
/// The value is the native `sigset_t` itself, bit for bit, so it can be
/// handed to any call that takes one. A `SigSet` is only ever built from a
/// value that a set primitive has initialized (`sigemptyset`, `sigfillset`)
/// or that the caller vouches for (`from_raw`).
pub struct SigSet {
    set: libc::sigset_t,
}

impl View for SigSet {
    type V = libc::sigset_t;

    closed spec fn view(&self) -> libc::sigset_t {
        self.set
    }
}

/// Whether a set primitive's status code reports success: failure is any
/// negative code.
pub open spec fn status_ok(status: int) -> bool {
    status >= 0
}

impl SigSet {
    /// Wraps a native set that is already initialized.
    pub fn from_raw(set: libc::sigset_t) -> (r: SigSet)
        ensures
            r@ == set,
    {
        SigSet { set }
    }

    /// The native set, unchanged.
    pub fn into_raw(self) -> (r: libc::sigset_t)
        ensures
            r == self@,
    {
        self.set
    }

    /// The native set, borrowed for a call that reads it.
    pub fn raw(&self) -> (r: &libc::sigset_t)
        ensures
            *r == self@,
    {
        &self.set
    }

    /// The native set, borrowed for a call that writes it: what the call
    /// leaves behind the borrow is what the set holds afterwards.
    pub fn raw_mut(&mut self) -> (r: &mut libc::sigset_t)
        ensures
            *r == old(self)@,
            final(self)@ == *final(r),
    {
        &mut self.set
    }

    /// Completes an `add` or a `remove`.
    ///
    /// `updated` is what `sigaddset` or `sigdelset` wrote when applied to a
    /// copy of this set, and `status` is what it returned. On success the set
    /// becomes `updated`; on failure the signal was out of range, the set is
    /// left as it was, and the error is returned.
    pub fn commit_update(&mut self, updated: libc::sigset_t, status: libc::c_int) -> (r: Result<
        (),
        InvalidSignalError,
    >)
        ensures
            r is Ok <==> status_ok(status as int),
            status_ok(status as int) ==> final(self)@ == updated,
            !status_ok(status as int) ==> final(self)@ == old(self)@,
    {
        if status < 0 {
            Err(InvalidSignalError::new())
        } else {
            self.set = updated;
            Ok(())
        }
    }

    /// Completes a `contains` from what `sigismember` returned: a negative
    /// code means the signal was out of range, zero that it is absent, any
    /// other code that it is present.
    pub fn membership(status: libc::c_int) -> (r: Result<bool, InvalidSignalError>)
        ensures
            r is Ok <==> status_ok(status as int),
            status_ok(status as int) ==> r == Ok::<bool, InvalidSignalError>(status != 0),
    {
        if status < 0 {
            Err(InvalidSignalError::new())
        } else {
            Ok(status != 0)
        }
    }

    /// A set rebuilt by `from_raw` from the native value that `into_raw`
    /// gave back is the very same set, so it answers every query alike.
    pub proof fn lemma_raw_round_trip(v: SigSet, w: SigSet)
        requires
            w@ == v@,
        ensures
            w == v,
    {
    }
}

} // verus!
