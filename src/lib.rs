//! A typed signal set over the operating system's `sigset_t`.
//!
//! `Signal` names a platform signal number, `SigSet` owns a native signal set,
//! and `InvalidSignalError` reports a number that the set primitives reject.
//! The primitives themselves (`sigemptyset`, `sigfillset`, `sigaddset`,
//! `sigdelset`, `sigismember`) are raw foreign calls: the caller performs them
//! on the set's native value and hands the outcome to the verified steps of
//! `SigSet`, which decide the next state and the typed result.

mod error;
mod set;
mod signal;

pub use error::{InvalidSignalError, EINVAL};
pub use set::SigSet;
pub use signal::Signal;

pub use libc::sigset_t;
