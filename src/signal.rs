use vstd::prelude::*;

verus! {

/// A platform signal number.
///
/// Any integer can be wrapped: whether a number is a valid member of a signal
/// set is decided by the set primitives when the signal is used, not here.
/// Two signals are equal exactly when their numbers are.
#[derive(Clone, Copy, PartialEq, Eq, Structural, Debug, Hash)]
pub struct Signal(libc::c_int);

impl View for Signal {
    type V = int;

    closed spec fn view(&self) -> int {
        self.0 as int
    }
}

impl Signal {
    /// Wraps a raw signal number, without checking it.
    pub fn new(sig: libc::c_int) -> (r: Signal)
        ensures
            r@ == sig,
    {
        Signal(sig)
    }

    /// The raw signal number.
    pub fn into_raw(self) -> (r: libc::c_int)
        ensures
            r == self@,
    {
        self.0
    }

    /// Signals are compared by their numbers alone: two signals are equal
    /// exactly when their numbers are, so two names for one number (`SIGABRT`
    /// and `SIGIOT`) denote the same signal everywhere.
    pub proof fn lemma_eq_iff_same_number(a: Signal, b: Signal)
        ensures
            (a == b) <==> (a@ == b@),
    {
    }

    // The catalog below gives Linux's numbering (the generic layout that
    // x86, ARM, RISC-V and most other architectures share).

    // Program errors
    /// `SIGFPE` (8): arithmetic error, such as division by zero.
    #[allow(non_snake_case)]
    pub fn SIGFPE() -> (r: Signal)
        ensures
            r@ == 8,
    {
        Signal(8)
    }

    /// `SIGILL` (4): illegal instruction.
    #[allow(non_snake_case)]
    pub fn SIGILL() -> (r: Signal)
        ensures
            r@ == 4,
    {
        Signal(4)
    }

    /// `SIGSEGV` (11): invalid memory reference.
    #[allow(non_snake_case)]
    pub fn SIGSEGV() -> (r: Signal)
        ensures
            r@ == 11,
    {
        Signal(11)
    }

    /// `SIGBUS` (7): bus error: bad memory access.
    #[allow(non_snake_case)]
    pub fn SIGBUS() -> (r: Signal)
        ensures
            r@ == 7,
    {
        Signal(7)
    }

    /// `SIGABRT` (6): abort.
    #[allow(non_snake_case)]
    pub fn SIGABRT() -> (r: Signal)
        ensures
            r@ == 6,
    {
        Signal(6)
    }

    /// `SIGIOT` (6): the older name of `SIGABRT`.
    #[allow(non_snake_case)]
    pub fn SIGIOT() -> (r: Signal)
        ensures
            r@ == 6,
    {
        Signal(6)
    }

    /// `SIGTRAP` (5): trace or breakpoint trap.
    #[allow(non_snake_case)]
    pub fn SIGTRAP() -> (r: Signal)
        ensures
            r@ == 5,
    {
        Signal(5)
    }

    /// `SIGSYS` (31): bad system call.
    #[allow(non_snake_case)]
    pub fn SIGSYS() -> (r: Signal)
        ensures
            r@ == 31,
    {
        Signal(31)
    }

    // Termination
    /// `SIGTERM` (15): termination request.
    #[allow(non_snake_case)]
    pub fn SIGTERM() -> (r: Signal)
        ensures
            r@ == 15,
    {
        Signal(15)
    }

    /// `SIGINT` (2): interrupt from the keyboard.
    #[allow(non_snake_case)]
    pub fn SIGINT() -> (r: Signal)
        ensures
            r@ == 2,
    {
        Signal(2)
    }

    /// `SIGQUIT` (3): quit from the keyboard.
    #[allow(non_snake_case)]
    pub fn SIGQUIT() -> (r: Signal)
        ensures
            r@ == 3,
    {
        Signal(3)
    }

    /// `SIGKILL` (9): kill: cannot be caught or ignored.
    #[allow(non_snake_case)]
    pub fn SIGKILL() -> (r: Signal)
        ensures
            r@ == 9,
    {
        Signal(9)
    }

    /// `SIGHUP` (1): hangup of the controlling terminal.
    #[allow(non_snake_case)]
    pub fn SIGHUP() -> (r: Signal)
        ensures
            r@ == 1,
    {
        Signal(1)
    }

    // Alarms and timers
    /// `SIGALRM` (14): real-time timer expired.
    #[allow(non_snake_case)]
    pub fn SIGALRM() -> (r: Signal)
        ensures
            r@ == 14,
    {
        Signal(14)
    }

    /// `SIGVTALRM` (26): virtual timer expired.
    #[allow(non_snake_case)]
    pub fn SIGVTALRM() -> (r: Signal)
        ensures
            r@ == 26,
    {
        Signal(26)
    }

    /// `SIGPROF` (27): profiling timer expired.
    #[allow(non_snake_case)]
    pub fn SIGPROF() -> (r: Signal)
        ensures
            r@ == 27,
    {
        Signal(27)
    }

    // Asynchronous I/O
    /// `SIGIO` (29): I/O is possible on a descriptor.
    #[allow(non_snake_case)]
    pub fn SIGIO() -> (r: Signal)
        ensures
            r@ == 29,
    {
        Signal(29)
    }

    /// `SIGURG` (23): urgent data on a socket.
    #[allow(non_snake_case)]
    pub fn SIGURG() -> (r: Signal)
        ensures
            r@ == 23,
    {
        Signal(23)
    }

    /// `SIGPOLL` (29): pollable event: the same number as `SIGIO`.
    #[allow(non_snake_case)]
    pub fn SIGPOLL() -> (r: Signal)
        ensures
            r@ == 29,
    {
        Signal(29)
    }

    // Job control
    /// `SIGCHLD` (17): a child stopped or terminated.
    #[allow(non_snake_case)]
    pub fn SIGCHLD() -> (r: Signal)
        ensures
            r@ == 17,
    {
        Signal(17)
    }

    /// `SIGCONT` (18): continue if stopped.
    #[allow(non_snake_case)]
    pub fn SIGCONT() -> (r: Signal)
        ensures
            r@ == 18,
    {
        Signal(18)
    }

    /// `SIGSTOP` (19): stop: cannot be caught or ignored.
    #[allow(non_snake_case)]
    pub fn SIGSTOP() -> (r: Signal)
        ensures
            r@ == 19,
    {
        Signal(19)
    }

    /// `SIGTSTP` (20): stop typed at the terminal.
    #[allow(non_snake_case)]
    pub fn SIGTSTP() -> (r: Signal)
        ensures
            r@ == 20,
    {
        Signal(20)
    }

    /// `SIGTTIN` (21): terminal input for a background process.
    #[allow(non_snake_case)]
    pub fn SIGTTIN() -> (r: Signal)
        ensures
            r@ == 21,
    {
        Signal(21)
    }

    /// `SIGTTOU` (22): terminal output for a background process.
    #[allow(non_snake_case)]
    pub fn SIGTTOU() -> (r: Signal)
        ensures
            r@ == 22,
    {
        Signal(22)
    }

    // Operation errors
    /// `SIGPIPE` (13): write to a pipe with no readers.
    #[allow(non_snake_case)]
    pub fn SIGPIPE() -> (r: Signal)
        ensures
            r@ == 13,
    {
        Signal(13)
    }

    /// `SIGXCPU` (24): CPU time limit exceeded.
    #[allow(non_snake_case)]
    pub fn SIGXCPU() -> (r: Signal)
        ensures
            r@ == 24,
    {
        Signal(24)
    }

    /// `SIGXFSZ` (25): file size limit exceeded.
    #[allow(non_snake_case)]
    pub fn SIGXFSZ() -> (r: Signal)
        ensures
            r@ == 25,
    {
        Signal(25)
    }

    // Miscellaneous
    /// `SIGUSR1` (10): first user-defined signal.
    #[allow(non_snake_case)]
    pub fn SIGUSR1() -> (r: Signal)
        ensures
            r@ == 10,
    {
        Signal(10)
    }

    /// `SIGUSR2` (12): second user-defined signal.
    #[allow(non_snake_case)]
    pub fn SIGUSR2() -> (r: Signal)
        ensures
            r@ == 12,
    {
        Signal(12)
    }

    /// `SIGWINCH` (28): the terminal window changed size.
    #[allow(non_snake_case)]
    pub fn SIGWINCH() -> (r: Signal)
        ensures
            r@ == 28,
    {
        Signal(28)
    }
}

} // verus!
