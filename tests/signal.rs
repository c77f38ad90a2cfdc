use std::collections::HashSet;

use sigset::Signal;

fn catalog() -> Vec<(Signal, libc::c_int)> {
    vec![
        (Signal::SIGFPE(), libc::SIGFPE),
        (Signal::SIGILL(), libc::SIGILL),
        (Signal::SIGSEGV(), libc::SIGSEGV),
        (Signal::SIGBUS(), libc::SIGBUS),
        (Signal::SIGABRT(), libc::SIGABRT),
        (Signal::SIGIOT(), libc::SIGIOT),
        (Signal::SIGTRAP(), libc::SIGTRAP),
        (Signal::SIGSYS(), libc::SIGSYS),
        (Signal::SIGTERM(), libc::SIGTERM),
        (Signal::SIGINT(), libc::SIGINT),
        (Signal::SIGQUIT(), libc::SIGQUIT),
        (Signal::SIGKILL(), libc::SIGKILL),
        (Signal::SIGHUP(), libc::SIGHUP),
        (Signal::SIGALRM(), libc::SIGALRM),
        (Signal::SIGVTALRM(), libc::SIGVTALRM),
        (Signal::SIGPROF(), libc::SIGPROF),
        (Signal::SIGIO(), libc::SIGIO),
        (Signal::SIGURG(), libc::SIGURG),
        (Signal::SIGPOLL(), libc::SIGPOLL),
        (Signal::SIGCHLD(), libc::SIGCHLD),
        (Signal::SIGCONT(), libc::SIGCONT),
        (Signal::SIGSTOP(), libc::SIGSTOP),
        (Signal::SIGTSTP(), libc::SIGTSTP),
        (Signal::SIGTTIN(), libc::SIGTTIN),
        (Signal::SIGTTOU(), libc::SIGTTOU),
        (Signal::SIGPIPE(), libc::SIGPIPE),
        (Signal::SIGXCPU(), libc::SIGXCPU),
        (Signal::SIGXFSZ(), libc::SIGXFSZ),
        (Signal::SIGUSR1(), libc::SIGUSR1),
        (Signal::SIGUSR2(), libc::SIGUSR2),
        (Signal::SIGWINCH(), libc::SIGWINCH),
    ]
}

#[test]
fn catalog_matches_platform_numbers() {
    for (sig, raw) in catalog() {
        assert_eq!(sig.into_raw(), raw);
        assert_eq!(sig, Signal::new(raw));
    }
}

#[test]
fn catalog_has_thirty_one_names() {
    assert_eq!(catalog().len(), 31);
}

#[test]
fn catalog_exact_numbers() {
    assert_eq!(Signal::SIGHUP().into_raw(), 1);
    assert_eq!(Signal::SIGINT().into_raw(), 2);
    assert_eq!(Signal::SIGKILL().into_raw(), 9);
    assert_eq!(Signal::SIGTERM().into_raw(), 15);
    assert_eq!(Signal::SIGSTOP().into_raw(), 19);
    assert_eq!(Signal::SIGSYS().into_raw(), 31);
}

#[test]
fn new_keeps_any_number() {
    assert_eq!(Signal::new(9999).into_raw(), 9999);
    assert_eq!(Signal::new(0).into_raw(), 0);
    assert_eq!(Signal::new(-5).into_raw(), -5);
    assert_eq!(Signal::new(i32::MAX).into_raw(), i32::MAX);
    assert_eq!(Signal::new(i32::MIN).into_raw(), i32::MIN);
}

#[test]
fn aliases_compare_equal() {
    assert_eq!(Signal::SIGABRT(), Signal::SIGIOT());
    assert_eq!(Signal::SIGABRT().into_raw(), Signal::SIGIOT().into_raw());
    assert_eq!(Signal::SIGIO(), Signal::SIGPOLL());
    assert_eq!(Signal::SIGIO().into_raw(), Signal::SIGPOLL().into_raw());
}

#[test]
fn distinct_numbers_are_distinct_signals() {
    assert_ne!(Signal::SIGINT(), Signal::SIGTERM());
    assert_ne!(Signal::SIGKILL(), Signal::SIGSTOP());
    assert_ne!(Signal::new(1), Signal::new(2));
}

#[test]
fn equal_signals_hash_alike() {
    let mut seen = HashSet::new();
    seen.insert(Signal::SIGABRT());
    assert!(seen.contains(&Signal::SIGIOT()));
    assert!(!seen.contains(&Signal::SIGINT()));
}
