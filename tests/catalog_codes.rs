use signals::{Signal, SIGNAL_COUNT};

#[test]
fn codes_match_the_platform() {
    let table = [
        (Signal::Abort, libc::SIGABRT),
        (Signal::Alarm, libc::SIGALRM),
        (Signal::Bus, libc::SIGBUS),
        (Signal::Child, libc::SIGCHLD),
        (Signal::Continue, libc::SIGCONT),
        (Signal::FPE, libc::SIGFPE),
        (Signal::Hangup, libc::SIGHUP),
        (Signal::Illegal, libc::SIGILL),
        (Signal::Interrupt, libc::SIGINT),
        (Signal::Kill, libc::SIGKILL),
        (Signal::Pipe, libc::SIGPIPE),
        (Signal::Quit, libc::SIGQUIT),
        (Signal::Poll, libc::SIGPOLL),
        (Signal::Prof, libc::SIGPROF),
        (Signal::Segfault, libc::SIGSEGV),
        (Signal::Stop, libc::SIGSTOP),
        (Signal::TermStop, libc::SIGTSTP),
        (Signal::Sys, libc::SIGSYS),
        (Signal::Terminate, libc::SIGTERM),
        (Signal::Trap, libc::SIGTRAP),
        (Signal::TTIN, libc::SIGTTIN),
        (Signal::TTOU, libc::SIGTTOU),
        (Signal::Urgent, libc::SIGURG),
        (Signal::User1, libc::SIGUSR1),
        (Signal::User2, libc::SIGUSR2),
        (Signal::WinSize, libc::SIGWINCH),
        (Signal::XCPU, libc::SIGXCPU),
        (Signal::XFSZ, libc::SIGXFSZ),
    ];
    assert_eq!(table.len(), SIGNAL_COUNT);
    for (s, code) in table.iter() {
        assert_eq!(s.code(), *code);
    }
}

#[test]
fn interrupt_has_code_two() {
    assert_eq!(Signal::Interrupt.code(), 2);
    assert_eq!(Signal::Terminate.code(), 15);
    assert_eq!(Signal::Bus.code(), 7);
}

#[test]
fn code_round_trip_for_every_signal() {
    for s in Signal::all() {
        assert_eq!(Signal::from_code(s.code()), Some(s));
    }
}

#[test]
fn unknown_codes_are_unrecognized() {
    assert_eq!(Signal::from_code(0), None);
    assert_eq!(Signal::from_code(-1), None);
    assert_eq!(Signal::from_code(26), None);
    assert_eq!(Signal::from_code(30), None);
    assert_eq!(Signal::from_code(32), None);
    assert_eq!(Signal::from_code(i32::MAX), None);
}

#[test]
fn known_codes_are_recognized() {
    assert_eq!(Signal::from_code(2), Some(Signal::Interrupt));
    assert_eq!(Signal::from_code(9), Some(Signal::Kill));
    assert_eq!(Signal::from_code(31), Some(Signal::Sys));
}

#[test]
fn listing_holds_each_signal_once() {
    let all = Signal::all();
    assert_eq!(all.len(), SIGNAL_COUNT);
    for i in 0..all.len() {
        for j in 0..all.len() {
            if i != j {
                assert_ne!(all[i], all[j]);
                assert_ne!(all[i].code(), all[j].code());
            }
        }
    }
}

#[test]
fn descriptions_are_given() {
    assert_eq!(Signal::Interrupt.description(), "Terminal interrupt signal.");
    assert_eq!(Signal::WinSize.description(), "Window resized.");
    for s in Signal::all() {
        assert!(!s.description().is_empty());
    }
}
