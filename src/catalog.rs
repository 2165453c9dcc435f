//! The closed set of signals and their numeric codes.
//!
//! The codes are those of Linux, the platform this table is written for; the
//! symbolic names are portable, and another platform needs only another table.
use vstd::prelude::*;

verus! {

/// Number of signals in the catalog.
pub const SIGNAL_COUNT: usize = 28;

/// A signal that a process can receive.
#[derive(Clone, Copy, Debug, PartialEq, Eq, Structural)]
pub enum Signal {
    /// Process abort signal.
    Abort,
    /// Alarm clock.
    Alarm,
    /// Access to an undefined portion of a memory object.
    Bus,
    /// Child process terminated, stopped or continued.
    Child,
    /// Continue executing, if stopped.
    Continue,
    /// Erroneous arithmetic operation.
    FPE,
    /// Hangup.
    Hangup,
    /// Illegal instruction.
    Illegal,
    /// Terminal interrupt signal.
    Interrupt,
    /// Kill (cannot be caught or ignored).
    Kill,
    /// Write on a pipe with no one to read it.
    Pipe,
    /// Terminal quit signal.
    Quit,
    /// Pollable event.
    Poll,
    /// Profiling timer expired.
    Prof,
    /// Invalid memory reference.
    Segfault,
    /// Stop executing (cannot be caught or ignored).
    Stop,
    /// Terminal stop signal.
    TermStop,
    /// Bad system call.
    Sys,
    /// Termination signal.
    Terminate,
    /// Trace/breakpoint trap.
    Trap,
    /// Background process attempting read.
    TTIN,
    /// Background process attempting write.
    TTOU,
    /// High bandwidth data is available at a socket.
    Urgent,
    /// User-defined signal 1.
    User1,
    /// User-defined signal 2.
    User2,
    /// Window resized.
    WinSize,
    /// CPU time limit exceeded.
    XCPU,
    /// File size limit exceeded.
    XFSZ,
}

impl Signal {
    /// The numeric code of the signal on this platform.
    pub open spec fn code_spec(self) -> i32 {
        match self {
            Signal::Abort => 6,
            Signal::Alarm => 14,
            Signal::Bus => 7,
            Signal::Child => 17,
            Signal::Continue => 18,
            Signal::FPE => 8,
            Signal::Hangup => 1,
            Signal::Illegal => 4,
            Signal::Interrupt => 2,
            Signal::Kill => 9,
            Signal::Pipe => 13,
            Signal::Quit => 3,
            Signal::Poll => 29,
            Signal::Prof => 27,
            Signal::Segfault => 11,
            Signal::Stop => 19,
            Signal::TermStop => 20,
            Signal::Sys => 31,
            Signal::Terminate => 15,
            Signal::Trap => 5,
            Signal::TTIN => 21,
            Signal::TTOU => 22,
            Signal::Urgent => 23,
            Signal::User1 => 10,
            Signal::User2 => 12,
            Signal::WinSize => 28,
            Signal::XCPU => 24,
            Signal::XFSZ => 25,
        }
    }

    /// The signal whose code is `code`, if the catalog holds one.
    pub open spec fn signal_of_code(code: i32) -> Option<Signal> {
        if exists|s: Signal| s.code_spec() == code {
            Some(choose|s: Signal| s.code_spec() == code)
        } else {
            None
        }
    }

    /// The short human-readable description of the signal.
    pub open spec fn description_spec(self) -> Seq<char> {
        match self {
            Signal::Abort => "Process abort signal."@,
            Signal::Alarm => "Alarm clock."@,
            Signal::Bus => "Access to an undefined portion of a memory object."@,
            Signal::Child => "Child process terminated, stopped or continued."@,
            Signal::Continue => "Continue executing, if stopped."@,
            Signal::FPE => "Erroneous arithmetic operation."@,
            Signal::Hangup => "Hangup."@,
            Signal::Illegal => "Illegal instruction."@,
            Signal::Interrupt => "Terminal interrupt signal."@,
            Signal::Kill => "Kill (cannot be caught or ignored)."@,
            Signal::Pipe => "Write on a pipe with no one to read it."@,
            Signal::Quit => "Terminal quit signal."@,
            Signal::Poll => "Pollable event."@,
            Signal::Prof => "Profiling timer expired."@,
            Signal::Segfault => "Invalid memory reference."@,
            Signal::Stop => "Stop executing (cannot be caught or ignored)."@,
            Signal::TermStop => "Terminal stop signal."@,
            Signal::Sys => "Bad system call."@,
            Signal::Terminate => "Termination signal."@,
            Signal::Trap => "Trace/breakpoint trap."@,
            Signal::TTIN => "Background process attempting read."@,
            Signal::TTOU => "Background process attempting write."@,
            Signal::Urgent => "High bandwidth data is available at a socket."@,
            Signal::User1 => "User-defined signal 1."@,
            Signal::User2 => "User-defined signal 2."@,
            Signal::WinSize => "Window resized."@,
            Signal::XCPU => "CPU time limit exceeded."@,
            Signal::XFSZ => "File size limit exceeded."@,
        }
    }

    /// The numeric code that the operating system uses for this signal.
    pub fn code(self) -> (r: i32)
        ensures
            r == self.code_spec(),
    {
        match self {
            Signal::Abort => 6,
            Signal::Alarm => 14,
            Signal::Bus => 7,
            Signal::Child => 17,
            Signal::Continue => 18,
            Signal::FPE => 8,
            Signal::Hangup => 1,
            Signal::Illegal => 4,
            Signal::Interrupt => 2,
            Signal::Kill => 9,
            Signal::Pipe => 13,
            Signal::Quit => 3,
            Signal::Poll => 29,
            Signal::Prof => 27,
            Signal::Segfault => 11,
            Signal::Stop => 19,
            Signal::TermStop => 20,
            Signal::Sys => 31,
            Signal::Terminate => 15,
            Signal::Trap => 5,
            Signal::TTIN => 21,
            Signal::TTOU => 22,
            Signal::Urgent => 23,
            Signal::User1 => 10,
            Signal::User2 => 12,
            Signal::WinSize => 28,
            Signal::XCPU => 24,
            Signal::XFSZ => 25,
        }
    }

    /// The signal with the given code, or `None` for a code outside the catalog.
    pub fn from_code(code: i32) -> (r: Option<Signal>)
        ensures
            r == Signal::signal_of_code(code),
    {
        let r = match code {
            1 => Some(Signal::Hangup),
            2 => Some(Signal::Interrupt),
            3 => Some(Signal::Quit),
            4 => Some(Signal::Illegal),
            5 => Some(Signal::Trap),
            6 => Some(Signal::Abort),
            7 => Some(Signal::Bus),
            8 => Some(Signal::FPE),
            9 => Some(Signal::Kill),
            10 => Some(Signal::User1),
            11 => Some(Signal::Segfault),
            12 => Some(Signal::User2),
            13 => Some(Signal::Pipe),
            14 => Some(Signal::Alarm),
            15 => Some(Signal::Terminate),
            17 => Some(Signal::Child),
            18 => Some(Signal::Continue),
            19 => Some(Signal::Stop),
            20 => Some(Signal::TermStop),
            21 => Some(Signal::TTIN),
            22 => Some(Signal::TTOU),
            23 => Some(Signal::Urgent),
            24 => Some(Signal::XCPU),
            25 => Some(Signal::XFSZ),
            27 => Some(Signal::Prof),
            28 => Some(Signal::WinSize),
            29 => Some(Signal::Poll),
            31 => Some(Signal::Sys),
            _ => None,
        };
        proof {
            if let Some(s) = r {
                assert(s.code_spec() == code);
                lemma_code_injective(s, choose|t: Signal| t.code_spec() == code);
            }
        }
        r
    }

    /// Every signal of the catalog, each once.
    pub fn all() -> (r: Vec<Signal>)
        ensures
            r@.len() == SIGNAL_COUNT,
            r@.no_duplicates(),
            forall|s: Signal| r@.contains(s),
    {
        let r: Vec<Signal> = vec![
            Signal::Abort,
            Signal::Alarm,
            Signal::Bus,
            Signal::Child,
            Signal::Continue,
            Signal::FPE,
            Signal::Hangup,
            Signal::Illegal,
            Signal::Interrupt,
            Signal::Kill,
            Signal::Pipe,
            Signal::Quit,
            Signal::Poll,
            Signal::Prof,
            Signal::Segfault,
            Signal::Stop,
            Signal::TermStop,
            Signal::Sys,
            Signal::Terminate,
            Signal::Trap,
            Signal::TTIN,
            Signal::TTOU,
            Signal::Urgent,
            Signal::User1,
            Signal::User2,
            Signal::WinSize,
            Signal::XCPU,
            Signal::XFSZ,
        ];
        proof {
            assert forall|s: Signal| r@.contains(s) by {
                match s {
                    Signal::Abort => assert(r@[0] == s),
                    Signal::Alarm => assert(r@[1] == s),
                    Signal::Bus => assert(r@[2] == s),
                    Signal::Child => assert(r@[3] == s),
                    Signal::Continue => assert(r@[4] == s),
                    Signal::FPE => assert(r@[5] == s),
                    Signal::Hangup => assert(r@[6] == s),
                    Signal::Illegal => assert(r@[7] == s),
                    Signal::Interrupt => assert(r@[8] == s),
                    Signal::Kill => assert(r@[9] == s),
                    Signal::Pipe => assert(r@[10] == s),
                    Signal::Quit => assert(r@[11] == s),
                    Signal::Poll => assert(r@[12] == s),
                    Signal::Prof => assert(r@[13] == s),
                    Signal::Segfault => assert(r@[14] == s),
                    Signal::Stop => assert(r@[15] == s),
                    Signal::TermStop => assert(r@[16] == s),
                    Signal::Sys => assert(r@[17] == s),
                    Signal::Terminate => assert(r@[18] == s),
                    Signal::Trap => assert(r@[19] == s),
                    Signal::TTIN => assert(r@[20] == s),
                    Signal::TTOU => assert(r@[21] == s),
                    Signal::Urgent => assert(r@[22] == s),
                    Signal::User1 => assert(r@[23] == s),
                    Signal::User2 => assert(r@[24] == s),
                    Signal::WinSize => assert(r@[25] == s),
                    Signal::XCPU => assert(r@[26] == s),
                    Signal::XFSZ => assert(r@[27] == s),
                }
            }
        }
        r
    }

    /// A short human-readable description, for diagnostics.
    pub fn description(self) -> (r: &'static str)
        ensures
            r@ == self.description_spec(),
    {
        match self {
            Signal::Abort => "Process abort signal.",
            Signal::Alarm => "Alarm clock.",
            Signal::Bus => "Access to an undefined portion of a memory object.",
            Signal::Child => "Child process terminated, stopped or continued.",
            Signal::Continue => "Continue executing, if stopped.",
            Signal::FPE => "Erroneous arithmetic operation.",
            Signal::Hangup => "Hangup.",
            Signal::Illegal => "Illegal instruction.",
            Signal::Interrupt => "Terminal interrupt signal.",
            Signal::Kill => "Kill (cannot be caught or ignored).",
            Signal::Pipe => "Write on a pipe with no one to read it.",
            Signal::Quit => "Terminal quit signal.",
            Signal::Poll => "Pollable event.",
            Signal::Prof => "Profiling timer expired.",
            Signal::Segfault => "Invalid memory reference.",
            Signal::Stop => "Stop executing (cannot be caught or ignored).",
            Signal::TermStop => "Terminal stop signal.",
            Signal::Sys => "Bad system call.",
            Signal::Terminate => "Termination signal.",
            Signal::Trap => "Trace/breakpoint trap.",
            Signal::TTIN => "Background process attempting read.",
            Signal::TTOU => "Background process attempting write.",
            Signal::Urgent => "High bandwidth data is available at a socket.",
            Signal::User1 => "User-defined signal 1.",
            Signal::User2 => "User-defined signal 2.",
            Signal::WinSize => "Window resized.",
            Signal::XCPU => "CPU time limit exceeded.",
            Signal::XFSZ => "File size limit exceeded.",
        }
    }
}

/// Distinct signals have distinct codes.
pub proof fn lemma_code_injective(a: Signal, b: Signal)
    ensures
        a.code_spec() == b.code_spec() ==> a == b,
{
}

/// Converting a signal to its code and the code back to a signal gives the
/// signal again, for every signal of the catalog.
pub proof fn lemma_round_trip(s: Signal)
    ensures
        Signal::signal_of_code(s.code_spec()) == Some(s),
{
    let t = choose|t: Signal| t.code_spec() == s.code_spec();
    lemma_code_injective(s, t);
}

} // verus!
