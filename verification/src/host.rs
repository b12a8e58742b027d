//! The command host's lifecycle and command dispatch.
//!
//! The process moves through three phases: not started, running, terminated.
//! Startup is construct-or-terminate: one fallible initialization step whose
//! only recovery policy is termination with a non-empty diagnostic. While the
//! host runs, the two commands may be dispatched any number of times; neither
//! changes the host.

use vstd::prelude::*;
use crate::commands::{greet, greet_message, gpu_task_message, perform_gpu_task};

verus! {

/// How a terminated host ended: a normal return of the run loop, or a fatal
/// startup failure carrying a diagnostic.
pub enum Outcome {
    Success,
    Fatal(String),
}

/// The phases of the host process.
pub enum HostState {
    NotStarted,
    Running,
    Terminated(Outcome),
}

/// A command callable by the front end, by name, with its argument.
pub enum Command {
    Greet(String),
    PerformGpuTask,
}

/// The response owed to a command: a function of the command alone.
pub open spec fn response_of(c: Command) -> Seq<char> {
    match c {
        Command::Greet(name) => greet_message(name@),
        Command::PerformGpuTask => gpu_task_message(),
    }
}

/// The diagnostic surfaced when startup fails with error text `m`.
pub open spec fn startup_diagnostic(m: Seq<char>) -> Seq<char> {
    "error while running tauri application: "@ + m
}

/// The command host: the one process-wide state machine.
pub struct Host {
    pub state: HostState,
}

impl Host {
    /// A fatal termination always carries a non-empty diagnostic.
    pub open spec fn wf(self) -> bool {
        self.state matches HostState::Terminated(Outcome::Fatal(d)) ==> d@.len() > 0
    }

    /// A fresh host that has not yet started its run loop.
    pub fn new() -> (h: Host)
        ensures
            h.state is NotStarted,
            h.wf(),
    {
        Host { state: HostState::NotStarted }
    }

    /// Construct-or-terminate: `outcome` is what the one fallible
    /// initialization step reported. On success the host is running and has
    /// not exited; on failure it terminates at once, fatally, surfacing the
    /// failure text behind a fixed heading — never silently.
    pub fn start(&mut self, outcome: Result<(), String>)
        requires
            old(self).state is NotStarted,
        ensures
            final(self).wf(),
            outcome is Ok ==> final(self).state is Running,
            (outcome matches Err(m) ==> {
                &&& final(self).state matches HostState::Terminated(Outcome::Fatal(d))
                &&& d@ == startup_diagnostic(m@)
                &&& d@.len() > 0
            }),
    {
        match outcome {
            Ok(()) => {
                self.state = HostState::Running;
            },
            Err(m) => {
                proof {
                    reveal_strlit("error while running tauri application: ");
                }
                let mut d = String::from_str("error while running tauri application: ");
                d.append(m.as_str());
                self.state = HostState::Terminated(Outcome::Fatal(d));
            },
        }
    }

    /// Serves one command while the host runs. Pure: the host is left exactly
    /// as it was, and the response depends on the command alone — not on the
    /// host, nor on how many calls came before.
    pub fn dispatch(&mut self, c: &Command) -> (r: String)
        requires
            old(self).state is Running,
        ensures
            *final(self) == *old(self),
            r@ == response_of(*c),
    {
        match c {
            Command::Greet(name) => greet(name.as_str()),
            Command::PerformGpuTask => perform_gpu_task(),
        }
    }

    /// The run loop returned normally: the host terminates successfully.
    pub fn finish(&mut self)
        requires
            old(self).state is Running,
        ensures
            final(self).state == HostState::Terminated(Outcome::Success),
            final(self).wf(),
    {
        self.state = HostState::Terminated(Outcome::Success);
    }
}

} // verus!
