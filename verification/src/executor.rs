//! The process executor of an agent: what the output of a command adds up
//! to, and which process a kill request is aimed at.

use vstd::prelude::*;
use vstd::string::StringExecFns;
use nix::sys::signal::Signal;
use crate::error::Error;

verus! {

/// The exit code of a child that ended without one, such as one that a
/// signal ended.
pub const NO_EXIT_CODE: i32 = -1;

/// Process output event.
#[derive(Debug, Clone, PartialEq, Eq)]
pub enum ProcessOutput {
    /// A line that the command wrote to standard output, without its end.
    Stdout(String),
    /// A line that the command wrote to standard error, without its end.
    Stderr(String),
    /// The command ended with this code.
    Exit(i32),
    Error(String),
}

/// What a command wrote and how it ended.
#[derive(Debug, Clone, PartialEq, Eq)]
pub struct CollectedOutput {
    pub exit_code: i32,
    pub stdout: String,
    pub stderr: String,
}

/// The text that the events add to standard output: each line of it,
/// followed by a line feed.
pub open spec fn stdout_of(events: Seq<ProcessOutput>) -> Seq<char>
    decreases events.len(),
{
    if events.len() == 0 {
        Seq::empty()
    } else {
        let head = stdout_of(events.drop_last());
        match events.last() {
            ProcessOutput::Stdout(line) => head + line@ + "\n"@,
            _ => head,
        }
    }
}

/// The text that the events add to standard error: each line of it, followed
/// by a line feed.
pub open spec fn stderr_of(events: Seq<ProcessOutput>) -> Seq<char>
    decreases events.len(),
{
    if events.len() == 0 {
        Seq::empty()
    } else {
        let head = stderr_of(events.drop_last());
        match events.last() {
            ProcessOutput::Stderr(line) => head + line@ + "\n"@,
            _ => head,
        }
    }
}

/// The exit code that the events report: that of the last exit among them,
/// and 0 where there is none.
pub open spec fn exit_code_of(events: Seq<ProcessOutput>) -> i32
    decreases events.len(),
{
    if events.len() == 0 {
        0
    } else {
        match events.last() {
            ProcessOutput::Exit(code) => code,
            _ => exit_code_of(events.drop_last()),
        }
    }
}

/// Adds one event to what was collected so far.
pub fn collect_event(collected: &mut CollectedOutput, event: &ProcessOutput)
    ensures
        final(collected).stdout@ == (match event {
            ProcessOutput::Stdout(line) => old(collected).stdout@ + line@ + "\n"@,
            _ => old(collected).stdout@,
        }),
        final(collected).stderr@ == (match event {
            ProcessOutput::Stderr(line) => old(collected).stderr@ + line@ + "\n"@,
            _ => old(collected).stderr@,
        }),
        final(collected).exit_code == (match event {
            ProcessOutput::Exit(code) => *code,
            _ => old(collected).exit_code,
        }),
{
    match event {
        ProcessOutput::Stdout(line) => {
            collected.stdout.append(line.as_str());
            collected.stdout.append("\n");
        },
        ProcessOutput::Stderr(line) => {
            collected.stderr.append(line.as_str());
            collected.stderr.append("\n");
        },
        ProcessOutput::Exit(code) => {
            collected.exit_code = *code;
        },
        ProcessOutput::Error(_) => {},
    }
}

/// Collects the output of a command: the lines of standard output and of
/// standard error, each with a line feed after it, and the exit code.
pub fn collect_output(events: &Vec<ProcessOutput>) -> (collected: CollectedOutput)
    ensures
        collected.stdout@ == stdout_of(events@),
        collected.stderr@ == stderr_of(events@),
        collected.exit_code == exit_code_of(events@),
{
    let mut collected = CollectedOutput {
        exit_code: 0,
        stdout: String::new(),
        stderr: String::new(),
    };
    let mut i: usize = 0;
    assert(events@.subrange(0, 0) =~= Seq::<ProcessOutput>::empty());
    while i < events.len()
        invariant
            i <= events.len(),
            collected.stdout@ == stdout_of(events@.subrange(0, i as int)),
            collected.stderr@ == stderr_of(events@.subrange(0, i as int)),
            collected.exit_code == exit_code_of(events@.subrange(0, i as int)),
        decreases events.len() - i,
    {
        proof {
            let next = events@.subrange(0, i + 1);
            assert(next.drop_last() =~= events@.subrange(0, i as int));
            assert(next.last() == events@[i as int]);
        }
        collect_event(&mut collected, &events[i]);
        i += 1;
    }
    assert(events@.subrange(0, events@.len() as int) =~= events@);
    collected
}

/// The exit code of a child: its own, or -1 where it ended without one.
pub fn exit_code(status: Option<i32>) -> (code: i32)
    ensures
        code == (match status {
            Some(c) => c,
            None => NO_EXIT_CODE,
        }),
{
    match status {
        Some(c) => c,
        None => NO_EXIT_CODE,
    }
}

/// `nix::sys::signal::Signal::try_from`: whether the number is that of a
/// signal on this platform. Which numbers are signals differs between
/// platforms, so nothing is claimed of the result.
#[verifier::external_body]
fn signal_for(number: i32) -> (known: bool) {
    Signal::try_from(number).is_ok()
}

/// Whom to signal, and with what.
#[derive(Debug, Clone, Copy, PartialEq, Eq)]
pub struct KillTarget {
    /// The process id, as the operating system takes it.
    pub pid: i32,
    /// The number of the signal.
    pub signal: i32,
}

/// The process id as the operating system takes it: the same 32 bits, read
/// as a signed number.
pub open spec fn raw_pid(pid: u32) -> int {
    if pid <= 0x7fff_ffff {
        pid as int
    } else {
        pid - 0x1_0000_0000
    }
}

/// The target of a kill request, given whether the platform knows a signal
/// of that number: the process and the signal as they were asked for; a
/// number that is no signal is refused.
pub fn kill_target(pid: u32, signal: i32, known: bool) -> (result: Result<KillTarget, Error>)
    ensures
        known ==> result == Ok::<KillTarget, Error>(
            KillTarget { pid: raw_pid(pid) as i32, signal },
        ),
        !known ==> (result matches Err(Error::InvalidParameter(m)) && m@ == "Invalid signal"@),
{
    if known {
        let raw: i32 = if pid <= 0x7fff_ffff {
            pid as i32
        } else {
            ((pid - 0x8000_0000) as i32) + i32::MIN
        };
        Ok(KillTarget { pid: raw, signal })
    } else {
        Err(Error::InvalidParameter("Invalid signal".to_owned()))
    }
}

/// Kill a process by PID: checks the number of the signal, and says whom
/// to signal and with what. The runner delivers the signal; whether the
/// process existed is of no concern.
pub fn kill_process(pid: u32, signal: i32) -> (result: Result<KillTarget, Error>)
    ensures
        match result {
            Ok(target) => target.pid == raw_pid(pid) && target.signal == signal,
            Err(e) => e matches Error::InvalidParameter(m) && m@ == "Invalid signal"@,
        },
{
    kill_target(pid, signal, signal_for(signal))
}

} // verus!
