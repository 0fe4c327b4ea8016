//! Starting and stopping the forwarder of a tunnel.
//!
//! The forwarder is the program `socat`, run in a process group of its own so
//! that one signal to the group also ends the children it forks. The caller
//! runs the programs; this module says which, and what to make of what
//! happened.

use vstd::prelude::*;
use vstd::string::*;

use crate::responses::{host_port, join_host_port};
use crate::text::{decimal, push_decimal, trim, trimmed};

verus! {

/// How long to wait after the start of a forwarder before looking whether it
/// still runs, in milliseconds.
pub const SPAWN_GRACE_MILLIS: u64 = 250;

/// How long to wait after stopping a forwarder whose port is bound again, in
/// milliseconds.
pub const PORT_RELEASE_MILLIS: u64 = 200;

/// A program to run, with its arguments.
#[derive(Debug, PartialEq, Eq)]
pub struct ProgramCall {
    pub program: String,
    pub args: Vec<String>,
}

/// A `ProgramCall` with its strings as character sequences.
pub struct ProgramCallView {
    pub program: Seq<char>,
    pub args: Seq<Seq<char>>,
}

impl View for ProgramCall {
    type V = ProgramCallView;

    open spec fn view(&self) -> ProgramCallView {
        ProgramCallView { program: self.program@, args: self.args.deep_view() }
    }
}

/// The call of `program` with the arguments `args`.
pub open spec fn call(program: Seq<char>, args: Seq<Seq<char>>) -> ProgramCallView {
    ProgramCallView { program, args }
}

/// The argument that makes `socat` listen on `local_port`, serve each
/// connection in a child, and bind the port even if it was in use a moment
/// ago.
pub open spec fn listen_arg(local_port: u16) -> Seq<char> {
    "TCP-LISTEN:"@ + decimal(local_port as nat) + ",fork,reuseaddr"@
}

/// The argument that makes `socat` connect to `target_host:target_port`.
pub open spec fn connect_arg(target_host: Seq<char>, target_port: u16) -> Seq<char> {
    "TCP:"@ + host_port(target_host, target_port)
}

/// The call that forwards `local_port` to `target_host:target_port`.
pub open spec fn forwarder_call(
    local_port: u16,
    target_host: Seq<char>,
    target_port: u16,
) -> ProgramCallView {
    call("socat"@, seq![listen_arg(local_port), connect_arg(target_host, target_port)])
}

/// A minus sign and the decimal numeral of `pid`: the process group of `pid`
/// as `kill` wants it.
pub open spec fn group_arg(pid: u32) -> Seq<char> {
    "-"@ + decimal(pid as nat)
}

/// The call that ends the process group of `pid` at once.
pub open spec fn group_kill_call(pid: u32) -> ProgramCallView {
    call("kill"@, seq!["-9"@, group_arg(pid)])
}

/// The call that ends the process group of `pid` at once, through the shell.
pub open spec fn shell_kill_call(pid: u32) -> ProgramCallView {
    call("sh"@, seq!["-c"@, "kill -9 "@ + group_arg(pid)])
}

/// What the attempt to launch the forwarder showed.
#[derive(Debug, PartialEq, Eq)]
pub enum Launch {
    /// The program could not be started; the string says why.
    NotStarted { reason: String },
    /// The program was started but its process id is not known.
    NoPid,
    /// The program runs as process `pid`.
    Started { pid: u32 },
}

/// A `Launch` with its strings as character sequences.
pub enum LaunchView {
    NotStarted { reason: Seq<char> },
    NoPid,
    Started { pid: u32 },
}

impl View for Launch {
    type V = LaunchView;

    open spec fn view(&self) -> LaunchView {
        match self {
            Launch::NotStarted { reason } => LaunchView::NotStarted { reason: reason@ },
            Launch::NoPid => LaunchView::NoPid,
            Launch::Started { pid } => LaunchView::Started { pid: *pid },
        }
    }
}

/// What a look at a launched forwarder showed after the grace period.
#[derive(Debug, PartialEq, Eq)]
pub enum Poll {
    /// The process has ended: how its exit status reads, and what it wrote to
    /// its error stream.
    Exited { status: String, stderr: String },
    /// The process still runs.
    Running,
    /// The state of the process could not be read; the string says why.
    Unknown { reason: String },
}

/// A `Poll` with its strings as character sequences.
pub enum PollView {
    Exited { status: Seq<char>, stderr: Seq<char> },
    Running,
    Unknown { reason: Seq<char> },
}

impl View for Poll {
    type V = PollView;

    open spec fn view(&self) -> PollView {
        match self {
            Poll::Exited { status, stderr } => PollView::Exited {
                status: status@,
                stderr: stderr@,
            },
            Poll::Running => PollView::Running,
            Poll::Unknown { reason } => PollView::Unknown { reason: reason@ },
        }
    }
}

/// The next piece of work of starting a forwarder, or its end.
#[derive(Debug, PartialEq, Eq)]
pub enum SpawnStep {
    /// Run `call` without input, with its output discarded and its error
    /// stream kept, in a process group of its own if `own_group` is set;
    /// then call [`spawn_on_launched`].
    Launch { call: ProgramCall, own_group: bool },
    /// Wait `millis` milliseconds, look whether process `pid` has ended, then
    /// call [`spawn_on_polled`].
    Poll { pid: u32, millis: u64 },
    /// The forwarder runs as process `pid`. If `watch` is set, its end is to
    /// be recorded when it comes, and nothing else is to be done then.
    Live { pid: u32, watch: bool },
    /// The forwarder did not start. If `cleanup` is there, run it and ignore
    /// how it ends.
    Failed { message: String, cleanup: Option<ProgramCall> },
}

/// A `SpawnStep` with its strings as character sequences.
pub enum SpawnStepView {
    Launch { call: ProgramCallView, own_group: bool },
    Poll { pid: u32, millis: u64 },
    Live { pid: u32, watch: bool },
    Failed { message: Seq<char>, cleanup: Option<ProgramCallView> },
}

impl View for SpawnStep {
    type V = SpawnStepView;

    open spec fn view(&self) -> SpawnStepView {
        match self {
            SpawnStep::Launch { call, own_group } => SpawnStepView::Launch {
                call: call@,
                own_group: *own_group,
            },
            SpawnStep::Poll { pid, millis } => SpawnStepView::Poll { pid: *pid, millis: *millis },
            SpawnStep::Live { pid, watch } => SpawnStepView::Live { pid: *pid, watch: *watch },
            SpawnStep::Failed { message, cleanup } => SpawnStepView::Failed {
                message: message@,
                cleanup: match cleanup {
                    Some(call) => Some(call@),
                    None => None,
                },
            },
        }
    }
}

/// The forwarder did not start, and nothing is left to clean up.
pub open spec fn failed(message: Seq<char>) -> SpawnStepView {
    SpawnStepView::Failed { message, cleanup: None }
}

/// The step after the attempt to launch the forwarder.
pub open spec fn launched(launch: LaunchView) -> SpawnStepView {
    match launch {
        LaunchView::NotStarted { reason } => failed("[socat] Failed to spawn socat: "@ + reason),
        LaunchView::NoPid => failed("[socat] Failed to obtain socat PID"@),
        LaunchView::Started { pid } => SpawnStepView::Poll { pid, millis: SPAWN_GRACE_MILLIS },
    }
}

/// How the early end of a forwarder is described: its exit status, and what
/// it wrote to its error stream if that is more than white space.
pub open spec fn exit_detail(status: Seq<char>, stderr: Seq<char>) -> Seq<char> {
    if trimmed(stderr).len() == 0 {
        "exit "@ + status
    } else {
        "exit "@ + status + ": "@ + trimmed(stderr)
    }
}

/// The step after the look at the launched forwarder `pid`: a process that
/// still runs is live and is watched; one that has ended already did not
/// start; one whose state cannot be read is ended with its group.
pub open spec fn polled(pid: u32, poll: PollView) -> SpawnStepView {
    match poll {
        PollView::Exited { status, stderr } => failed(
            "[socat] PID "@ + decimal(pid as nat) + " exited immediately \u{2014} "@ + exit_detail(
                status,
                stderr,
            ),
        ),
        PollView::Running => SpawnStepView::Live { pid, watch: true },
        PollView::Unknown { reason } => SpawnStepView::Failed {
            message: "[socat] Failed to check PID "@ + decimal(pid as nat) + " status: "@ + reason,
            cleanup: Some(group_kill_call(pid)),
        },
    }
}

/// What ending a process group showed: whether `kill` reported success, or
/// why it could not be run.
pub open spec fn kill_finished(pid: u32, ran: Result<bool, Seq<char>>) -> Result<(), Seq<char>> {
    match ran {
        Ok(_) => Ok(()),
        Err(reason) => Err(
            "[socat] Failed to execute shell kill for PGID "@ + decimal(pid as nat) + ": "@
                + reason,
        ),
    }
}

/// The outcome of running `kill` with its message as a character sequence.
pub open spec fn kill_view(ran: Result<bool, String>) -> Result<bool, Seq<char>> {
    match ran {
        Ok(success) => Ok(success),
        Err(reason) => Err(reason@),
    }
}

/// The outcome of stopping a forwarder with its message as a character
/// sequence.
pub open spec fn stop_view(result: Result<(), String>) -> Result<(), Seq<char>> {
    match result {
        Ok(_) => Ok(()),
        Err(message) => Err(message@),
    }
}

/// A call with two arguments.
fn call_with_two(program: &str, first: String, second: String) -> (call: ProgramCall)
    ensures
        call@ == self::call(program@, seq![first@, second@]),
{
    let mut args: Vec<String> = Vec::new();
    args.push(first);
    args.push(second);
    assert(args.deep_view() =~= seq![first@, second@]);
    ProgramCall { program: String::from_str(program), args }
}

/// Writes a minus sign and `pid`.
fn group_of(pid: u32) -> (arg: String)
    ensures
        arg@ == group_arg(pid),
{
    let mut arg = String::from_str("-");
    push_decimal(&mut arg, pid);
    arg
}

/// The first step of starting a forwarder: `socat` is launched in a process
/// group of its own, so that stopping the group stops its children too.
pub open spec fn spawn_begun(
    local_port: u16,
    target_host: Seq<char>,
    target_port: u16,
) -> SpawnStepView {
    SpawnStepView::Launch {
        call: forwarder_call(local_port, target_host, target_port),
        own_group: true,
    }
}

/// Begins the start of a forwarder from `local_port` to
/// `target_host:target_port`: the caller is asked to launch `socat` in a
/// process group of its own.
pub fn spawn_socat(local_port: u16, target_host: &str, target_port: u16) -> (step: SpawnStep)
    ensures
        step@ == spawn_begun(local_port, target_host@, target_port),
{
    let mut listen = String::from_str("TCP-LISTEN:");
    push_decimal(&mut listen, local_port as u32);
    listen.append(",fork,reuseaddr");
    let mut connect = String::from_str("TCP:");
    connect.append(join_host_port(target_host, target_port).as_str());
    SpawnStep::Launch { call: call_with_two("socat", listen, connect), own_group: true }
}

/// Goes on after the attempt to launch the forwarder.
///
/// A program that could not be started, or whose process id is not known,
/// did not start. Else the caller is asked to wait for the grace period and
/// to look whether the process still runs.
pub fn spawn_on_launched(launch: Launch) -> (step: SpawnStep)
    ensures
        step@ == launched(launch@),
{
    match launch {
        Launch::NotStarted { reason } => {
            let mut message = String::from_str("[socat] Failed to spawn socat: ");
            message.append(reason.as_str());
            SpawnStep::Failed { message, cleanup: None }
        },
        Launch::NoPid => SpawnStep::Failed {
            message: String::from_str("[socat] Failed to obtain socat PID"),
            cleanup: None,
        },
        Launch::Started { pid } => SpawnStep::Poll { pid, millis: SPAWN_GRACE_MILLIS },
    }
}

/// Describes the early end of a forwarder.
fn describe_exit(status: &str, stderr: &str) -> (detail: String)
    ensures
        detail@ == exit_detail(status@, stderr@),
{
    let said = trim(stderr);
    let mut detail = String::from_str("exit ");
    detail.append(status);
    if !said.is_empty() {
        detail.append(": ");
        detail.append(said);
    }
    detail
}

/// Goes on after the look at the launched forwarder `pid`.
///
/// A process that still runs is live. One that has ended did not start: the
/// message gives its exit status and what it wrote to its error stream. One
/// whose state could not be read did not start either, and the caller is
/// asked to end its process group.
pub fn spawn_on_polled(pid: u32, poll: Poll) -> (step: SpawnStep)
    ensures
        step@ == polled(pid, poll@),
{
    match poll {
        Poll::Exited { status, stderr } => {
            let mut message = String::from_str("[socat] PID ");
            push_decimal(&mut message, pid);
            message.append(" exited immediately \u{2014} ");
            message.append(describe_exit(status.as_str(), stderr.as_str()).as_str());
            SpawnStep::Failed { message, cleanup: None }
        },
        Poll::Running => SpawnStep::Live { pid, watch: true },
        Poll::Unknown { reason } => {
            let mut message = String::from_str("[socat] Failed to check PID ");
            push_decimal(&mut message, pid);
            message.append(" status: ");
            message.append(reason.as_str());
            let cleanup = call_with_two("kill", String::from_str("-9"), group_of(pid));
            SpawnStep::Failed { message, cleanup: Some(cleanup) }
        },
    }
}

/// The call that stops the forwarder `pid` together with the children it
/// forked: `kill -9` on its process group, through the shell.
pub fn kill_socat(pid: u32) -> (call: ProgramCall)
    ensures
        call@ == shell_kill_call(pid),
{
    let mut script = String::from_str("kill -9 ");
    script.append(group_of(pid).as_str());
    call_with_two("sh", String::from_str("-c"), script)
}

/// What stopping the forwarder `pid` came to: `ran` tells whether `kill`
/// reported success, or why it could not be run. Only a `kill` that could not
/// be run is an error; a process group that was gone already is none.
pub fn kill_on_finished(pid: u32, ran: Result<bool, String>) -> (result: Result<(), String>)
    ensures
        stop_view(result) == kill_finished(pid, kill_view(ran)),
{
    match ran {
        Ok(_) => Ok(()),
        Err(reason) => {
            let mut message = String::from_str("[socat] Failed to execute shell kill for PGID ");
            push_decimal(&mut message, pid);
            message.append(": ");
            message.append(reason.as_str());
            Err(message)
        },
    }
}

} // verus!
