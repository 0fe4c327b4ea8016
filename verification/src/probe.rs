//! Judging a target: the reachability probe that runs before a tunnel is
//! enabled, and the connectivity test that a user asks for.

use vstd::prelude::*;
use vstd::string::*;

use crate::forwarder::{call, ProgramCall, ProgramCallView};
use crate::models::{ReachabilityResult, ReachabilityView, TestConnectionResponse};
use crate::responses::{host_port, join_host_port};
use crate::text::{decimal, decimal_string};

verus! {

/// How long a connection attempt of the reachability probe may take, in
/// seconds.
pub const PROBE_TIMEOUT_SECS: u64 = 3;

/// How one connection attempt ended.
#[derive(Debug, PartialEq, Eq)]
pub enum ConnectOutcome {
    /// The connection was made.
    Connected,
    /// The host refused the connection.
    Refused,
    /// The attempt failed in another way; the string says how.
    Failed(String),
    /// The attempt did not end in time.
    TimedOut,
}

/// A `ConnectOutcome` with its string as a character sequence.
pub enum ConnectOutcomeView {
    Connected,
    Refused,
    Failed(Seq<char>),
    TimedOut,
}

impl View for ConnectOutcome {
    type V = ConnectOutcomeView;

    open spec fn view(&self) -> ConnectOutcomeView {
        match self {
            ConnectOutcome::Connected => ConnectOutcomeView::Connected,
            ConnectOutcome::Refused => ConnectOutcomeView::Refused,
            ConnectOutcome::Failed(reason) => ConnectOutcomeView::Failed(reason@),
            ConnectOutcome::TimedOut => ConnectOutcomeView::TimedOut,
        }
    }
}

/// What a connection attempt says of the target: a connection shows a
/// listening service; a refusal shows a host that is up with the port closed;
/// anything else, a timeout included, shows no host.
pub open spec fn reachability(outcome: ConnectOutcomeView) -> ReachabilityView {
    match outcome {
        ConnectOutcomeView::Connected => ReachabilityView::Reachable,
        ConnectOutcomeView::Refused => ReachabilityView::HostReachablePortClosed,
        ConnectOutcomeView::Failed(reason) => ReachabilityView::HostUnreachable(reason),
        ConnectOutcomeView::TimedOut => ReachabilityView::HostUnreachable(
            "Connection timed out"@,
        ),
    }
}

/// One connection attempt: where to connect, and how long it may take. The
/// connection is closed at once and no data is sent.
#[derive(Debug, PartialEq, Eq)]
pub struct ConnectAttempt {
    pub address: String,
    pub timeout_secs: u64,
}

/// The connection attempt of the reachability probe of `host:port`: to the
/// address `<host>:<port>`, within three seconds.
pub fn probe_attempt(host: &str, port: u16) -> (attempt: ConnectAttempt)
    ensures
        attempt.address@ == host_port(host@, port),
        attempt.timeout_secs == PROBE_TIMEOUT_SECS,
{
    ConnectAttempt { address: join_host_port(host, port), timeout_secs: PROBE_TIMEOUT_SECS }
}

/// Judges the target by how the connection attempt to it ended.
pub fn check_target_reachability(outcome: ConnectOutcome) -> (result: ReachabilityResult)
    ensures
        result@ == reachability(outcome@),
{
    match outcome {
        ConnectOutcome::Connected => ReachabilityResult::Reachable,
        ConnectOutcome::Refused => ReachabilityResult::HostReachablePortClosed,
        ConnectOutcome::Failed(reason) => ReachabilityResult::HostUnreachable(reason),
        ConnectOutcome::TimedOut => ReachabilityResult::HostUnreachable(
            String::from_str("Connection timed out"),
        ),
    }
}

/// The call of the connectivity test: `nc` scans the port without sending
/// data, says what it does, and gives up after three seconds.
pub open spec fn test_call(target_host: Seq<char>, target_port: u16) -> ProgramCallView {
    call("nc"@, seq!["-zvw3"@, target_host, decimal(target_port as nat)])
}

/// The call that tests the connection to `target_host:target_port`.
pub fn test_command(target_host: &str, target_port: u16) -> (call: ProgramCall)
    ensures
        call@ == test_call(target_host@, target_port),
{
    let mut args: Vec<String> = Vec::new();
    args.push(String::from_str("-zvw3"));
    args.push(String::from_str(target_host));
    args.push(decimal_string(target_port as u32));
    assert(args.deep_view() =~= seq!["-zvw3"@, target_host@, decimal(target_port as nat)]);
    ProgramCall { program: String::from_str("nc"), args }
}

/// How the run of the connectivity test ended.
#[derive(Debug, PartialEq, Eq)]
pub enum TestRun {
    /// The test program could not be started; the string says why.
    NotStarted { reason: String },
    /// The test program ran: what it wrote, and whether it reported success.
    Finished { stdout: String, stderr: String, success: bool },
}

/// A `TestRun` with its strings as character sequences.
pub enum TestRunView {
    NotStarted { reason: Seq<char> },
    Finished { stdout: Seq<char>, stderr: Seq<char>, success: bool },
}

impl View for TestRun {
    type V = TestRunView;

    open spec fn view(&self) -> TestRunView {
        match self {
            TestRun::NotStarted { reason } => TestRunView::NotStarted { reason: reason@ },
            TestRun::Finished { stdout, stderr, success } => TestRunView::Finished {
                stdout: stdout@,
                stderr: stderr@,
                success: *success,
            },
        }
    }
}

/// What the test program wrote: its output, then its error stream on a line
/// of its own.
pub open spec fn combined_output(stdout: Seq<char>, stderr: Seq<char>) -> Seq<char> {
    if stderr.len() == 0 {
        stdout
    } else if stdout.len() == 0 {
        stderr
    } else {
        stdout + seq!['\n'] + stderr
    }
}

/// The log of a connectivity test to `target_host:target_port`: what the test
/// program wrote, or a sentence in its place if it wrote nothing.
pub open spec fn test_log(
    target_host: Seq<char>,
    target_port: u16,
    stdout: Seq<char>,
    stderr: Seq<char>,
    success: bool,
) -> Seq<char> {
    if combined_output(stdout, stderr).len() > 0 {
        combined_output(stdout, stderr)
    } else if success {
        "Connection succeeded"@
    } else {
        "Connection to "@ + host_port(target_host, target_port) + " failed (no output)"@
    }
}

/// Whether a connectivity test succeeded.
pub open spec fn test_success(run: TestRunView) -> bool {
    match run {
        TestRunView::NotStarted { .. } => false,
        TestRunView::Finished { success, .. } => success,
    }
}

/// The log of a connectivity test.
pub open spec fn test_report(
    target_host: Seq<char>,
    target_port: u16,
    run: TestRunView,
) -> Seq<char> {
    match run {
        TestRunView::NotStarted { reason } => "Failed to run nc: "@ + reason,
        TestRunView::Finished { stdout, stderr, success } => test_log(
            target_host,
            target_port,
            stdout,
            stderr,
            success,
        ),
    }
}

/// Reports a connectivity test to `target_host:target_port` from how the run
/// of the test program ended.
pub fn test_connection(target_host: &str, target_port: u16, run: TestRun) -> (response:
    TestConnectionResponse)
    ensures
        response.success == test_success(run@),
        response.log@ == test_report(target_host@, target_port, run@),
{
    match run {
        TestRun::NotStarted { reason } => {
            let mut log = String::from_str("Failed to run nc: ");
            log.append(reason.as_str());
            TestConnectionResponse { success: false, log }
        },
        TestRun::Finished { stdout, stderr, success } => {
            let mut log = String::new();
            if !stdout.as_str().is_empty() {
                log.append(stdout.as_str());
            }
            if !stderr.as_str().is_empty() {
                if !log.as_str().is_empty() {
                    log.append("\n");
                }
                log.append(stderr.as_str());
            }
            proof {
                reveal_strlit("\n");
            }
            if log.as_str().is_empty() {
                if success {
                    log = String::from_str("Connection succeeded");
                } else {
                    log = String::from_str("Connection to ");
                    log.append(join_host_port(target_host, target_port).as_str());
                    log.append(" failed (no output)");
                }
            }
            TestConnectionResponse { success, log }
        },
    }
}

} // verus!
